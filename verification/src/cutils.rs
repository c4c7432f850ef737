//! The flags handed to the C compiler and linker, and the conversion of
//! snake_case names to CamelCase.
use vstd::prelude::*;
use crate::text::{chars_of, push_char};

verus! {

/// The warning and code-layout flags of every C build.
pub open spec fn base_cflags() -> Seq<&'static str> {
    seq![
        "-Wjump-misses-init",
        "-Wstrict-prototypes",
        "-Wunsuffixed-float-constants",
        "-ffunction-sections",
        "-fdata-sections",
        "-Wall",
        "-Wextra",
        "-Winit-self",
        "-Wpointer-arith",
        "-Wreturn-type",
        "-Waddress",
        "-Wsequence-point",
        "-Wformat-security",
        "-Wmissing-include-dirs",
        "-Wfloat-equal",
        "-Wundef",
        "-Wshadow",
        "-Wcast-align",
        "-Wconversion",
        "-Wredundant-decls",
    ]
}

/// The C flags of every build: the hardening flags, then `base_cflags`.
pub open spec fn cflags_list() -> Seq<&'static str> {
    seq!["-fstack-protector-strong", "-DITT_fARCH_IA64", "-fcf-protection"] + base_cflags()
}

/// The C flags that code running inside an enclave is compiled with.
pub open spec fn enclave_cflags_list() -> Seq<&'static str> {
    seq![
        "-ffreestanding",
        "-nostdinc",
        "-fvisibility=hidden",
        "-fpie",
        "-fno-strict-overflow",
        "-fno-delete-null-pointer-checks",
    ]
}

/// The linker flags of an enclave shared object.
pub open spec fn enclave_ldflags_list() -> Seq<&'static str> {
    seq![
        "-Wl,-z,relro,-z,now,-z,noexecstack",
        "-Wl,-Bstatic",
        "-Wl,-Bsymbolic",
        "-Wl,--no-undefined",
        "-Wl,-pie",
        "-Wl,--export-dynamic",
        "-Wl,--gc-sections",
    ]
}

pub struct Cutils {}

impl Cutils {
    /// The C flags of every build.
    pub fn cflags() -> (r: Vec<&'static str>)
        ensures
            r@ == cflags_list(),
    {
        let mut cond: Vec<&'static str> = Vec::new();
        cond.push("-fstack-protector-strong");
        cond.push("-DITT_fARCH_IA64");
        cond.push("-fcf-protection");
        cond.push("-Wjump-misses-init");
        cond.push("-Wstrict-prototypes");
        cond.push("-Wunsuffixed-float-constants");
        cond.push("-ffunction-sections");
        cond.push("-fdata-sections");
        cond.push("-Wall");
        cond.push("-Wextra");
        cond.push("-Winit-self");
        cond.push("-Wpointer-arith");
        cond.push("-Wreturn-type");
        cond.push("-Waddress");
        cond.push("-Wsequence-point");
        cond.push("-Wformat-security");
        cond.push("-Wmissing-include-dirs");
        cond.push("-Wfloat-equal");
        cond.push("-Wundef");
        cond.push("-Wshadow");
        cond.push("-Wcast-align");
        cond.push("-Wconversion");
        cond.push("-Wredundant-decls");
        assert(cond@ =~= cflags_list());
        cond
    }

    /// The C flags of code that runs inside an enclave.
    pub fn enclave_cflags() -> (r: Vec<&'static str>)
        ensures
            r@ == enclave_cflags_list(),
    {
        let mut r: Vec<&'static str> = Vec::new();
        r.push("-ffreestanding");
        r.push("-nostdinc");
        r.push("-fvisibility=hidden");
        r.push("-fpie");
        r.push("-fno-strict-overflow");
        r.push("-fno-delete-null-pointer-checks");
        assert(r@ =~= enclave_cflags_list());
        r
    }

    /// The linker flags of an enclave shared object.
    pub fn enclave_ldflags() -> (r: Vec<&'static str>)
        ensures
            r@ == enclave_ldflags_list(),
    {
        let mut r: Vec<&'static str> = Vec::new();
        r.push("-Wl,-z,relro,-z,now,-z,noexecstack");
        r.push("-Wl,-Bstatic");
        r.push("-Wl,-Bsymbolic");
        r.push("-Wl,--no-undefined");
        r.push("-Wl,-pie");
        r.push("-Wl,--export-dynamic");
        r.push("-Wl,--gc-sections");
        assert(r@ =~= enclave_ldflags_list());
        r
    }
}

/// `c` in upper case when it is an ASCII lower-case letter
/// (`char::to_ascii_uppercase`).
pub open spec fn ascii_upper(c: char) -> char {
    if 'a' <= c <= 'z' {
        ((c as u32) - 32) as char
    } else {
        c
    }
}

/// `c` in upper case when it is an ASCII lower-case letter.
pub fn to_ascii_upper(c: char) -> (r: char)
    ensures
        r == ascii_upper(c),
{
    if 'a' <= c && c <= 'z' {
        let x: u8 = c as u8;
        (x - 32) as char
    } else {
        c
    }
}

/// snake_case to CamelCase: each `_` is dropped, and the character that
/// starts the text or follows a `_` is put in ASCII upper case. `upper_next`
/// says whether the first character of `s` starts a word.
pub open spec fn snake_to_camel_from(s: Seq<char>, upper_next: bool) -> Seq<char>
    decreases s.len(),
{
    if s.len() == 0 {
        Seq::empty()
    } else if s[0] == '_' {
        snake_to_camel_from(s.drop_first(), true)
    } else if upper_next {
        seq![ascii_upper(s[0])] + snake_to_camel_from(s.drop_first(), false)
    } else {
        seq![s[0]] + snake_to_camel_from(s.drop_first(), false)
    }
}

/// snake_case to CamelCase, e.g. `my_enclave` to `MyEnclave`.
pub open spec fn spec_snake_to_camel(s: Seq<char>) -> Seq<char> {
    snake_to_camel_from(s, true)
}

/// snake_case to CamelCase, e.g. `my_enclave` to `MyEnclave`.
pub fn snake_to_camel(snake: &str) -> (camel: String)
    ensures
        camel@ == spec_snake_to_camel(snake@),
{
    let s = chars_of(snake);
    let mut camel = String::new();
    let mut upper_next = true;
    let mut i: usize = 0;
    assert(s@.subrange(0, s@.len() as int) =~= snake@);
    assert(camel@ + spec_snake_to_camel(snake@) =~= spec_snake_to_camel(snake@));
    while i < s.len()
        invariant
            s@ == snake@,
            i <= s@.len(),
            camel@ + snake_to_camel_from(s@.subrange(i as int, s@.len() as int), upper_next)
                == spec_snake_to_camel(snake@),
        decreases s@.len() - i,
    {
        let ghost rest = s@.subrange(i as int, s@.len() as int);
        let ghost old_camel = camel@;
        assert(rest.drop_first() =~= s@.subrange(i + 1, s@.len() as int));
        let c = s[i];
        if c == '_' {
            upper_next = true;
        } else {
            if upper_next {
                push_char(&mut camel, to_ascii_upper(c));
                upper_next = false;
            } else {
                push_char(&mut camel, c);
            }
            assert(camel@ + snake_to_camel_from(rest.drop_first(), false) =~= old_camel + (
            seq![camel@.last()] + snake_to_camel_from(rest.drop_first(), false)));
        }
        i += 1;
    }
    assert(camel@ + Seq::<char>::empty() =~= camel@);
    camel
}


proof fn lemma_snake_to_camel_stable(s: Seq<char>, up: bool, up2: bool)
    requires
        up2 ==> up,
    ensures
        snake_to_camel_from(snake_to_camel_from(s, up), up2) == snake_to_camel_from(s, up),
    decreases s.len(),
{
    if s.len() == 0 {
        return;
    }
    let rest = s.drop_first();
    if s[0] == '_' {
        lemma_snake_to_camel_stable(rest, true, up2);
    } else {
        lemma_snake_to_camel_stable(rest, false, false);
        let c = if up {
            ascii_upper(s[0])
        } else {
            s[0]
        };
        let x = snake_to_camel_from(rest, false);
        let t = seq![c] + x;
        assert(snake_to_camel_from(s, up) == t);
        assert(c != '_');
        assert(ascii_upper(ascii_upper(s[0])) == ascii_upper(s[0]));
        assert(t[0] == c);
        assert(t.drop_first() =~= x);
    }
}

/// Converting to CamelCase twice gives what converting once gives: the
/// result holds no underscores, and its first character is already in
/// upper case where the conversion can make it so.
pub proof fn lemma_snake_to_camel_idempotent(s: Seq<char>)
    ensures
        spec_snake_to_camel(spec_snake_to_camel(s)) == spec_snake_to_camel(s),
{
    lemma_snake_to_camel_stable(s, true, true);
}

} // verus!
