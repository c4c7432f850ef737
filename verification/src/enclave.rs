//! The host side of an enclave: its file name, derived from the CamelCase
//! name that the application gives it, the lazy creation of the enclave on
//! first use, and the errors of creation and of calls into it.
use vstd::prelude::*;
use crate::cutils::{ascii_upper, snake_to_camel_from, spec_snake_to_camel};
use crate::env::env_or;
use crate::path::{join, opt_view, parent_of, path_join, path_parent};
use crate::text::{chars_of, owned, push_char};

verus! {

/// The status that the SGX runtime reports for success (`SgxStatus::Success`).
pub const SGX_SUCCESS: u32 = 0;

/// Whether a character has the Unicode `Uppercase` property, as
/// `char::is_uppercase` reports it.
pub uninterp spec fn unicode_is_uppercase(c: char) -> bool;

/// The lower-case mapping of a character, as `char::to_lowercase` yields it.
pub uninterp spec fn unicode_to_lowercase(c: char) -> Seq<char>;

/// `char::is_uppercase`. Its result is named `unicode_is_uppercase`; the
/// contract also states what the Unicode data gives for ASCII: exactly
/// `A` to `Z` are upper case there. Other characters are left to the name.
#[verifier::external_body]
fn is_uppercase(c: char) -> (r: bool)
    ensures
        r == unicode_is_uppercase(c),
        (c as u32) < 128 ==> r == ('A' <= c <= 'Z'),
{
    c.is_uppercase()
}

/// `char::to_lowercase`, collected. Its result is named
/// `unicode_to_lowercase`; the contract also states what the Unicode data
/// gives for ASCII: `A` to `Z` map to `a` to `z`, every other ASCII
/// character to itself. Other characters are left to the name.
#[verifier::external_body]
fn to_lowercase(c: char) -> (r: Vec<char>)
    ensures
        r@ == unicode_to_lowercase(c),
        (c as u32) < 128 ==> r@ == ascii_lower_seq(c),
{
    c.to_lowercase().collect()
}

/// The lower-case form of an ASCII character.
pub open spec fn ascii_lower_seq(c: char) -> Seq<char> {
    if 'A' <= c <= 'Z' {
        seq![((c as u32) + 32) as char]
    } else {
        seq![c]
    }
}

/// Whether `char::is_uppercase` holds of `c`.
pub open spec fn char_is_upper(c: char) -> bool {
    if (c as u32) < 128 {
        'A' <= c <= 'Z'
    } else {
        unicode_is_uppercase(c)
    }
}

/// What `char::to_lowercase` yields for `c`.
pub open spec fn char_lower(c: char) -> Seq<char> {
    if (c as u32) < 128 {
        ascii_lower_seq(c)
    } else {
        unicode_to_lowercase(c)
    }
}

/// CamelCase to snake_case: an upper-case character is replaced by its
/// lower-case form, after a `_` unless it starts the text; `first` says
/// whether `s` starts the text.
pub open spec fn camel_to_snake_from(s: Seq<char>, first: bool) -> Seq<char>
    decreases s.len(),
{
    if s.len() == 0 {
        Seq::empty()
    } else if char_is_upper(s[0]) {
        (if first {
            Seq::empty()
        } else {
            seq!['_']
        }) + char_lower(s[0]) + camel_to_snake_from(s.drop_first(), false)
    } else {
        seq![s[0]] + camel_to_snake_from(s.drop_first(), false)
    }
}

/// CamelCase to snake_case, e.g. `MyEnclave` to `my_enclave`.
pub open spec fn spec_camel_to_snake(s: Seq<char>) -> Seq<char> {
    camel_to_snake_from(s, true)
}

/// An error of the host side of an enclave: the SGX status at its origin,
/// under the frames that say what was being done.
#[derive(Debug)]
pub enum AppError {
    Sgx(u32),
    CreateEnclave { path: String, source: Box<AppError> },
    OnEcall { name: String, source: Box<AppError> },
}

/// The value of an `AppError`, with its texts as character sequences.
pub enum AppErrorView {
    Sgx(u32),
    CreateEnclave(Seq<char>, Box<AppErrorView>),
    OnEcall(Seq<char>, Box<AppErrorView>),
}

impl View for AppError {
    type V = AppErrorView;

    open spec fn view(&self) -> AppErrorView
        decreases self,
    {
        match self {
            AppError::Sgx(s) => AppErrorView::Sgx(*s),
            AppError::CreateEnclave { path, source } => AppErrorView::CreateEnclave(
                path@,
                Box::new((**source).view()),
            ),
            AppError::OnEcall { name, source } => AppErrorView::OnEcall(
                name@,
                Box::new((**source).view()),
            ),
        }
    }
}

impl AppError {
    /// A copy of this error.
    pub fn duplicate(&self) -> (r: AppError)
        ensures
            r@ == self@,
        decreases self,
    {
        match self {
            AppError::Sgx(s) => AppError::Sgx(*s),
            AppError::CreateEnclave { path, source } => {
                let inner = (**source).duplicate();
                AppError::CreateEnclave { path: path.clone(), source: Box::new(inner) }
            },
            AppError::OnEcall { name, source } => {
                let inner = (**source).duplicate();
                AppError::OnEcall { name: name.clone(), source: Box::new(inner) }
            },
        }
    }

    /// `err` under a frame that names the enclave call `name`.
    pub fn on_ecall(name: &str, err: AppError) -> (r: AppError)
        ensures
            r@ == AppErrorView::OnEcall(name@, Box::new(err@)),
    {
        AppError::OnEcall { name: owned(name), source: Box::new(err) }
    }
}

/// The value of the result of asking for an enclave's id.
pub open spec fn eid_result_view(r: Result<u64, AppError>) -> Result<u64, AppErrorView> {
    match r {
        Ok(e) => Ok(e),
        Err(err) => Err(err@),
    }
}

/// The outcome of a call into an enclave: the value it returned when the
/// status it reported is success, else the status under a frame that names
/// the call.
pub fn ecall_outcome<T>(name: &str, status: u32, ret: T) -> (r: Result<T, AppError>)
    ensures
        status == SGX_SUCCESS ==> r == Ok::<T, AppError>(ret),
        status != SGX_SUCCESS ==> (r matches Err(e) && e@ == AppErrorView::OnEcall(
            name@,
            Box::new(AppErrorView::Sgx(status)),
        )),
{
    if status == SGX_SUCCESS {
        Ok(ret)
    } else {
        Err(AppError::on_ecall(name, AppError::Sgx(status)))
    }
}

/// The enclave of a host application, loaded on first use.
pub struct SgxEnclave {
    /// Whether the enclave is created in debug mode.
    pub debug: bool,
    /// The file name of the signed enclave.
    pub name: String,
}

/// What the host holds of an enclave: nothing yet, its id, or the error
/// that its creation gave.
pub enum EnclaveSlot {
    Empty,
    Ready(u64),
    Failed(AppError),
}

/// The value of an `EnclaveSlot`.
pub enum EnclaveSlotView {
    Empty,
    Ready(u64),
    Failed(AppErrorView),
}

impl View for EnclaveSlot {
    type V = EnclaveSlotView;

    open spec fn view(&self) -> EnclaveSlotView {
        match self {
            EnclaveSlot::Empty => EnclaveSlotView::Empty,
            EnclaveSlot::Ready(e) => EnclaveSlotView::Ready(*e),
            EnclaveSlot::Failed(err) => EnclaveSlotView::Failed(err@),
        }
    }
}

/// What to do to answer a request for the enclave's id: create the enclave
/// from `path`, or answer with what is held.
pub enum EidStep {
    Create { path: String, debug: bool },
    Done(Result<u64, AppError>),
}

/// The answer that a slot holds, or `None` when the enclave must be created.
pub open spec fn slot_answer(slot: EnclaveSlotView) -> Option<Result<u64, AppErrorView>> {
    match slot {
        EnclaveSlotView::Empty => None,
        EnclaveSlotView::Ready(e) => Some(Ok(e)),
        EnclaveSlotView::Failed(err) => Some(Err(err)),
    }
}

/// What a slot holds once the creation of the enclave at `path` gave
/// `created` (the id, or the SGX status of the failure).
pub open spec fn slot_after_creation(path: Seq<char>, created: Result<u64, u32>) -> EnclaveSlotView {
    match created {
        Ok(e) => EnclaveSlotView::Ready(e),
        Err(status) => EnclaveSlotView::Failed(
            AppErrorView::CreateEnclave(path, Box::new(AppErrorView::Sgx(status))),
        ),
    }
}

impl SgxEnclave {
    /// An enclave stored in the file `name`; it is created in debug mode when
    /// `SGX_DEBUG` (given as `sgx_debug`) is set and not empty.
    pub fn new(name: &str, sgx_debug: &Option<String>) -> (r: SgxEnclave)
        ensures
            r.name@ == name@,
            r.debug == (env_or(*sgx_debug, Seq::empty()).len() != 0),
    {
        let debug = match sgx_debug {
            Some(v) => !v.as_str().is_empty(),
            None => false,
        };
        SgxEnclave { debug, name: owned(name) }
    }

    /// CamelCase to snake_case, e.g. `MyEnclave` to `my_enclave`.
    pub fn camel_to_snake(s: &str) -> (snake_case: String)
        ensures
            snake_case@ == spec_camel_to_snake(s@),
    {
        let v = chars_of(s);
        let mut snake_case = String::new();
        let mut i: usize = 0;
        assert(v@.subrange(0, v@.len() as int) =~= s@);
        assert(snake_case@ + spec_camel_to_snake(s@) =~= spec_camel_to_snake(s@));
        while i < v.len()
            invariant
                v@ == s@,
                i <= v@.len(),
                snake_case@ + camel_to_snake_from(v@.subrange(i as int, v@.len() as int), i == 0)
                    == spec_camel_to_snake(s@),
            decreases v@.len() - i,
        {
            let ghost rest = v@.subrange(i as int, v@.len() as int);
            let ghost before = snake_case@;
            assert(rest.drop_first() =~= v@.subrange(i + 1, v@.len() as int));
            let c = v[i];
            if is_uppercase(c) {
                if i != 0 {
                    push_char(&mut snake_case, '_');
                }
                let lower = to_lowercase(c);
                let mut k: usize = 0;
                let ghost mid = snake_case@;
                while k < lower.len()
                    invariant
                        k <= lower@.len(),
                        snake_case@ == mid + lower@.subrange(0, k as int),
                    decreases lower@.len() - k,
                {
                    push_char(&mut snake_case, lower[k]);
                    k += 1;
                    assert(snake_case@ =~= mid + lower@.subrange(0, k as int));
                }
                assert(lower@.subrange(0, lower@.len() as int) =~= lower@);
                assert(lower@ == char_lower(c));
                assert(mid == before + (if i == 0 {
                    Seq::<char>::empty()
                } else {
                    seq!['_']
                }));
                assert(snake_case@ + camel_to_snake_from(rest.drop_first(), false) =~= before + (
                (if i == 0 {
                    Seq::<char>::empty()
                } else {
                    seq!['_']
                }) + char_lower(c) + camel_to_snake_from(rest.drop_first(), false)));
            } else {
                push_char(&mut snake_case, c);
                assert(snake_case@ + camel_to_snake_from(rest.drop_first(), false) =~= before + (
                seq![c] + camel_to_snake_from(rest.drop_first(), false)));
            }
            i += 1;
        }
        assert(snake_case@ + Seq::<char>::empty() =~= snake_case@);
        snake_case
    }

    /// Where the enclave is loaded from: its file name, next to the program
    /// (`program` is the program's own path). `None` when that path has no
    /// parent directory.
    pub fn enclave_path(&self, program: &str) -> (r: Option<String>)
        ensures
            match path_parent(program@) {
                None => r is None,
                Some(dir) => r matches Some(p) && p@ == path_join(dir, self.name@),
            },
    {
        match parent_of(program) {
            None => None,
            Some(dir) => Some(join(dir.as_str(), self.name.as_str())),
        }
    }

    /// How to answer a request for the enclave's id, given what is held:
    /// the held id or error, or, when nothing is held, the creation of the
    /// enclave next to the program, whose path must then have a parent.
    pub fn eid(&self, slot: &EnclaveSlot, program: &str) -> (r: EidStep)
        requires
            slot_answer(slot@) is None ==> path_parent(program@) is Some,
        ensures
            match slot_answer(slot@) {
                Some(answer) => r matches EidStep::Done(res) && eid_result_view(res) == answer,
                None => r matches EidStep::Create { path, debug } && path@ == path_join(
                    path_parent(program@)->0,
                    self.name@,
                ) && debug == self.debug,
            },
    {
        match slot {
            EnclaveSlot::Ready(e) => EidStep::Done(Ok(*e)),
            EnclaveSlot::Failed(err) => EidStep::Done(Err(err.duplicate())),
            EnclaveSlot::Empty => {
                let path = match self.enclave_path(program) {
                    Some(p) => p,
                    None => String::new(),
                };
                EidStep::Create { path, debug: self.debug }
            },
        }
    }

    /// How to answer a request for the enclave's id (see `eid`); `None`
    /// when the enclave must be created and the program's path has no
    /// parent directory.
    pub fn try_eid(&self, slot: &EnclaveSlot, program: &str) -> (r: Option<EidStep>)
        ensures
            match slot_answer(slot@) {
                Some(answer) => r matches Some(EidStep::Done(res)) && eid_result_view(res)
                    == answer,
                None => match path_parent(program@) {
                    None => r is None,
                    Some(dir) => r matches Some(EidStep::Create { path, debug }) && path@
                        == path_join(dir, self.name@) && debug == self.debug,
                },
            },
    {
        match slot {
            EnclaveSlot::Empty => match parent_of(program) {
                None => None,
                Some(_) => Some(self.eid(slot, program)),
            },
            _ => Some(self.eid(slot, program)),
        }
    }

    /// Records in `slot` what the creation of the enclave at `path` gave, and
    /// returns the answer to the request for its id.
    pub fn record_creation(slot: &mut EnclaveSlot, path: &str, created: Result<u64, u32>) -> (r:
        Result<u64, AppError>)
        ensures
            final(slot)@ == slot_after_creation(path@, created),
            slot_answer(final(slot)@) == Some(eid_result_view(r)),
    {
        match created {
            Ok(e) => {
                *slot = EnclaveSlot::Ready(e);
                assert(slot@ == EnclaveSlotView::Ready(e));
                Ok(e)
            },
            Err(status) => {
                let inner = AppError::Sgx(status);
                assert(inner@ == AppErrorView::Sgx(status));
                let err = AppError::CreateEnclave { path: owned(path), source: Box::new(inner) };
                let answer = err.duplicate();
                assert(err@ == AppErrorView::CreateEnclave(
                    path@,
                    Box::new(AppErrorView::Sgx(status)),
                ));
                *slot = EnclaveSlot::Failed(err);
                Err(answer)
            },
        }
    }
}

/// Once the creation of an enclave has been recorded, every later request
/// for its id is answered from what was recorded, without creating it
/// again: the id on success, else the SGX status under a `CreateEnclave`
/// frame that names the path.
pub proof fn lemma_eid_answered_from_record(path: Seq<char>, created: Result<u64, u32>)
    ensures
        slot_answer(slot_after_creation(path, created)) == Some(
            match created {
                Ok(e) => Ok::<u64, AppErrorView>(e),
                Err(status) => Err(
                    AppErrorView::CreateEnclave(path, Box::new(AppErrorView::Sgx(status))),
                ),
            },
        ),
{
}


/// An ASCII lower-case letter or digit.
pub open spec fn is_lower_alnum(c: char) -> bool {
    ('a' <= c <= 'z') || ('0' <= c <= '9')
}

/// An ASCII letter or digit.
pub open spec fn is_ascii_alnum(c: char) -> bool {
    ('a' <= c <= 'z') || ('A' <= c <= 'Z') || ('0' <= c <= '9')
}

/// Lower-case letters, digits, and underscores that each come right
/// before a lower-case letter.
pub open spec fn is_snake_tail(s: Seq<char>) -> bool {
    forall|i: int|
        0 <= i < s.len() ==> is_lower_alnum(#[trigger] s[i]) || (s[i] == '_' && i + 1 < s.len()
            && 'a' <= s[i + 1] <= 'z')
}

/// A snake_case enclave name: it starts with a lower-case letter, holds
/// lower-case letters, digits and underscores, and each underscore comes
/// right before a lower-case letter (so none is doubled or trailing).
pub open spec fn is_snake_name(s: Seq<char>) -> bool {
    s.len() > 0 && 'a' <= s[0] <= 'z' && is_snake_tail(s)
}

/// A CamelCase enclave name: it starts with an upper-case letter and
/// holds only ASCII letters and digits.
pub open spec fn is_camel_name(t: Seq<char>) -> bool {
    t.len() > 0 && 'A' <= t[0] <= 'Z' && forall|i: int| 0 <= i < t.len() ==> is_ascii_alnum(#[trigger] t[i])
}

proof fn lemma_case_of_ascii(c: char)
    ensures
        'a' <= c <= 'z' ==> char_is_upper(ascii_upper(c)) && char_lower(ascii_upper(c)) == seq![c],
        'A' <= c <= 'Z' ==> char_lower(c).len() == 1 && 'a' <= char_lower(c)[0] <= 'z' && ascii_upper(char_lower(c)[0]) == c,
        ('0' <= c <= '9') ==> !char_is_upper(c) && ascii_upper(c) == c,
        ('a' <= c <= 'z') ==> !char_is_upper(c),
{
}

proof fn lemma_snake_tail_roundtrip(s: Seq<char>)
    requires
        is_snake_tail(s),
    ensures
        camel_to_snake_from(snake_to_camel_from(s, false), false) == s,
    decreases s.len(),
{
    if s.len() == 0 {
        return;
    }
    let rest = s.drop_first();
    assert(is_snake_tail(rest)) by {
        assert forall|i: int| 0 <= i < rest.len() implies is_lower_alnum(#[trigger] rest[i]) || (
        rest[i] == '_' && i + 1 < rest.len() && 'a' <= rest[i + 1] <= 'z') by {
            assert(rest[i] == s[i + 1]);
            assert(is_lower_alnum(s[i + 1]) || (s[i + 1] == '_' && i + 2 < s.len() && 'a' <= s[i
                + 2] <= 'z'));
        }
    }
    if s[0] == '_' {
        assert(is_lower_alnum(s[0]) || (s[0] == '_' && 1 < s.len() && 'a' <= s[1] <= 'z'));
        let c = s[1];
        let rest2 = rest.drop_first();
        assert(rest[0] == c);
        assert(is_snake_tail(rest2)) by {
            assert forall|i: int| 0 <= i < rest2.len() implies is_lower_alnum(#[trigger] rest2[i])
                || (rest2[i] == '_' && i + 1 < rest2.len() && 'a' <= rest2[i + 1] <= 'z') by {
                assert(rest2[i] == s[i + 2]);
                assert(is_lower_alnum(s[i + 2]) || (s[i + 2] == '_' && i + 3 < s.len() && 'a'
                    <= s[i + 3] <= 'z'));
            }
        }
        lemma_snake_tail_roundtrip(rest2);
        lemma_case_of_ascii(c);
        let u = ascii_upper(c);
        let x = snake_to_camel_from(rest2, false);
        assert(snake_to_camel_from(s, false) == snake_to_camel_from(rest, true));
        assert(snake_to_camel_from(rest, true) == seq![u] + x);
        let t = seq![u] + x;
        assert(t[0] == u);
        assert(t.drop_first() =~= x);
        assert(camel_to_snake_from(t, false) == seq!['_'] + char_lower(u) + camel_to_snake_from(
            x,
            false,
        ));
        assert(s =~= seq!['_'] + seq![c] + rest2);
    } else {
        let c = s[0];
        assert(is_lower_alnum(s[0]) || (s[0] == '_' && 1 < s.len() && 'a' <= s[1] <= 'z'));
        lemma_snake_tail_roundtrip(rest);
        lemma_case_of_ascii(c);
        let x = snake_to_camel_from(rest, false);
        let t = seq![c] + x;
        assert(snake_to_camel_from(s, false) == t);
        assert(t[0] == c);
        assert(t.drop_first() =~= x);
        assert(camel_to_snake_from(t, false) == seq![c] + camel_to_snake_from(x, false));
        assert(s =~= seq![c] + rest);
    }
}

/// Converting a snake_case enclave name to CamelCase and back gives the
/// name again: `my_enclave` names the enclave `MyEnclave`, whose file is
/// found under `my_enclave` again.
pub proof fn lemma_snake_name_roundtrip(s: Seq<char>)
    requires
        is_snake_name(s),
    ensures
        spec_camel_to_snake(spec_snake_to_camel(s)) == s,
{
    let c = s[0];
    let rest = s.drop_first();
    assert(is_snake_tail(rest)) by {
        assert forall|i: int| 0 <= i < rest.len() implies is_lower_alnum(#[trigger] rest[i]) || (
        rest[i] == '_' && i + 1 < rest.len() && 'a' <= rest[i + 1] <= 'z') by {
            assert(rest[i] == s[i + 1]);
            assert(is_lower_alnum(s[i + 1]) || (s[i + 1] == '_' && i + 2 < s.len() && 'a' <= s[i
                + 2] <= 'z'));
        }
    }
    lemma_snake_tail_roundtrip(rest);
    lemma_case_of_ascii(c);
    let u = ascii_upper(c);
    let x = snake_to_camel_from(rest, false);
    let t = seq![u] + x;
    assert(spec_snake_to_camel(s) == t);
    assert(t[0] == u);
    assert(t.drop_first() =~= x);
    assert(camel_to_snake_from(t, true) == Seq::<char>::empty() + char_lower(u)
        + camel_to_snake_from(x, false));
    assert(s =~= Seq::<char>::empty() + seq![c] + rest);
}

proof fn lemma_camel_tail_roundtrip(t: Seq<char>)
    requires
        forall|i: int| 0 <= i < t.len() ==> is_ascii_alnum(#[trigger] t[i]),
    ensures
        snake_to_camel_from(camel_to_snake_from(t, false), false) == t,
    decreases t.len(),
{
    if t.len() == 0 {
        return;
    }
    let c = t[0];
    let rest = t.drop_first();
    assert(forall|i: int| 0 <= i < rest.len() ==> is_ascii_alnum(#[trigger] rest[i])) by {
        assert forall|i: int| 0 <= i < rest.len() implies is_ascii_alnum(#[trigger] rest[i]) by {
            assert(rest[i] == t[i + 1]);
            assert(is_ascii_alnum(t[i + 1]));
        }
    }
    lemma_camel_tail_roundtrip(rest);
    lemma_case_of_ascii(c);
    assert(is_ascii_alnum(t[0]));
    let x = camel_to_snake_from(rest, false);
    if 'A' <= c <= 'Z' {
        let l = char_lower(c)[0];
        assert(char_lower(c) =~= seq![l]);
        let w = seq!['_'] + seq![l] + x;
        assert(camel_to_snake_from(t, false) == w);
        assert(w[0] == '_');
        let w1 = w.drop_first();
        assert(w1 =~= seq![l] + x);
        assert(w1[0] == l);
        assert(w1.drop_first() =~= x);
        assert(snake_to_camel_from(w, false) == snake_to_camel_from(w1, true));
        assert(snake_to_camel_from(w1, true) == seq![ascii_upper(l)] + snake_to_camel_from(
            x,
            false,
        ));
        assert(t =~= seq![c] + rest);
    } else {
        let w = seq![c] + x;
        assert(camel_to_snake_from(t, false) == w);
        assert(w[0] == c);
        assert(w.drop_first() =~= x);
        assert(snake_to_camel_from(w, false) == seq![c] + snake_to_camel_from(x, false));
        assert(t =~= seq![c] + rest);
    }
}

/// Converting a CamelCase enclave name to snake_case and back gives the
/// name again: `MyEnclave` is stored as `my_enclave`, which names
/// `MyEnclave` again.
pub proof fn lemma_camel_name_roundtrip(t: Seq<char>)
    requires
        is_camel_name(t),
    ensures
        spec_snake_to_camel(spec_camel_to_snake(t)) == t,
{
    let c = t[0];
    let rest = t.drop_first();
    assert(forall|i: int| 0 <= i < rest.len() ==> is_ascii_alnum(#[trigger] rest[i])) by {
        assert forall|i: int| 0 <= i < rest.len() implies is_ascii_alnum(#[trigger] rest[i]) by {
            assert(rest[i] == t[i + 1]);
            assert(is_ascii_alnum(t[i + 1]));
        }
    }
    lemma_camel_tail_roundtrip(rest);
    lemma_case_of_ascii(c);
    let l = char_lower(c)[0];
    assert(char_lower(c) =~= seq![l]);
    let x = camel_to_snake_from(rest, false);
    let w = Seq::<char>::empty() + seq![l] + x;
    assert(spec_camel_to_snake(t) == w);
    assert(w =~= seq![l] + x);
    assert(w[0] == l);
    assert(w.drop_first() =~= x);
    assert(snake_to_camel_from(w, true) == seq![ascii_upper(l)] + snake_to_camel_from(x, false));
    assert(t =~= seq![c] + rest);
}

} // verus!
