//! The steps that turn an enclave into a signed shared object: the settings
//! and command lines of the C compiler and linker, the EDL bridge generator,
//! the linker script, the enclave configuration, and the signer. Each step
//! is computed here; running the tools is left to the caller.
use vstd::prelude::*;
use crate::cutils::{cflags_list, enclave_cflags_list, enclave_ldflags_list, Cutils};
use crate::env::Env;
use crate::path::{
    file_name_of, file_stem_of, join, lemma_join_empty_base, opt_view, parent_of, path_file_name,
    path_file_stem, path_join, path_parent,
};
use crate::text::{
    chars_of, concat_str, ends_with, starts_with, owned, push_arg, push_args, string_of_range, strings_view, strs_view,
    trim_end_len, trim_end_matches, trim_start_matches, trim_start_pos,
};

verus! {

/// Where the build runs: from a cargo build script, or from a shell.
#[derive(Debug, Clone, Copy, PartialEq, Eq, Structural)]
pub enum BuildMode {
    BuildScript,
    Shell,
}

/// The settings of a C build that the build mode fixes (`None`: the
/// compiler crate's own default).
#[derive(Debug, Clone, Copy)]
pub struct BuildSettings {
    pub target: Option<&'static str>,
    pub host: Option<&'static str>,
    pub opt_level: Option<u32>,
    pub shared_flag: Option<bool>,
    pub cargo_metadata: Option<bool>,
}

/// The settings that a build started from a shell uses: a fixed target and
/// host, optimisation level 2, no shared flag and no cargo metadata.
pub open spec fn shell_settings() -> BuildSettings {
    BuildSettings {
        target: Some("test"),
        host: Some("test"),
        opt_level: Some(2),
        shared_flag: Some(false),
        cargo_metadata: Some(false),
    }
}

/// The settings that no build mode has touched.
pub open spec fn default_settings() -> BuildSettings {
    BuildSettings {
        target: None,
        host: None,
        opt_level: None,
        shared_flag: None,
        cargo_metadata: None,
    }
}

/// The settings of a fresh build in `mode`.
pub open spec fn mode_settings(mode: BuildMode) -> BuildSettings {
    match mode {
        BuildMode::BuildScript => default_settings(),
        BuildMode::Shell => shell_settings(),
    }
}

impl BuildSettings {
    /// Settings that no build mode has touched.
    pub fn new() -> (r: BuildSettings)
        ensures
            r == default_settings(),
    {
        BuildSettings {
            target: None,
            host: None,
            opt_level: None,
            shared_flag: None,
            cargo_metadata: None,
        }
    }
}

impl BuildMode {
    /// Applies this mode to the settings of a C build: a build script
    /// leaves them as they are; a shell build fixes them (`shell_settings`).
    pub fn apply_build(&self, b: &mut BuildSettings)
        ensures
            *self == BuildMode::BuildScript ==> *final(b) == *old(b),
            *self == BuildMode::Shell ==> *final(b) == shell_settings(),
    {
        match self {
            BuildMode::BuildScript => {},
            BuildMode::Shell => {
                b.target = Some("test");
                b.host = Some("test");
                b.opt_level = Some(2);
                b.shared_flag = Some(false);
                b.cargo_metadata = Some(false);
            },
        }
    }

    /// The directive that asks cargo to rebuild when `p` changes; only a
    /// build script emits it.
    pub fn trace_file(&self, p: &str) -> (r: Option<String>)
        ensures
            *self == BuildMode::BuildScript ==> (r matches Some(l) && l@
                == "cargo:rerun-if-changed="@ + p@),
            *self == BuildMode::Shell ==> r is None,
    {
        match self {
            BuildMode::BuildScript => Some(concat_str("cargo:rerun-if-changed=", p)),
            BuildMode::Shell => None,
        }
    }

    /// The settings of a fresh build in this mode.
    pub fn fresh_settings(&self) -> (r: BuildSettings)
        ensures
            r == mode_settings(*self),
    {
        let mut b = BuildSettings::new();
        self.apply_build(&mut b);
        b
    }
}

/// A C library compiled from one source file.
pub struct CcCompile {
    pub settings: BuildSettings,
    /// Flags passed when the compiler supports them, in order.
    pub flags: Vec<&'static str>,
    pub includes: Vec<String>,
    /// The directory the library is written to.
    pub out_dir: String,
    pub file: String,
    /// The name the library is compiled under.
    pub lib_name: String,
}

/// A run of the C compiler with extra arguments.
pub struct CcCommand {
    pub settings: BuildSettings,
    /// Flags passed when the compiler supports them, in order.
    pub flags: Vec<&'static str>,
    pub includes: Vec<String>,
    /// The arguments after the compiler's own.
    pub args: Vec<String>,
}

/// A run of a program.
pub struct ProcessCommand {
    pub program: String,
    pub current_dir: Option<String>,
    pub args: Vec<String>,
}

/// The name under which a library file is linked: the file name without
/// its trailing `.o` and `.a` suffixes and its leading `lib` prefixes, so
/// that `libfoo.a` links as `foo`.
pub open spec fn spec_link_name(file_name: Seq<char>) -> Seq<char> {
    trim_start_matches(
        trim_end_matches(trim_end_matches(file_name, seq!['.', 'o']), seq!['.', 'a']),
        seq!['l', 'i', 'b'],
    )
}

/// A directory as it is written on a command line: the empty path is `.`.
pub open spec fn spec_dir_display(dir: Seq<char>) -> Seq<char> {
    if dir.len() == 0 {
        seq!['.']
    } else {
        dir
    }
}

/// The archive `lib<name>.a` and the object `lib<name>.o` link under
/// `<name>`, so that `-L<dir> -l<name>` finds the archive: the file name
/// loses one suffix and one `lib` prefix, when `lib<name>` does not itself
/// end in `.a` or `.o` and `<name>` does not itself start with `lib`.
pub proof fn lemma_link_name_of_library(name: Seq<char>)
    requires
        !ends_with(seq!['l', 'i', 'b'] + name, seq!['.', 'a']),
        !ends_with(seq!['l', 'i', 'b'] + name, seq!['.', 'o']),
        !starts_with(name, seq!['l', 'i', 'b']),
    ensures
        spec_link_name(seq!['l', 'i', 'b'] + name + seq!['.', 'a']) == name,
        spec_link_name(seq!['l', 'i', 'b'] + name + seq!['.', 'o']) == name,
{
    let lib = seq!['l', 'i', 'b'];
    let base = lib + name;
    let fa = base + seq!['.', 'a'];
    let fo = base + seq!['.', 'o'];
    assert(fa.subrange(fa.len() - 2, fa.len() as int) =~= seq!['.', 'a']);
    assert(fa.subrange(0, fa.len() - 2) =~= base);
    assert(!ends_with(fa, seq!['.', 'o'])) by {
        if ends_with(fa, seq!['.', 'o']) {
            assert(fa.subrange(fa.len() - 2, fa.len() as int)[1] == 'o');
        }
    }
    assert(trim_end_matches(fa, seq!['.', 'o']) == fa);
    assert(trim_end_matches(fa, seq!['.', 'a']) == trim_end_matches(base, seq!['.', 'a']));
    assert(trim_end_matches(base, seq!['.', 'a']) == base);
    assert(fo.subrange(fo.len() - 2, fo.len() as int) =~= seq!['.', 'o']);
    assert(fo.subrange(0, fo.len() - 2) =~= base);
    assert(trim_end_matches(fo, seq!['.', 'o']) == trim_end_matches(base, seq!['.', 'o']));
    assert(trim_end_matches(base, seq!['.', 'o']) == base);
    assert(base.subrange(0, 3) =~= lib);
    assert(base.subrange(3, base.len() as int) =~= name);
    assert(trim_start_matches(base, lib) == trim_start_matches(name, lib));
    assert(trim_start_matches(name, lib) == name);
}

/// The name under which the library file `file_name` is linked.
pub fn link_name_of(file_name: &str) -> (r: String)
    ensures
        r@ == spec_link_name(file_name@),
{
    proof {
        reveal_strlit(".o");
        reveal_strlit(".a");
        reveal_strlit("lib");
    }
    let n = chars_of(file_name);
    let dot_o = chars_of(".o");
    let dot_a = chars_of(".a");
    let lib = chars_of("lib");
    assert(dot_o@ =~= seq!['.', 'o']);
    assert(dot_a@ =~= seq!['.', 'a']);
    assert(lib@ =~= seq!['l', 'i', 'b']);
    let e1 = trim_end_len(&n, &dot_o);
    let n1 = string_of_range(&n, 0, e1);
    let v1 = chars_of(n1.as_str());
    let e2 = trim_end_len(&v1, &dot_a);
    let n2 = string_of_range(&v1, 0, e2);
    let v2 = chars_of(n2.as_str());
    let s = trim_start_pos(&v2, &lib);
    string_of_range(&v2, s, v2.len())
}

/// The name under which the library file at `p` is linked; `None` when
/// `p` has no file name.
pub fn link_name(p: &str) -> (r: Option<String>)
    ensures
        match path_file_name(p@) {
            None => r is None,
            Some(n) => r matches Some(l) && l@ == spec_link_name(n),
        },
{
    match file_name_of(p) {
        None => None,
        Some(n) => Some(link_name_of(n.as_str())),
    }
}

/// A directory as it is written on a command line: the empty path is `.`.
pub fn dir_display(dir: &str) -> (r: String)
    ensures
        r@ == spec_dir_display(dir@),
{
    if dir.is_empty() {
        let r = owned(".");
        proof {
            reveal_strlit(".");
        }
        assert(r@ =~= seq!['.']);
        r
    } else {
        owned(dir)
    }
}

/// The directory that holds `p`, as written on a command line; `None` when
/// `p` has no parent.
pub fn parent_path(p: &str) -> (r: Option<String>)
    ensures
        match path_parent(p@) {
            None => r is None,
            Some(d) => r matches Some(s) && s@ == spec_dir_display(d),
        },
{
    match parent_of(p) {
        None => None,
        Some(d) => Some(dir_display(d.as_str())),
    }
}

/// Builds the untrusted half of the EDL bridge into a static library.
pub struct UntrustedProxyBuilder {
    pub mode: BuildMode,
}

/// The include directories of the untrusted bridge.
pub open spec fn untrusted_includes(env: &Env) -> Seq<Seq<char>> {
    seq![
        path_join(env.spec_sdk_path(), "include"@),
        path_join(path_join(env.spec_sdk_root_dir(), "common"@), "inc"@),
        path_join(path_join(env.spec_sdk_root_dir(), "sgx_edl"@), "edl"@),
    ]
}

/// The include directories of the trusted bridge.
pub open spec fn trusted_includes(env: &Env) -> Seq<Seq<char>> {
    seq![
        path_join(path_join(env.spec_sdk_root_dir(), "common"@), "inc"@),
        path_join(path_join(path_join(env.spec_sdk_root_dir(), "common"@), "inc"@), "tlibc"@),
        path_join(path_join(env.spec_sdk_root_dir(), "sgx_edl"@), "edl"@),
    ]
}

impl UntrustedProxyBuilder {
    pub fn new(mode: BuildMode) -> (r: Self)
        ensures
            r.mode == mode,
    {
        Self { mode }
    }

    /// The compilation of the untrusted bridge `source` into the library
    /// whose file is `output`: the common C flags, `-fPIC`,
    /// `-Wno-attributes` and the word-size flag, the SDK include
    /// directories, written next to `output` under its link name. `None`
    /// when `output` has no parent or no file name.
    pub fn compile_plan(&self, env: &Env, source: &str, output: &str) -> (r: Option<CcCompile>)
        ensures
            match (path_parent(output@), path_file_name(output@)) {
                (Some(dir), Some(name)) => r matches Some(c) && c.settings == mode_settings(
                    self.mode,
                ) && c.flags@ == cflags_list() + seq!["-fPIC", "-Wno-attributes", env.spec_word_flag()]
                    && strings_view(c.includes@) == untrusted_includes(env) && c.out_dir@
                    == spec_dir_display(dir) && c.file@ == source@ && c.lib_name@ == spec_link_name(
                    name,
                ),
                _ => r is None,
            },
    {
        let out_dir = match parent_path(output) {
            Some(d) => d,
            None => return None,
        };
        let lib_name = match link_name(output) {
            Some(n) => n,
            None => return None,
        };
        let settings = self.mode.fresh_settings();
        let mut flags = Cutils::cflags();
        flags.push("-fPIC");
        flags.push("-Wno-attributes");
        if env.is_64bits() {
            flags.push("-m64");
        } else {
            flags.push("-m32");
        }
        let mut includes: Vec<String> = Vec::new();
        includes.push(join(env.sdk_path().as_str(), "include"));
        let common = join(env.sdk_root_dir().as_str(), "common");
        includes.push(join(common.as_str(), "inc"));
        let edl = join(env.sdk_root_dir().as_str(), "sgx_edl");
        includes.push(join(edl.as_str(), "edl"));
        assert(strings_view(includes@) =~= untrusted_includes(env));
        assert(flags@ =~= cflags_list() + seq!["-fPIC", "-Wno-attributes", env.spec_word_flag()]);
        Some(CcCompile { settings, flags, includes, out_dir, file: owned(source), lib_name })
    }
}

/// Builds the trusted half of the EDL bridge into an object file.
pub struct TrustedProxyBuilder {
    pub mode: BuildMode,
}

impl TrustedProxyBuilder {
    pub fn new(mode: BuildMode) -> (r: Self)
        ensures
            r.mode == mode,
    {
        Self { mode }
    }

    /// The compilation of the trusted bridge `source` into the object
    /// `output`: the common and the enclave C flags and the word-size flag,
    /// the SDK include directories, and `-c source -o output`.
    pub fn compile_command(&self, env: &Env, source: &str, output: &str) -> (r: CcCommand)
        ensures
            r.settings == mode_settings(self.mode),
            r.flags@ == cflags_list() + enclave_cflags_list() + seq![env.spec_word_flag()],
            strings_view(r.includes@) == trusted_includes(env),
            strings_view(r.args@) == seq!["-c"@, source@, "-o"@, output@],
    {
        let settings = self.mode.fresh_settings();
        let mut flags = Cutils::cflags();
        let mut enclave = Cutils::enclave_cflags();
        flags.append(&mut enclave);
        if env.is_64bits() {
            flags.push("-m64");
        } else {
            flags.push("-m32");
        }
        let mut includes: Vec<String> = Vec::new();
        let common = join(env.sdk_root_dir().as_str(), "common");
        let inc = join(common.as_str(), "inc");
        includes.push(inc.clone());
        includes.push(join(inc.as_str(), "tlibc"));
        let edl = join(env.sdk_root_dir().as_str(), "sgx_edl");
        includes.push(join(edl.as_str(), "edl"));
        let mut args: Vec<String> = Vec::new();
        push_arg(&mut args, "-c");
        push_arg(&mut args, source);
        push_arg(&mut args, "-o");
        push_arg(&mut args, output);
        assert(strings_view(includes@) =~= trusted_includes(env));
        assert(strings_view(args@) =~= seq!["-c"@, source@, "-o"@, output@]);
        assert(flags@ =~= cflags_list() + enclave_cflags_list() + seq![env.spec_word_flag()]);
        CcCommand { settings, flags, includes, args }
    }
}

/// Links the trusted bridge and the enclave archive into the enclave's
/// shared object.
pub struct EnclaveSharedObjectBuilder {
    pub mode: BuildMode,
}

/// The linker arguments of an enclave shared object.
pub open spec fn enclave_link_args(
    trusted_proxy: Seq<char>,
    output: Seq<char>,
    lds: Seq<char>,
    archive_dir: Seq<char>,
    archive_name: Seq<char>,
) -> Seq<Seq<char>> {
    seq![trusted_proxy, "-o"@, output] + strs_view(enclave_ldflags_list()) + seq![
        "-Wl,--no-undefined"@,
        "-nostdlib"@,
        "-nodefaultlibs"@,
        "-nostartfiles"@,
        "-Wl,--version-script="@ + lds,
        "-Wl,--start-group"@,
        "-L"@ + archive_dir,
        "-l"@ + archive_name,
        "-Wl,--end-group"@,
    ]
}

impl EnclaveSharedObjectBuilder {
    pub fn new(mode: BuildMode) -> (r: Self)
        ensures
            r.mode == mode,
    {
        Self { mode }
    }

    /// The link of `trusted_proxy` and the archive `enclave_object` into
    /// `output`, with the linker script `lds`: the archive is found in its
    /// directory under its link name. `None` when `enclave_object` has no
    /// parent or no file name.
    pub fn link_command(
        &self,
        trusted_proxy: &str,
        enclave_object: &str,
        lds: &str,
        output: &str,
    ) -> (r: Option<CcCommand>)
        ensures
            match (path_parent(enclave_object@), path_file_name(enclave_object@)) {
                (Some(dir), Some(name)) => r matches Some(c) && c.settings == mode_settings(
                    self.mode,
                ) && c.flags@.len() == 0 && c.includes@.len() == 0 && strings_view(c.args@)
                    == enclave_link_args(
                    trusted_proxy@,
                    output@,
                    lds@,
                    spec_dir_display(dir),
                    spec_link_name(name),
                ),
                _ => r is None,
            },
    {
        let archive_dir = match parent_path(enclave_object) {
            Some(d) => d,
            None => return None,
        };
        let archive_name = match link_name(enclave_object) {
            Some(n) => n,
            None => return None,
        };
        let settings = self.mode.fresh_settings();
        let mut args: Vec<String> = Vec::new();
        push_arg(&mut args, trusted_proxy);
        push_arg(&mut args, "-o");
        push_arg(&mut args, output);
        push_args(&mut args, &Cutils::enclave_ldflags());
        push_arg(&mut args, "-Wl,--no-undefined");
        push_arg(&mut args, "-nostdlib");
        push_arg(&mut args, "-nodefaultlibs");
        push_arg(&mut args, "-nostartfiles");
        push_arg(&mut args, concat_str("-Wl,--version-script=", lds).as_str());
        push_arg(&mut args, "-Wl,--start-group");
        push_arg(&mut args, concat_str("-L", archive_dir.as_str()).as_str());
        push_arg(&mut args, concat_str("-l", archive_name.as_str()).as_str());
        push_arg(&mut args, "-Wl,--end-group");
        assert(strings_view(args@) =~= enclave_link_args(
            trusted_proxy@,
            output@,
            lds@,
            archive_dir@,
            archive_name@,
        ));
        Some(CcCommand { settings, flags: Vec::new(), includes: Vec::new(), args })
    }
}


/// Runs the SGX SDK's `sgx_edger8r`, which generates the C bridge of an
/// enclave's EDL file.
pub struct Edger8r {
    pub mode: BuildMode,
    /// The generator program.
    pub path: String,
    /// The directories searched for imported EDL files, in order.
    pub search_path: Vec<String>,
}

/// The `--search-path` arguments for each directory of `dirs`, in order.
pub open spec fn search_path_args(dirs: Seq<Seq<char>>) -> Seq<Seq<char>>
    decreases dirs.len(),
{
    if dirs.len() == 0 {
        Seq::empty()
    } else {
        search_path_args(dirs.drop_last()) + seq!["--search-path"@, dirs.last()]
    }
}

/// The arguments of the generator for the EDL file `edl`, generating the
/// trusted or the untrusted bridge into `dir`.
pub open spec fn edger8r_args(edl: Seq<char>, trusted: bool, dir: Seq<char>, search_path: Seq<
    Seq<char>,
>) -> Seq<Seq<char>> {
    (if trusted {
        seq!["--trusted"@, edl, "--trusted-dir"@, dir]
    } else {
        seq!["--untrusted"@, edl, "--untrusted-dir"@, dir]
    }) + search_path_args(search_path)
}

/// The C file that the generator writes for `edl` into `dir`: the EDL
/// file's stem followed by `_t.c` (trusted) or `_u.c` (untrusted).
pub open spec fn edger8r_output(edl: Seq<char>, trusted: bool, dir: Seq<char>) -> Option<Seq<char>> {
    match path_file_stem(edl) {
        None => None,
        Some(stem) => Some(
            path_join(
                dir,
                stem + if trusted {
                    "_t.c"@
                } else {
                    "_u.c"@
                },
            ),
        ),
    }
}

impl Edger8r {
    /// The generator of the SDK, searching the Teaclave EDL files, this
    /// builder's EDL files, and the Teaclave common headers.
    pub fn new(mode: BuildMode, env: &Env) -> (r: Self)
        ensures
            r.mode == mode,
            r.path@ == path_join(env.spec_sgx_bin_path(), "sgx_edger8r"@),
            strings_view(r.search_path@) == seq![
                env.spec_custom_edl_path(),
                path_join(env.spec_sgx_builder_path(), "edl"@),
                path_join(env.spec_custom_common_path(), "inc"@),
            ],
    {
        let bin = join(env.sgx_bin_path().as_str(), "sgx_edger8r");
        let mut search_path: Vec<String> = Vec::new();
        search_path.push(env.custom_edl_path());
        search_path.push(join(env.sgx_builder_path().as_str(), "edl"));
        search_path.push(join(env.custom_common_path().as_str(), "inc"));
        assert(strings_view(search_path@) =~= seq![
            env.spec_custom_edl_path(),
            path_join(env.spec_sgx_builder_path(), "edl"@),
            path_join(env.spec_custom_common_path(), "inc"@),
        ]);
        Self { mode, path: bin, search_path }
    }

    /// Adds a directory at the end of the search path.
    pub fn add_search_path(&mut self, path: String)
        ensures
            final(self).mode == old(self).mode,
            final(self).path == old(self).path,
            final(self).search_path@ == old(self).search_path@.push(path),
    {
        self.search_path.push(path);
    }

    /// The run of the generator for `edl` into `dir`: it runs in the parent
    /// of `dir` unless that is empty. `dir` must have a parent.
    pub fn command(&self, edl: &str, trusted: bool, dir: &str) -> (r: ProcessCommand)
        requires
            path_parent(dir@) is Some,
        ensures
            r.program@ == self.path@,
            opt_view(r.current_dir) == (if path_parent(dir@)->0.len() == 0 {
                None
            } else {
                path_parent(dir@)
            }),
            strings_view(r.args@) == edger8r_args(
                edl@,
                trusted,
                dir@,
                strings_view(self.search_path@),
            ),
    {
        let parent = match parent_of(dir) {
            Some(p) => p,
            None => String::new(),
        };
        let current_dir = if parent.as_str().is_empty() {
            None
        } else {
            Some(parent)
        };
        let mut args: Vec<String> = Vec::new();
        if trusted {
            push_arg(&mut args, "--trusted");
            push_arg(&mut args, edl);
            push_arg(&mut args, "--trusted-dir");
            push_arg(&mut args, dir);
        } else {
            push_arg(&mut args, "--untrusted");
            push_arg(&mut args, edl);
            push_arg(&mut args, "--untrusted-dir");
            push_arg(&mut args, dir);
        }
        let ghost head = strings_view(args@);
        let mut i: usize = 0;
        assert(search_path_args(strings_view(self.search_path@.subrange(0, 0))) =~= Seq::<
            Seq<char>,
        >::empty());
        assert(head + Seq::<Seq<char>>::empty() =~= head);
        while i < self.search_path.len()
            invariant
                i <= self.search_path@.len(),
                strings_view(args@) == head + search_path_args(
                    strings_view(self.search_path@.subrange(0, i as int)),
                ),
            decreases self.search_path@.len() - i,
        {
            push_arg(&mut args, "--search-path");
            push_arg(&mut args, self.search_path[i].as_str());
            i += 1;
            let ghost dirs = strings_view(self.search_path@.subrange(0, i as int));
            assert(dirs.drop_last() =~= strings_view(self.search_path@.subrange(0, i - 1)));
            assert(strings_view(args@) =~= head + search_path_args(dirs));
        }
        assert(self.search_path@.subrange(0, self.search_path@.len() as int)
            =~= self.search_path@);
        ProcessCommand { program: self.path.clone(), current_dir, args }
    }

    /// The run of the generator for `edl` into `dir`, when `dir` has a
    /// parent; `None` when it has none.
    pub fn try_command(&self, edl: &str, trusted: bool, dir: &str) -> (r: Option<ProcessCommand>)
        ensures
            match path_parent(dir@) {
                None => r is None,
                Some(parent) => r matches Some(c) && c.program@ == self.path@ && opt_view(
                    c.current_dir,
                ) == (if parent.len() == 0 {
                    None
                } else {
                    Some(parent)
                }) && strings_view(c.args@) == edger8r_args(
                    edl@,
                    trusted,
                    dir@,
                    strings_view(self.search_path@),
                ),
            },
    {
        match parent_of(dir) {
            None => None,
            Some(_) => Some(self.command(edl, trusted, dir)),
        }
    }

    /// The C file that the generator writes for `edl` into `dir`. `edl`
    /// must have a file name.
    pub fn output_path(edl: &str, trusted: bool, dir: &str) -> (r: String)
        requires
            path_file_stem(edl@) is Some,
        ensures
            Some(r@) == edger8r_output(edl@, trusted, dir@),
    {
        let stem = match file_stem_of(edl) {
            Some(s) => s,
            None => String::new(),
        };
        let name = if trusted {
            concat_str(stem.as_str(), "_t.c")
        } else {
            concat_str(stem.as_str(), "_u.c")
        };
        join(dir, name.as_str())
    }

    /// The C file that the generator writes for `edl` into `dir`; `None`
    /// when `edl` has no file name.
    pub fn try_output_path(edl: &str, trusted: bool, dir: &str) -> (r: Option<String>)
        ensures
            opt_view(r) == edger8r_output(edl@, trusted, dir@),
    {
        match file_stem_of(edl) {
            None => None,
            Some(_) => Some(Self::output_path(edl, trusted, dir)),
        }
    }
}

/// Writes the linker script that exports an enclave's entry symbols.
pub struct LdsBuilder {}

/// The symbols that an enclave exports.
pub open spec fn lds_symbols() -> Seq<&'static str> {
    seq![
        "g_global_data_hyper",
        "g_global_data_sim",
        "g_global_data",
        "enclave_entry",
        "g_peak_heap_used",
        "g_peak_rsrv_mem_committed",
    ]
}

/// One `\t\tsymbol;` line for each of `symbols`.
pub open spec fn lds_symbol_lines(symbols: Seq<&'static str>) -> Seq<char>
    decreases symbols.len(),
{
    if symbols.len() == 0 {
        Seq::empty()
    } else {
        lds_symbol_lines(symbols.drop_last()) + "\t\t"@ + symbols.last()@ + ";\n"@
    }
}

/// The linker script of the shared library `shared_lib`: its version node
/// exports `lds_symbols` and hides everything else.
pub open spec fn lds_text(shared_lib: Seq<char>) -> Seq<char> {
    shared_lib + "\n{\n"@ + "\tglobal:\n"@ + lds_symbol_lines(lds_symbols())
        + "\tlocal:\n\t\t*;\n"@ + "};\n"@
}

impl LdsBuilder {
    pub fn new() -> (r: Self) {
        LdsBuilder {  }
    }

    /// The linker script of the shared library `shared_lib`.
    pub fn content(&self, shared_lib: &str) -> (r: String)
        ensures
            r@ == lds_text(shared_lib@),
    {
        let mut data = owned(shared_lib);
        data.append("\n{\n");
        data.append("\tglobal:\n");
        let ghost head = data@;
        let mut segs: Vec<&'static str> = Vec::new();
        segs.push("g_global_data_hyper");
        segs.push("g_global_data_sim");
        segs.push("g_global_data");
        segs.push("enclave_entry");
        segs.push("g_peak_heap_used");
        segs.push("g_peak_rsrv_mem_committed");
        assert(segs@ =~= lds_symbols());
        let mut i: usize = 0;
        assert(lds_symbol_lines(segs@.subrange(0, 0)) =~= Seq::<char>::empty());
        assert(head + Seq::<char>::empty() =~= head);
        while i < segs.len()
            invariant
                i <= segs@.len(),
                data@ == head + lds_symbol_lines(segs@.subrange(0, i as int)),
            decreases segs@.len() - i,
        {
            data.append("\t\t");
            data.append(segs[i]);
            data.append(";\n");
            i += 1;
            let ghost done = segs@.subrange(0, i as int);
            assert(done.drop_last() =~= segs@.subrange(0, i - 1));
            assert(data@ =~= head + lds_symbol_lines(done));
        }
        assert(segs@.subrange(0, segs@.len() as int) =~= segs@);
        data.append("\tlocal:\n\t\t*;\n");
        data.append("};\n");
        assert(data@ =~= lds_text(shared_lib@));
        data
    }
}

/// The configuration that enclaves are signed with.
pub const ENCLAVE_CONFIG: &'static str = "<EnclaveConfiguration>
  <ProdID>0</ProdID>
  <ISVSVN>0</ISVSVN>
  <StackMaxSize>0x80000</StackMaxSize>
  <HeapMaxSize>0x40000000</HeapMaxSize>
  <TCSNum>33</TCSNum>
  <TCSPolicy>0</TCSPolicy>
  <DisableDebug>0</DisableDebug>
  <MiscSelect>0</MiscSelect>
  <MiscMask>0xFFFFFFFF</MiscMask>
</EnclaveConfiguration>";

/// Runs the SGX SDK's `sgx_sign`, which signs an enclave.
pub struct SgxSigner {
    pub mode: BuildMode,
    /// The signing program.
    pub bin: String,
}

impl SgxSigner {
    /// The signer of the SDK.
    pub fn new(mode: BuildMode, env: &Env) -> (r: Self)
        ensures
            r.mode == mode,
            r.bin@ == path_join(env.spec_sgx_bin_path(), "sgx_sign"@),
    {
        let bin = join(env.sgx_bin_path().as_str(), "sgx_sign");
        Self { mode, bin }
    }

    /// The configuration to write before signing (`ENCLAVE_CONFIG`).
    pub fn config(&self) -> (r: &'static str)
        ensures
            r == ENCLAVE_CONFIG,
    {
        ENCLAVE_CONFIG
    }

    /// The signing of `enclave` into `out` with the configuration `cfg` and
    /// the key `pem`.
    pub fn sign_command(&self, cfg: &str, out: &str, enclave: &str, pem: &str) -> (r:
        ProcessCommand)
        ensures
            r.program@ == self.bin@,
            r.current_dir is None,
            strings_view(r.args@) == seq![
                "sign"@,
                "-config"@,
                cfg@,
                "-out"@,
                out@,
                "-enclave"@,
                enclave@,
                "-key"@,
                pem@,
            ],
    {
        let mut args: Vec<String> = Vec::new();
        push_arg(&mut args, "sign");
        push_arg(&mut args, "-config");
        push_arg(&mut args, cfg);
        push_arg(&mut args, "-out");
        push_arg(&mut args, out);
        push_arg(&mut args, "-enclave");
        push_arg(&mut args, enclave);
        push_arg(&mut args, "-key");
        push_arg(&mut args, pem);
        assert(strings_view(args@) =~= seq![
            "sign"@,
            "-config"@,
            cfg@,
            "-out"@,
            out@,
            "-enclave"@,
            enclave@,
            "-key"@,
            pem@,
        ]);
        ProcessCommand { program: self.bin.clone(), current_dir: None, args }
    }
}

/// What `format!("{:?}", s)` writes for a string: the string quoted, with
/// its special characters escaped.
pub uninterp spec fn str_debug(s: Seq<char>) -> Seq<char>;

/// Printable ASCII other than `"` and `\`: the characters that the
/// debug form of a string writes as they are.
pub open spec fn is_plain_ascii(s: Seq<char>) -> bool {
    forall|i: int|
        0 <= i < s.len() ==> (0x20 <= (#[trigger] s[i]) as u32 <= 0x7e && s[i] != '"' && s[i]
            != '\\')
}

/// `<str as Debug>::fmt` through `format!("{:?}", s)`. Its result is named
/// `str_debug`; the contract also states what the documentation of
/// `char::escape_debug` gives for printable ASCII other than `"` and `\`:
/// such a string is written between double quotes as it is. How other
/// characters are escaped is left to the name.
#[verifier::external_body]
fn debug_quoted(s: &str) -> (r: String)
    ensures
        r@ == str_debug(s@),
        is_plain_ascii(s@) ==> r@ == seq!['"'] + s@ + seq!['"'],
{
    format!("{:?}", s)
}

/// Writes an enclave's EDL file: its imports and its trusted functions.
pub struct EdlBuilder {
    pub imports: Vec<String>,
    pub trusted: Vec<String>,
}

/// One `\tfrom "file" import *;` line for each of `imports`.
pub open spec fn edl_import_lines(imports: Seq<Seq<char>>) -> Seq<char>
    decreases imports.len(),
{
    if imports.len() == 0 {
        Seq::empty()
    } else {
        edl_import_lines(imports.drop_last()) + "\tfrom "@ + str_debug(imports.last())
            + " import *;\n"@
    }
}

/// One `\t\tline` line for each of `lines`.
pub open spec fn edl_trusted_lines(lines: Seq<Seq<char>>) -> Seq<char>
    decreases lines.len(),
{
    if lines.len() == 0 {
        Seq::empty()
    } else {
        edl_trusted_lines(lines.drop_last()) + "\t\t"@ + lines.last() + "\n"@
    }
}

/// The EDL file of an enclave with `imports` and the trusted declarations
/// `trusted`.
pub open spec fn edl_text(imports: Seq<Seq<char>>, trusted: Seq<Seq<char>>) -> Seq<char> {
    "enclave {\n"@ + edl_import_lines(imports) + "\ttrusted {\n"@ + edl_trusted_lines(trusted)
        + "\t};\n"@ + "};\n"@
}

/// The EDL files of the Teaclave SDK that an enclave imports by default.
pub open spec fn preset_import_names() -> Seq<Seq<char>> {
    seq![
        "sgx_env.edl"@,
        "sgx_sync.edl"@,
        "sgx_stdio.edl"@,
        "sgx_net.edl"@,
        "sgx_fs.edl"@,
        "sgx_thread.edl"@,
        "sgx_process.edl"@,
        "sgx_tstd.edl"@,
        "sgx_cpuid.edl"@,
    ]
}

impl EdlBuilder {
    /// An EDL file with no imports and no trusted functions.
    pub fn new() -> (r: Self)
        ensures
            r.imports@.len() == 0,
            r.trusted@.len() == 0,
    {
        Self { imports: Vec::new(), trusted: Vec::new() }
    }

    /// Adds the imports of the Teaclave SDK's standard EDL files.
    pub fn preset_imports(&mut self) -> (r: &mut Self)
        ensures
            strings_view(r.imports@) == strings_view(old(self).imports@) + preset_import_names(),
            r.trusted@ == old(self).trusted@,
            *final(self) == *final(r),
    {
        self.add_import("sgx_env.edl");
        self.add_import("sgx_sync.edl");
        self.add_import("sgx_stdio.edl");
        self.add_import("sgx_net.edl");
        self.add_import("sgx_fs.edl");
        self.add_import("sgx_thread.edl");
        self.add_import("sgx_process.edl");
        self.add_import("sgx_tstd.edl");
        self.add_import("sgx_cpuid.edl");
        assert(strings_view(self.imports@) =~= strings_view(old(self).imports@)
            + preset_import_names());
        self
    }

    /// Adds an import of the EDL file `name`.
    pub fn add_import(&mut self, name: &str) -> (r: &mut Self)
        ensures
            strings_view(r.imports@) == strings_view(old(self).imports@).push(name@),
            r.trusted@ == old(self).trusted@,
            *final(self) == *final(r),
    {
        push_arg(&mut self.imports, name);
        self
    }

    /// Adds a trusted declaration.
    pub fn add_trusted(&mut self, data: &str) -> (r: &mut Self)
        ensures
            strings_view(r.trusted@) == strings_view(old(self).trusted@).push(data@),
            r.imports@ == old(self).imports@,
            *final(self) == *final(r),
    {
        push_arg(&mut self.trusted, data);
        self
    }

    /// The text of the EDL file.
    pub fn content(&self) -> (r: String)
        ensures
            r@ == edl_text(strings_view(self.imports@), strings_view(self.trusted@)),
    {
        let mut data = owned("enclave {\n");
        let ghost head = data@;
        let mut i: usize = 0;
        assert(strings_view(self.imports@.subrange(0, 0)) =~= Seq::<Seq<char>>::empty());
        assert(head + Seq::<char>::empty() =~= head);
        while i < self.imports.len()
            invariant
                i <= self.imports@.len(),
                data@ == head + edl_import_lines(strings_view(self.imports@.subrange(0, i as int))),
            decreases self.imports@.len() - i,
        {
            data.append("\tfrom ");
            data.append(debug_quoted(self.imports[i].as_str()).as_str());
            data.append(" import *;\n");
            i += 1;
            let ghost done = strings_view(self.imports@.subrange(0, i as int));
            assert(done.drop_last() =~= strings_view(self.imports@.subrange(0, i - 1)));
            assert(data@ =~= head + edl_import_lines(done));
        }
        assert(self.imports@.subrange(0, self.imports@.len() as int) =~= self.imports@);
        data.append("\ttrusted {\n");
        let ghost mid = data@;
        let mut k: usize = 0;
        assert(strings_view(self.trusted@.subrange(0, 0)) =~= Seq::<Seq<char>>::empty());
        assert(mid + Seq::<char>::empty() =~= mid);
        while k < self.trusted.len()
            invariant
                k <= self.trusted@.len(),
                data@ == mid + edl_trusted_lines(strings_view(self.trusted@.subrange(0, k as int))),
            decreases self.trusted@.len() - k,
        {
            data.append("\t\t");
            data.append(self.trusted[k].as_str());
            data.append("\n");
            k += 1;
            let ghost done = strings_view(self.trusted@.subrange(0, k as int));
            assert(done.drop_last() =~= strings_view(self.trusted@.subrange(0, k - 1)));
            assert(data@ =~= mid + edl_trusted_lines(done));
        }
        assert(self.trusted@.subrange(0, self.trusted@.len() as int) =~= self.trusted@);
        data.append("\t};\n");
        data.append("};\n");
        assert(data@ =~= edl_text(strings_view(self.imports@), strings_view(self.trusted@)));
        data
    }
}

} // verus!

verus! {

/// The arguments `args[start + 2k]` and `args[start + 2k + 1]` are
/// `--search-path` and `dirs[k]`.
pub open spec fn searches_at(args: Seq<Seq<char>>, start: int, dirs: Seq<Seq<char>>, k: int) -> bool {
    args[start + 2 * k] == "--search-path"@ && args[start + 2 * k + 1] == dirs[k]
}

proof fn lemma_search_path_args_shape(dirs: Seq<Seq<char>>)
    ensures
        search_path_args(dirs).len() == 2 * dirs.len(),
        forall|k: int| 0 <= k < dirs.len() ==> #[trigger] searches_at(search_path_args(dirs), 0, dirs, k),
    decreases dirs.len(),
{
    if dirs.len() > 0 {
        let prev = dirs.drop_last();
        lemma_search_path_args_shape(prev);
        let a = search_path_args(dirs);
        let p = search_path_args(prev);
        let tail = seq!["--search-path"@, dirs.last()];
        assert(a == p + tail);
        assert forall|k: int| 0 <= k < dirs.len() implies #[trigger] searches_at(a, 0, dirs, k) by {
            if k < prev.len() {
                assert(searches_at(p, 0, prev, k));
                assert(prev[k] == dirs[k]);
                assert(a[2 * k] == p[2 * k]);
                assert(a[2 * k + 1] == p[2 * k + 1]);
            } else {
                assert(a[2 * k] == tail[0]);
                assert(a[2 * k + 1] == tail[1]);
            }
        }
    }
}

/// The generator is given, for the trusted and the untrusted bridge alike,
/// the EDL file and the output directory, then `--search-path` and the
/// directory for every directory of the search path, in order: the
/// arguments number `4 + 2 * |search_path|` whatever `trusted` is.
pub proof fn lemma_edger8r_searches_every_directory(
    edl: Seq<char>,
    trusted: bool,
    dir: Seq<char>,
    search_path: Seq<Seq<char>>,
)
    ensures
        edger8r_args(edl, trusted, dir, search_path).len() == 4 + 2 * search_path.len(),
        edger8r_args(edl, trusted, dir, search_path)[1] == edl,
        edger8r_args(edl, trusted, dir, search_path)[3] == dir,
        forall|k: int|
            0 <= k < search_path.len() ==> #[trigger] searches_at(
                edger8r_args(edl, trusted, dir, search_path),
                4,
                search_path,
                k,
            ),
{
    lemma_search_path_args_shape(search_path);
    let a = edger8r_args(edl, trusted, dir, search_path);
    let s = search_path_args(search_path);
    let head = if trusted {
        seq!["--trusted"@, edl, "--trusted-dir"@, dir]
    } else {
        seq!["--untrusted"@, edl, "--untrusted-dir"@, dir]
    };
    assert(a == head + s);
    assert(head.len() == 4);
    assert forall|k: int| 0 <= k < search_path.len() implies #[trigger] searches_at(
        a,
        4,
        search_path,
        k,
    ) by {
        assert(searches_at(s, 0, search_path, k));
        assert(a[4 + 2 * k] == s[2 * k]);
        assert(a[4 + 2 * k + 1] == s[2 * k + 1]);
    }
}

/// Adding a trusted declaration adds exactly its line, `\t\t` declaration
/// `\n`, at the end of the trusted block, keeping every earlier line: the
/// EDL text before the closing `\t};\n};\n` grows by that line, so every
/// declaration added appears, once, in the order added.
pub proof fn lemma_edl_lists_every_trusted_declaration(
    imports: Seq<Seq<char>>,
    trusted: Seq<Seq<char>>,
    t: Seq<char>,
)
    ensures
        ({
            let before = edl_text(imports, trusted);
            let after = edl_text(imports, trusted.push(t));
            let close = seq!['\t', '}', ';', '\n', '}', ';', '\n'];
            &&& ends_with(before, close)
            &&& after == before.subrange(0, before.len() - 7) + seq!['\t', '\t'] + t + seq!['\n']
                + close
            &&& after.len() == before.len() + t.len() + 3
        }),
{
    reveal_strlit("\t};\n");
    reveal_strlit("};\n");
    reveal_strlit("\t\t");
    reveal_strlit("\n");
    let close = seq!['\t', '}', ';', '\n', '}', ';', '\n'];
    assert("\t};\n"@ + "};\n"@ =~= close);
    let pushed = trusted.push(t);
    assert(pushed.drop_last() =~= trusted);
    assert(pushed.last() == t);
    let head = "enclave {\n"@ + edl_import_lines(imports) + "\ttrusted {\n"@;
    let before = edl_text(imports, trusted);
    let after = edl_text(imports, pushed);
    assert(before =~= head + edl_trusted_lines(trusted) + close);
    assert(after =~= head + edl_trusted_lines(trusted) + seq!['\t', '\t'] + t + seq!['\n'] + close);
    assert(before.subrange(before.len() - 7, before.len() as int) =~= close);
    assert(before.subrange(0, before.len() - 7) =~= head + edl_trusted_lines(trusted));
}

/// Adding an import inserts exactly its line, `\tfrom "file" import *;\n`,
/// right before the trusted block, keeping everything else: every import
/// added appears, once, after the earlier ones.
pub proof fn lemma_edl_lists_every_import(
    imports: Seq<Seq<char>>,
    trusted: Seq<Seq<char>>,
    name: Seq<char>,
)
    ensures
        exists|p: int|
            0 <= p <= edl_text(imports, trusted).len() && #[trigger] edl_text(
                imports.push(name),
                trusted,
            ) == edl_text(imports, trusted).subrange(0, p) + seq!['\t', 'f', 'r', 'o', 'm', ' ']
                + str_debug(name) + seq![' ', 'i', 'm', 'p', 'o', 'r', 't', ' ', '*', ';', '\n']
                + edl_text(imports, trusted).subrange(p, edl_text(imports, trusted).len() as int)
                && starts_with(
                edl_text(imports, trusted).subrange(p, edl_text(imports, trusted).len() as int),
                seq!['\t', 't', 'r', 'u', 's', 't', 'e', 'd', ' ', '{', '\n'],
            ),
{
    reveal_strlit("\tfrom ");
    reveal_strlit(" import *;\n");
    reveal_strlit("\ttrusted {\n");
    let from = seq!['\t', 'f', 'r', 'o', 'm', ' '];
    let imp = seq![' ', 'i', 'm', 'p', 'o', 'r', 't', ' ', '*', ';', '\n'];
    let open = seq!['\t', 't', 'r', 'u', 's', 't', 'e', 'd', ' ', '{', '\n'];
    assert("\tfrom "@ =~= from);
    assert(" import *;\n"@ =~= imp);
    assert("\ttrusted {\n"@ =~= open);
    let pushed = imports.push(name);
    assert(pushed.drop_last() =~= imports);
    assert(pushed.last() == name);
    let head = "enclave {\n"@ + edl_import_lines(imports);
    let tail = "\ttrusted {\n"@ + edl_trusted_lines(trusted) + "\t};\n"@ + "};\n"@;
    let before = edl_text(imports, trusted);
    let after = edl_text(pushed, trusted);
    assert(before =~= head + tail);
    assert(after =~= head + from + str_debug(name) + imp + tail);
    let p = head.len() as int;
    assert(before.subrange(0, p) =~= head);
    assert(before.subrange(p, before.len() as int) =~= tail);
    assert(tail.subrange(0, 11) =~= open);
    assert(after == before.subrange(0, p) + from + str_debug(name) + imp + before.subrange(
        p,
        before.len() as int,
    ));
}

/// The untrusted bridge includes the headers of the SDK that `SGX_SDK`
/// names, or of `/opt/intel/sgxsdk` when it is unset.
pub proof fn lemma_untrusted_includes_follow_sgx_sdk(env: &Env)
    ensures
        untrusted_includes(env).len() == 3,
        env.sgx_sdk matches Some(sdk) ==> untrusted_includes(env)[0] == path_join(
            sdk@,
            "include"@,
        ),
        env.sgx_sdk is None ==> untrusted_includes(env)[0] == path_join(
            crate::env::DEFAULT_SGX_SDK@,
            "include"@,
        ),
{
    match env.sgx_sdk {
        Some(sdk) => lemma_join_empty_base(sdk@),
        None => lemma_join_empty_base(crate::env::DEFAULT_SGX_SDK@),
    }
}

/// The linker script of a library is its name followed by the same text for
/// every library: `\n{\n` and the version node.
pub proof fn lemma_lds_names_its_library(a: Seq<char>, b: Seq<char>)
    ensures
        starts_with(lds_text(a), a),
        lds_text(a).subrange(a.len() as int, lds_text(a).len() as int) == lds_text(b).subrange(
            b.len() as int,
            lds_text(b).len() as int,
        ),
{
    let rest = "\n{\n"@ + "\tglobal:\n"@ + lds_symbol_lines(lds_symbols()) + "\tlocal:\n\t\t*;\n"@
        + "};\n"@;
    assert(lds_text(a) =~= a + rest);
    assert(lds_text(b) =~= b + rest);
    assert(lds_text(a).subrange(0, a.len() as int) =~= a);
    assert(lds_text(a).subrange(a.len() as int, lds_text(a).len() as int) =~= rest);
    assert(lds_text(b).subrange(b.len() as int, lds_text(b).len() as int) =~= rest);
}

} // verus!
