//! The build of a host application that links its enclaves as static
//! libraries: which build to run, the packages that `package.metadata.sgx`
//! of the manifest names, and the cargo directives, directories, links and
//! cargo runs of the build, in order.
use vstd::prelude::*;
use crate::env::{CargoSgxOutput, CargoSgxOutputMetadata, Env};
use crate::path::{
    file_stem_of, join, parent_of, path_file_name, path_file_stem, path_join, path_parent, stem_of_name,
};
use crate::text::{
    concat_str, owned, push_arg, rfind_char_before, starts_with, str_trim_start_matches, strings_view,
    trim_start_matches,
};

verus! {

/// A TOML value, as much of it as the build reads: strings, tables (their
/// entries in the order that the parser yields them), arrays, and the other
/// kinds of value without their content.
pub enum TomlValue {
    Str(String),
    Table(Vec<(String, TomlValue)>),
    Array(Vec<TomlValue>),
    Other,
}

/// The value of the first entry of `entries` under `key`.
pub open spec fn table_lookup(entries: Seq<(String, TomlValue)>, key: Seq<char>) -> Option<
    TomlValue,
>
    decreases entries.len(),
{
    if entries.len() == 0 {
        None
    } else if entries[0].0@ == key {
        Some(entries[0].1)
    } else {
        table_lookup(entries.drop_first(), key)
    }
}

/// The value under `key` when `v` is a table (`toml::Value::get`).
pub open spec fn toml_get(v: TomlValue, key: Seq<char>) -> Option<TomlValue> {
    match v {
        TomlValue::Table(entries) => table_lookup(entries@, key),
        _ => None,
    }
}

impl TomlValue {
    /// The value under `key` when this is a table.
    pub fn get(&self, key: &str) -> (r: Option<&TomlValue>)
        ensures
            match toml_get(*self, key@) {
                None => r is None,
                Some(v) => r matches Some(x) && *x == v,
            },
    {
        match self {
            TomlValue::Table(entries) => {
                let k = owned(key);
                let mut i: usize = 0;
                assert(entries@.subrange(0, entries@.len() as int) =~= entries@);
                while i < entries.len()
                    invariant
                        k@ == key@,
                        toml_get(*self, key@) == table_lookup(entries@, key@),
                        i <= entries@.len(),
                        table_lookup(entries@, key@) == table_lookup(
                            entries@.subrange(i as int, entries@.len() as int),
                            key@,
                        ),
                    decreases entries@.len() - i,
                {
                    let ghost rest = entries@.subrange(i as int, entries@.len() as int);
                    assert(rest.drop_first() =~= entries@.subrange(i + 1, entries@.len() as int));
                    assert(rest[0] == entries@[i as int]);
                    if entries[i].0 == k {
                        return Some(&entries[i].1);
                    }
                    i += 1;
                }
                None
            },
            _ => None,
        }
    }
}

/// The `package.metadata.sgx` value of a manifest.
pub open spec fn sgx_metadata(manifest: TomlValue) -> Option<TomlValue> {
    match toml_get(manifest, "package"@) {
        None => None,
        Some(p) => match toml_get(p, "metadata"@) {
            None => None,
            Some(m) => toml_get(m, "sgx"@),
        },
    }
}

/// The package of an enclave entry: the stem of its `path`; `None` when it
/// has no string `path` or that path has no file name.
pub open spec fn entry_package(entry: TomlValue) -> Option<Seq<char>> {
    match toml_get(entry, "path"@) {
        Some(TomlValue::Str(p)) => path_file_stem(p@),
        _ => None,
    }
}

/// The (library, package) pair of each entry, in order; `None` when an
/// entry has no package.
pub open spec fn entries_packages(entries: Seq<(String, TomlValue)>) -> Option<
    Seq<(Seq<char>, Seq<char>)>,
>
    decreases entries.len(),
{
    if entries.len() == 0 {
        Some(Seq::empty())
    } else {
        match entries_packages(entries.drop_last()) {
            None => None,
            Some(prev) => match entry_package(entries.last().1) {
                None => None,
                Some(pkg) => Some(prev.push((entries.last().0@, pkg))),
            },
        }
    }
}

/// The enclave libraries that `package.metadata.sgx` of a manifest names,
/// with the package that builds each: none when that table is missing;
/// `None` when an entry has no string `path` with a file name.
pub open spec fn spec_metadata_pkgs(manifest: TomlValue) -> Option<Seq<(Seq<char>, Seq<char>)>> {
    match sgx_metadata(manifest) {
        Some(TomlValue::Table(entries)) => entries_packages(entries@),
        _ => Some(Seq::empty()),
    }
}

proof fn lemma_packages_none_extends(t: Seq<(String, TomlValue)>, k: int)
    requires
        0 <= k <= t.len(),
        entries_packages(t.subrange(0, k)) is None,
    ensures
        entries_packages(t) is None,
    decreases t.len(),
{
    if t.len() == k {
        assert(t.subrange(0, k) =~= t);
    } else {
        let d = t.drop_last();
        assert(d.subrange(0, k) =~= t.subrange(0, k));
        lemma_packages_none_extends(d, k);
    }
}

/// The texts of a sequence of pairs of strings.
pub open spec fn pairs_view(v: Seq<(String, String)>) -> Seq<(Seq<char>, Seq<char>)> {
    v.map_values(|p: (String, String)| (p.0@, p.1@))
}

/// The package of an enclave entry of `package.metadata.sgx`.
pub fn entry_package_of(entry: &TomlValue) -> (r: Option<String>)
    ensures
        match entry_package(*entry) {
            None => r is None,
            Some(p) => r matches Some(s) && s@ == p,
        },
{
    match entry.get("path") {
        Some(TomlValue::Str(p)) => file_stem_of(p.as_str()),
        _ => None,
    }
}

/// The enclave libraries that `package.metadata.sgx` of the manifest
/// names, each with the package (the stem of its `path`) that builds it;
/// `None` when an entry has no string `path` with a file name.
pub fn metadata_pkgs(manifest: &TomlValue) -> (r: Option<Vec<(String, String)>>)
    ensures
        match spec_metadata_pkgs(*manifest) {
            None => r is None,
            Some(p) => r matches Some(v) && pairs_view(v@) == p,
        },
{
    let sgx = match manifest.get("package") {
        None => return Some(Vec::new()),
        Some(pkg) => match pkg.get("metadata") {
            None => return Some(Vec::new()),
            Some(md) => match md.get("sgx") {
                None => return Some(Vec::new()),
                Some(sgx) => sgx,
            },
        },
    };
    let entries = match sgx {
        TomlValue::Table(entries) => entries,
        _ => return Some(Vec::new()),
    };
    let mut out: Vec<(String, String)> = Vec::new();
    let mut i: usize = 0;
    assert(entries@.subrange(0, 0) =~= Seq::<(String, TomlValue)>::empty());
    assert(pairs_view(out@) =~= Seq::<(Seq<char>, Seq<char>)>::empty());
    assert(sgx_metadata(*manifest) == Some(TomlValue::Table(*entries)));
    while i < entries.len()
        invariant
            i <= entries@.len(),
            sgx_metadata(*manifest) == Some(TomlValue::Table(*entries)),
            entries_packages(entries@.subrange(0, i as int)) == Some(pairs_view(out@)),
        decreases entries@.len() - i,
    {
        let ghost done = entries@.subrange(0, i + 1);
        assert(done.drop_last() =~= entries@.subrange(0, i as int));
        assert(done.last() == entries@[i as int]);
        let pkg = match entry_package_of(&entries[i].1) {
            Some(p) => p,
            None => {
                proof {
                    lemma_packages_none_extends(entries@, i + 1);
                }
                return None;
            },
        };
        let ghost before = out@;
        let ghost pv = pkg@;
        let lib = entries[i].0.clone();
        out.push((lib, pkg));
        i += 1;
        assert(pairs_view(out@) =~= pairs_view(before).push((done.last().0@, pv)));
    }
    assert(entries@.subrange(0, entries@.len() as int) =~= entries@);
    Some(out)
}


/// The enclave libraries that `package.metadata.sgx` of the manifest
/// names, each with the package (the stem of its `path`) that builds it.
/// Every entry of that table must have a string `path` with a file name.
pub fn get_metadata_pkgs(manifest: &TomlValue) -> (r: Vec<(String, String)>)
    requires
        spec_metadata_pkgs(*manifest) is Some,
    ensures
        pairs_view(r@) == spec_metadata_pkgs(*manifest)->0,
{
    match metadata_pkgs(manifest) {
        Some(v) => v,
        None => Vec::new(),
    }
}

/// `toml::Value`, the value that the TOML parser gives.
#[verifier::external_type_specification]
#[verifier::external_body]
pub struct ExTomlValue(toml::Value);

/// The value that `toml::from_str` parses `text` into, as a `TomlValue`;
/// `None` when `text` is not valid TOML.
pub uninterp spec fn toml_parse(text: Seq<char>) -> Option<TomlValue>;

/// A parsed TOML value as a `TomlValue`: strings, tables (their entries in
/// the order the parser yields them) and arrays one for one, every other
/// kind of value as `Other`.
#[verifier::external_body]
fn model_of_toml(v: &toml::Value) -> TomlValue {
    match v {
        toml::Value::String(s) => TomlValue::Str(s.clone()),
        toml::Value::Table(t) => TomlValue::Table(
            t.iter().map(|(k, x)| (k.clone(), model_of_toml(x))).collect(),
        ),
        toml::Value::Array(a) => TomlValue::Array(a.iter().map(model_of_toml).collect()),
        _ => TomlValue::Other,
    }
}

/// `toml::from_str::<toml::Value>`: the manifest `text` parsed. Its result
/// is named `toml_parse`, a function of the text alone; what TOML parses
/// into is left to the name.
#[verifier::external_body]
pub(crate) fn parse_manifest(text: &str) -> (r: Option<TomlValue>)
    ensures
        r == toml_parse(text@),
{
    match toml::from_str::<toml::Value>(text) {
        Ok(v) => Some(model_of_toml(&v)),
        Err(_) => None,
    }
}

/// The enclave libraries that `package.metadata.sgx` of the manifest text
/// names, each with its package; `None` when the text is not valid TOML or
/// an entry has no string `path` with a file name.
pub fn metadata_pkgs_of_manifest(text: &str) -> (r: Option<Vec<(String, String)>>)
    ensures
        match toml_parse(text@) {
            None => r is None,
            Some(m) => match spec_metadata_pkgs(m) {
                None => r is None,
                Some(p) => r matches Some(v) && pairs_view(v@) == p,
            },
        },
{
    match parse_manifest(text) {
        None => None,
        Some(manifest) => metadata_pkgs(&manifest),
    }
}

/// The build that an application needs.
#[derive(Debug, Clone, Copy, PartialEq, Eq, Structural)]
pub enum AppBuild {
    /// Build the enclaves and link them in.
    Sgx,
    /// Link the enclaves as ordinary static libraries.
    Std,
}

/// Which build an application needs: the enclave build when `cargo sgx`
/// runs it outside std mode, else the std build.
pub fn build_app(output: &Option<CargoSgxOutput>) -> (r: AppBuild)
    ensures
        r == (if output matches Some(o) && !o.std_mode {
            AppBuild::Sgx
        } else {
            AppBuild::Std
        }),
{
    match output {
        Some(n) if !n.std_mode => AppBuild::Sgx,
        _ => AppBuild::Std,
    }
}

/// One thing that the std build does.
pub enum StdAppAction {
    /// Print a line for cargo.
    Print(String),
    /// Create a directory and its parents, ignoring failure.
    CreateDirAll(String),
    /// Create a symbolic link at `link` to `original`, ignoring failure.
    Symlink { original: String, link: String },
    /// Run cargo with `args`; the build fails unless it succeeds.
    RunCargo { program: String, args: Vec<String> },
}

/// The value of a `StdAppAction`.
pub enum StdAppStep {
    Print(Seq<char>),
    CreateDirAll(Seq<char>),
    Symlink(Seq<char>, Seq<char>),
    RunCargo(Seq<char>, Seq<Seq<char>>),
}

impl View for StdAppAction {
    type V = StdAppStep;

    open spec fn view(&self) -> StdAppStep {
        match self {
            StdAppAction::Print(s) => StdAppStep::Print(s@),
            StdAppAction::CreateDirAll(d) => StdAppStep::CreateDirAll(d@),
            StdAppAction::Symlink { original, link } => StdAppStep::Symlink(original@, link@),
            StdAppAction::RunCargo { program, args } => StdAppStep::RunCargo(
                program@,
                strings_view(args@),
            ),
        }
    }
}

/// The values of a sequence of actions.
pub open spec fn actions_view(a: Seq<StdAppAction>) -> Seq<StdAppStep> {
    a.map_values(|x: StdAppAction| x@)
}

/// The directory that cargo puts the build's libraries in: the third
/// ancestor of `OUT_DIR`.
pub open spec fn search_path_of(out_dir: Seq<char>) -> Option<Seq<char>> {
    match path_parent(out_dir) {
        None => None,
        Some(a) => match path_parent(a) {
            None => None,
            Some(b) => path_parent(b),
        },
    }
}

/// The name an enclave archive links under: its stem without the leading
/// `lib` prefixes.
pub open spec fn archive_link_name(archive: Seq<char>) -> Option<Seq<char>> {
    match path_file_stem(archive) {
        None => None,
        Some(stem) => Some(trim_start_matches(stem, "lib"@)),
    }
}

/// For each enclave archive: the directive to rebuild when its library in
/// `search` changes, and the one to link it.
pub open spec fn enclave_link_steps(search: Seq<char>, archives: Seq<Seq<char>>) -> Option<
    Seq<StdAppStep>,
>
    decreases archives.len(),
{
    if archives.len() == 0 {
        Some(Seq::empty())
    } else {
        match enclave_link_steps(search, archives.drop_last()) {
            None => None,
            Some(prev) => match archive_link_name(archives.last()) {
                None => None,
                Some(name) => Some(
                    prev + seq![
                        StdAppStep::Print(
                            "cargo:rerun-if-changed="@ + path_join(search, "lib"@ + name + ".a"@),
                        ),
                        StdAppStep::Print("cargo:rustc-link-lib="@ + name),
                    ],
                ),
            },
        }
    }
}

/// The arguments of the cargo run that builds the package `pkg` into
/// `target_dir`.
pub open spec fn cargo_build_args(release: bool, target_dir: Seq<char>, pkg: Seq<char>) -> Seq<
    Seq<char>,
> {
    seq!["build"@] + (if release {
        seq!["--release"@]
    } else {
        Seq::empty()
    }) + seq!["--target-dir"@, target_dir, "-p"@, pkg, "--color"@, "never"@]
}

/// For each (library, package) pair: the cargo run that builds the
/// package, then the directive that links the library.
pub open spec fn compat_build_steps(
    cargo: Seq<char>,
    release: bool,
    target_dir: Seq<char>,
    pkgs: Seq<(Seq<char>, Seq<char>)>,
) -> Seq<StdAppStep>
    decreases pkgs.len(),
{
    if pkgs.len() == 0 {
        Seq::empty()
    } else {
        compat_build_steps(cargo, release, target_dir, pkgs.drop_last()) + seq![
            StdAppStep::RunCargo(cargo, cargo_build_args(release, target_dir, pkgs.last().1)),
            StdAppStep::Print("cargo:rustc-link-lib="@ + pkgs.last().0),
        ]
    }
}

/// The warning printed when the build does not run under `cargo sgx`.
pub open spec fn compat_warning(pkg_name: Seq<char>) -> Seq<char> {
    "cargo:warning="@ + pkg_name
        + " is intended to build from `cargo sgx build`, please try install it by `cargo install cargo-sgx`, now will goto compatibility mode (rebuild everytime)"@
}

/// The steps of the std build in compatibility mode (not under
/// `cargo sgx`): it rebuilds the enclave packages into `tmp-target` beside
/// the target directory, reusing its `build` and `deps`, and links them.
pub open spec fn compat_steps(
    pkg_name: Seq<char>,
    search: Seq<char>,
    profile: Seq<char>,
    cargo: Seq<char>,
    pkgs: Seq<(Seq<char>, Seq<char>)>,
) -> Option<Seq<StdAppStep>> {
    match path_parent(search) {
        None => None,
        Some(origin) => {
            let new_target = path_join(origin, "tmp-target"@);
            let profile_dir = path_join(new_target, profile);
            Some(
                seq![
                    StdAppStep::Print(compat_warning(pkg_name)),
                    StdAppStep::Print("cargo:rerun-if-changed=compatibility mode"@),
                    StdAppStep::CreateDirAll(profile_dir),
                    StdAppStep::Symlink(
                        path_join(path_join(origin, profile), "build"@),
                        path_join(profile_dir, "build"@),
                    ),
                    StdAppStep::Symlink(
                        path_join(path_join(origin, profile), "deps"@),
                        path_join(profile_dir, "deps"@),
                    ),
                    StdAppStep::Print("cargo:rustc-link-search=native="@ + profile_dir),
                ] + compat_build_steps(cargo, profile == "release"@, new_target, pkgs),
            )
        },
    }
}

/// The enclave archives that `cargo sgx` describes, in order.
pub open spec fn archives_of(metadata: Seq<CargoSgxOutputMetadata>) -> Seq<Seq<char>> {
    metadata.map_values(|m: CargoSgxOutputMetadata| m.enclave_archive@)
}

/// The steps of the std build. Under `cargo sgx` it links each enclave
/// archive from the directory of the build's libraries; otherwise it runs
/// in compatibility mode. `None` when a directory or file name that the
/// build needs does not exist in the paths it is given.
pub open spec fn std_app_steps(
    pkg_name: Seq<char>,
    out_dir: Seq<char>,
    output: Option<Seq<Seq<char>>>,
    profile: Seq<char>,
    cargo: Seq<char>,
    pkgs: Seq<(Seq<char>, Seq<char>)>,
) -> Option<Seq<StdAppStep>> {
    match search_path_of(out_dir) {
        None => None,
        Some(search) => match output {
            Some(archives) => match enclave_link_steps(search, archives) {
                None => None,
                Some(steps) => Some(
                    seq![StdAppStep::Print("cargo:rustc-link-search=native="@ + search)] + steps,
                ),
            },
            None => compat_steps(pkg_name, search, profile, cargo, pkgs),
        },
    }
}

/// The text of an optional variable, empty when unset.
pub open spec fn text_or_empty(v: Option<String>) -> Seq<char> {
    match v {
        Some(s) => s@,
        None => Seq::empty(),
    }
}

/// The archives of the enclaves that `cargo sgx` describes, if it runs.
pub open spec fn output_archives(output: Option<CargoSgxOutput>) -> Option<Seq<Seq<char>>> {
    match output {
        Some(o) => Some(archives_of(o.metadata@)),
        None => None,
    }
}

proof fn lemma_link_steps_none_extends(search: Seq<char>, t: Seq<Seq<char>>, k: int)
    requires
        0 <= k <= t.len(),
        enclave_link_steps(search, t.subrange(0, k)) is None,
    ensures
        enclave_link_steps(search, t) is None,
    decreases t.len(),
{
    if t.len() == k {
        assert(t.subrange(0, k) =~= t);
    } else {
        let d = t.drop_last();
        assert(d.subrange(0, k) =~= t.subrange(0, k));
        lemma_link_steps_none_extends(search, d, k);
    }
}

/// Under `cargo sgx`, an enclave archive whose file is `lib<name>.a` is
/// linked as `<name>`, and the build is rerun when `lib<name>.a` in the
/// library directory changes: the file that the link directive names.
pub proof fn lemma_archive_linked_by_its_name(search: Seq<char>, archive: Seq<char>, name: Seq<char>)
    requires
        path_file_name(archive) == Some("lib"@ + name + ".a"@),
        !starts_with(name, "lib"@),
    ensures
        archive_link_name(archive) == Some(name),
        enclave_link_steps(search, seq![archive]) == Some(
            seq![
                StdAppStep::Print(
                    "cargo:rerun-if-changed="@ + path_join(search, "lib"@ + name + ".a"@),
                ),
                StdAppStep::Print("cargo:rustc-link-lib="@ + name),
            ],
        ),
{
    reveal_strlit("lib");
    reveal_strlit(".a");
    let lib = "lib"@;
    let f = lib + name + ".a"@;
    let n = f.len() as int;
    assert(f[n - 1] == 'a');
    assert(f[n - 2] == '.');
    assert(rfind_char_before(f, '.', n - 1) == Some(n - 2));
    assert(rfind_char_before(f, '.', n) == Some(n - 2));
    assert(f.subrange(0, n - 2) =~= lib + name);
    assert(stem_of_name(f) == lib + name);
    assert((lib + name).subrange(0, 3) =~= lib);
    assert((lib + name).subrange(3, (lib + name).len() as int) =~= name);
    assert(trim_start_matches(lib + name, lib) == trim_start_matches(name, lib));
    assert(trim_start_matches(name, lib) == name);
    let one = seq![archive];
    assert(one.drop_last() =~= Seq::<Seq<char>>::empty());
    assert(enclave_link_steps(search, one.drop_last()) == Some(Seq::<StdAppStep>::empty()));
    assert(Seq::<StdAppStep>::empty() + seq![
        StdAppStep::Print("cargo:rerun-if-changed="@ + path_join(search, lib + name + ".a"@)),
        StdAppStep::Print("cargo:rustc-link-lib="@ + name),
    ] =~= seq![
        StdAppStep::Print("cargo:rerun-if-changed="@ + path_join(search, lib + name + ".a"@)),
        StdAppStep::Print("cargo:rustc-link-lib="@ + name),
    ]);
}

/// The steps of linking the enclave archives of `metadata` from `search`.
fn enclave_link_actions(search: &str, metadata: &Vec<CargoSgxOutputMetadata>) -> (r: Option<
    Vec<StdAppAction>,
>)
    ensures
        match enclave_link_steps(search@, archives_of(metadata@)) {
            None => r is None,
            Some(steps) => r matches Some(v) && actions_view(v@) == steps,
        },
{
    let mut out: Vec<StdAppAction> = Vec::new();
    let mut i: usize = 0;
    assert(archives_of(metadata@).subrange(0, 0) =~= Seq::<Seq<char>>::empty());
    assert(actions_view(out@) =~= Seq::<StdAppStep>::empty());
    while i < metadata.len()
        invariant
            i <= metadata@.len(),
            enclave_link_steps(search@, archives_of(metadata@).subrange(0, i as int)) == Some(
                actions_view(out@),
            ),
        decreases metadata@.len() - i,
    {
        let ghost done = archives_of(metadata@).subrange(0, i + 1);
        assert(done.drop_last() =~= archives_of(metadata@).subrange(0, i as int));
        assert(done.last() == metadata@[i as int].enclave_archive@);
        let stem = match file_stem_of(metadata[i].enclave_archive.as_str()) {
            Some(s) => s,
            None => {
                proof {
                    lemma_link_steps_none_extends(search@, archives_of(metadata@), i + 1);
                }
                return None;
            },
        };
        let name = str_trim_start_matches(stem.as_str(), "lib");
        let lib_file = concat_str(concat_str("lib", name.as_str()).as_str(), ".a");
        let ghost before = out@;
        out.push(
            StdAppAction::Print(
                concat_str("cargo:rerun-if-changed=", join(search, lib_file.as_str()).as_str()),
            ),
        );
        out.push(StdAppAction::Print(concat_str("cargo:rustc-link-lib=", name.as_str())));
        i += 1;
        assert(actions_view(out@) =~= actions_view(before) + seq![
            StdAppStep::Print("cargo:rerun-if-changed="@ + path_join(search@, "lib"@ + name@ + ".a"@)),
            StdAppStep::Print("cargo:rustc-link-lib="@ + name@),
        ]);
    }
    assert(archives_of(metadata@).subrange(0, metadata@.len() as int) =~= archives_of(metadata@));
    Some(out)
}

/// The steps of building and linking the packages of `pkgs`.
fn compat_build_actions(
    cargo: &str,
    release: bool,
    target_dir: &str,
    pkgs: &Vec<(String, String)>,
) -> (r: Vec<StdAppAction>)
    ensures
        actions_view(r@) == compat_build_steps(cargo@, release, target_dir@, pairs_view(pkgs@)),
{
    let mut out: Vec<StdAppAction> = Vec::new();
    let mut i: usize = 0;
    assert(pairs_view(pkgs@).subrange(0, 0) =~= Seq::<(Seq<char>, Seq<char>)>::empty());
    assert(actions_view(out@) =~= Seq::<StdAppStep>::empty());
    while i < pkgs.len()
        invariant
            i <= pkgs@.len(),
            compat_build_steps(cargo@, release, target_dir@, pairs_view(pkgs@).subrange(0, i as int))
                == actions_view(out@),
        decreases pkgs@.len() - i,
    {
        let ghost done = pairs_view(pkgs@).subrange(0, i + 1);
        assert(done.drop_last() =~= pairs_view(pkgs@).subrange(0, i as int));
        let mut args: Vec<String> = Vec::new();
        push_arg(&mut args, "build");
        if release {
            push_arg(&mut args, "--release");
        }
        push_arg(&mut args, "--target-dir");
        push_arg(&mut args, target_dir);
        push_arg(&mut args, "-p");
        push_arg(&mut args, pkgs[i].1.as_str());
        push_arg(&mut args, "--color");
        push_arg(&mut args, "never");
        assert(strings_view(args@) =~= cargo_build_args(release, target_dir@, pkgs@[i as int].1@));
        let ghost before = out@;
        out.push(StdAppAction::RunCargo { program: owned(cargo), args });
        out.push(StdAppAction::Print(concat_str("cargo:rustc-link-lib=", pkgs[i].0.as_str())));
        i += 1;
        assert(actions_view(out@) =~= actions_view(before) + seq![
            StdAppStep::RunCargo(cargo@, cargo_build_args(release, target_dir@, done.last().1)),
            StdAppStep::Print("cargo:rustc-link-lib="@ + done.last().0),
        ]);
    }
    assert(pairs_view(pkgs@).subrange(0, pkgs@.len() as int) =~= pairs_view(pkgs@));
    out
}

/// What the std build of an application does, in order. `output` is what
/// `cargo sgx` hands over, if it runs the build; `pkgs` are the packages
/// named by the manifest, which compatibility mode builds. `None` when a
/// directory or file name that the build needs does not exist.
/// The actions of the std build in compatibility mode.
fn compat_actions(
    pkg_name: &str,
    search: &str,
    profile: &str,
    cargo: &str,
    pkgs: &Vec<(String, String)>,
) -> (r: Option<Vec<StdAppAction>>)
    ensures
        match compat_steps(pkg_name@, search@, profile@, cargo@, pairs_view(pkgs@)) {
            None => r is None,
            Some(steps) => r matches Some(v) && actions_view(v@) == steps,
        },
{
    let origin = match parent_of(search) {
        None => return None,
        Some(o) => o,
    };
    let new_target = join(origin.as_str(), "tmp-target");
    let profile_dir = join(new_target.as_str(), profile);
    let origin_profile = join(origin.as_str(), profile);
    let mut out: Vec<StdAppAction> = Vec::new();
    let warning = concat_str(
        concat_str("cargo:warning=", pkg_name).as_str(),
        " is intended to build from `cargo sgx build`, please try install it by `cargo install cargo-sgx`, now will goto compatibility mode (rebuild everytime)",
    );
    out.push(StdAppAction::Print(warning));
    out.push(StdAppAction::Print(owned("cargo:rerun-if-changed=compatibility mode")));
    out.push(StdAppAction::CreateDirAll(profile_dir.clone()));
    out.push(
        StdAppAction::Symlink {
            original: join(origin_profile.as_str(), "build"),
            link: join(profile_dir.as_str(), "build"),
        },
    );
    out.push(
        StdAppAction::Symlink {
            original: join(origin_profile.as_str(), "deps"),
            link: join(profile_dir.as_str(), "deps"),
        },
    );
    out.push(
        StdAppAction::Print(
            concat_str("cargo:rustc-link-search=native=", profile_dir.as_str()),
        ),
    );
    let ghost head = actions_view(out@);
    let release = owned(profile) == owned("release");
    let mut builds = compat_build_actions(
        cargo,
        release,
        new_target.as_str(),
        pkgs,
    );
    let ghost tail = actions_view(builds@);
    out.append(&mut builds);
    assert(actions_view(out@) =~= head + tail);
    Some(out)
}

pub fn std_app_actions(env: &Env, output: &Option<CargoSgxOutput>, pkgs: &Vec<(String, String)>) -> (r:
    Option<Vec<StdAppAction>>)
    requires
        env.pkg_name is Some,
        env.out_dir is Some,
        output is None ==> env.profile is Some,
        output is None && pkgs@.len() > 0 ==> env.cargo is Some,
    ensures
        match std_app_steps(
            env.pkg_name->0@,
            env.out_dir->0@,
            output_archives(*output),
            text_or_empty(env.profile),
            text_or_empty(env.cargo),
            pairs_view(pkgs@),
        ) {
            None => r is None,
            Some(steps) => r matches Some(v) && actions_view(v@) == steps,
        },
{
    let pkg_name = env.pkg_name();
    let out_dir = env.out_dir();
    let search = match parent_of(out_dir.as_str()) {
        None => return None,
        Some(a) => match parent_of(a.as_str()) {
            None => return None,
            Some(b) => match parent_of(b.as_str()) {
                None => return None,
                Some(c) => c,
            },
        },
    };
    match output {
        Some(o) => {
            let steps = match enclave_link_actions(search.as_str(), &o.metadata) {
                None => return None,
                Some(s) => s,
            };
            let mut out: Vec<StdAppAction> = Vec::new();
            out.push(
                StdAppAction::Print(concat_str("cargo:rustc-link-search=native=", search.as_str())),
            );
            let ghost first = actions_view(out@);
            let mut steps = steps;
            let ghost rest = actions_view(steps@);
            out.append(&mut steps);
            assert(actions_view(out@) =~= first + rest);
            Some(out)
        },
        None => {
            let profile = match &env.profile {
                Some(p) => p.clone(),
                None => String::new(),
            };
            let cargo = match &env.cargo {
                Some(c) => c.clone(),
                None => String::new(),
            };
            compat_actions(pkg_name.as_str(), search.as_str(), profile.as_str(), cargo.as_str(), pkgs)
        },
    }
}

} // verus!

verus! {

/// Whether the build profile is `release`, which cargo builds with
/// `--release`.
pub open spec fn is_release(profile: Seq<char>) -> bool {
    profile == "release"@
}

/// `step` runs `cargo` to build the package `pkg` into the target directory
/// `target`, in release mode exactly when `release`.
pub open spec fn cargo_builds(
    step: StdAppStep,
    cargo: Seq<char>,
    target: Seq<char>,
    pkg: Seq<char>,
    release: bool,
) -> bool {
    let o: int = if release {
        2
    } else {
        1
    };
    step matches StdAppStep::RunCargo(c, a) && c == cargo && a[0] == "build"@ && (release ==> a[1]
        == "--release"@) && a[o] == "--target-dir"@ && a[o + 1] == target && a[o + 2] == "-p"@
        && a[o + 3] == pkg
}

/// The steps `steps[start + 2k]` and `steps[start + 2k + 1]` build the
/// package of `pkgs[k]` into `target` and link its library.
pub open spec fn builds_and_links_at(
    steps: Seq<StdAppStep>,
    start: int,
    cargo: Seq<char>,
    target: Seq<char>,
    release: bool,
    pkgs: Seq<(Seq<char>, Seq<char>)>,
    k: int,
) -> bool {
    &&& cargo_builds(steps[start + 2 * k], cargo, target, pkgs[k].1, release)
    &&& steps[start + 2 * k + 1] == StdAppStep::Print("cargo:rustc-link-lib="@ + pkgs[k].0)
}

proof fn lemma_compat_build_steps_shape(
    cargo: Seq<char>,
    release: bool,
    target: Seq<char>,
    pkgs: Seq<(Seq<char>, Seq<char>)>,
)
    ensures
        compat_build_steps(cargo, release, target, pkgs).len() == 2 * pkgs.len(),
        forall|k: int|
            0 <= k < pkgs.len() ==> #[trigger] builds_and_links_at(
                compat_build_steps(cargo, release, target, pkgs),
                0,
                cargo,
                target,
                release,
                pkgs,
                k,
            ),
    decreases pkgs.len(),
{
    if pkgs.len() > 0 {
        let prev = pkgs.drop_last();
        lemma_compat_build_steps_shape(cargo, release, target, prev);
        let s = compat_build_steps(cargo, release, target, pkgs);
        let p = compat_build_steps(cargo, release, target, prev);
        let tail = seq![
            StdAppStep::RunCargo(cargo, cargo_build_args(release, target, pkgs.last().1)),
            StdAppStep::Print("cargo:rustc-link-lib="@ + pkgs.last().0),
        ];
        assert(s == p + tail);
        assert forall|k: int| 0 <= k < pkgs.len() implies #[trigger] builds_and_links_at(
            s,
            0,
            cargo,
            target,
            release,
            pkgs,
            k,
        ) by {
            if k < prev.len() {
                assert(builds_and_links_at(p, 0, cargo, target, release, prev, k));
                assert(prev[k] == pkgs[k]);
                assert(s[2 * k] == p[2 * k]);
                assert(s[2 * k + 1] == p[2 * k + 1]);
            } else {
                assert(s[2 * k] == tail[0]);
                assert(s[2 * k + 1] == tail[1]);
                let a = cargo_build_args(release, target, pkgs[k].1);
                if release {
                    assert(a =~= seq!["build"@, "--release"@, "--target-dir"@, target, "-p"@,
                        pkgs[k].1, "--color"@, "never"@]);
                } else {
                    assert(a =~= seq!["build"@, "--target-dir"@, target, "-p"@, pkgs[k].1,
                        "--color"@, "never"@]);
                }
            }
        }
    }
}

/// In compatibility mode every directory of the build is that of the
/// `PROFILE` given: it creates `tmp-target/<profile>` beside the target
/// directory, links `<profile>/build` and `<profile>/deps` of the target
/// directory into it, and searches it for libraries; each enclave package
/// is built by cargo into `tmp-target` (whose `<profile>` directory that
/// is, in release mode exactly for `release`) and its library linked.
pub proof fn lemma_compat_dirs_follow_profile(
    pkg_name: Seq<char>,
    search: Seq<char>,
    profile: Seq<char>,
    cargo: Seq<char>,
    pkgs: Seq<(Seq<char>, Seq<char>)>,
)
    requires
        path_parent(search) is Some,
    ensures
        ({
            let origin = path_parent(search)->0;
            let target = path_join(origin, "tmp-target"@);
            let dir = path_join(target, profile);
            &&& compat_steps(pkg_name, search, profile, cargo, pkgs) is Some
            &&& compat_steps(pkg_name, search, profile, cargo, pkgs)->0.len() == 6 + 2 * pkgs.len()
            &&& compat_steps(pkg_name, search, profile, cargo, pkgs)->0[2] == StdAppStep::CreateDirAll(dir)
            &&& compat_steps(pkg_name, search, profile, cargo, pkgs)->0[3] == StdAppStep::Symlink(
                path_join(path_join(origin, profile), "build"@),
                path_join(dir, "build"@),
            )
            &&& compat_steps(pkg_name, search, profile, cargo, pkgs)->0[4] == StdAppStep::Symlink(
                path_join(path_join(origin, profile), "deps"@),
                path_join(dir, "deps"@),
            )
            &&& compat_steps(pkg_name, search, profile, cargo, pkgs)->0[5] == StdAppStep::Print(
                "cargo:rustc-link-search=native="@ + dir,
            )
            &&& forall|k: int|
                0 <= k < pkgs.len() ==> #[trigger] builds_and_links_at(
                    compat_steps(pkg_name, search, profile, cargo, pkgs)->0,
                    6,
                    cargo,
                    target,
                    is_release(profile),
                    pkgs,
                    k,
                )
        }),
{
    let origin = path_parent(search)->0;
    let target = path_join(origin, "tmp-target"@);
    let release = is_release(profile);
    lemma_compat_build_steps_shape(cargo, release, target, pkgs);
    let steps = compat_steps(pkg_name, search, profile, cargo, pkgs)->0;
    let b = compat_build_steps(cargo, release, target, pkgs);
    let dir = path_join(target, profile);
    let head = seq![
        StdAppStep::Print(compat_warning(pkg_name)),
        StdAppStep::Print("cargo:rerun-if-changed=compatibility mode"@),
        StdAppStep::CreateDirAll(dir),
        StdAppStep::Symlink(
            path_join(path_join(origin, profile), "build"@),
            path_join(dir, "build"@),
        ),
        StdAppStep::Symlink(path_join(path_join(origin, profile), "deps"@), path_join(dir, "deps"@)),
        StdAppStep::Print("cargo:rustc-link-search=native="@ + dir),
    ];
    assert(steps == head + b);
    assert forall|k: int| 0 <= k < pkgs.len() implies #[trigger] builds_and_links_at(
        steps,
        6,
        cargo,
        target,
        release,
        pkgs,
        k,
    ) by {
        assert(builds_and_links_at(b, 0, cargo, target, release, pkgs, k));
        assert(steps[6 + 2 * k] == b[2 * k]);
        assert(steps[6 + 2 * k + 1] == b[2 * k + 1]);
    }
}

/// A table lookup gives the value of the first entry under the key, and
/// nothing when no entry has that key.
pub proof fn lemma_table_lookup_first_entry(entries: Seq<(String, TomlValue)>, key: Seq<char>)
    ensures
        table_lookup(entries, key) is None ==> forall|i: int|
            0 <= i < entries.len() ==> (#[trigger] entries[i]).0@ != key,
        table_lookup(entries, key) is Some ==> exists|i: int|
            0 <= i < entries.len() && (#[trigger] entries[i]).0@ == key && entries[i].1
                == table_lookup(entries, key)->0 && forall|j: int|
                0 <= j < i ==> (#[trigger] entries[j]).0@ != key,
    decreases entries.len(),
{
    if entries.len() > 0 {
        let rest = entries.drop_first();
        lemma_table_lookup_first_entry(rest, key);
        if entries[0].0@ == key {
            assert(forall|j: int| 0 <= j < 0 ==> (#[trigger] entries[j]).0@ != key);
        } else {
            if table_lookup(rest, key) is None {
                assert forall|i: int| 0 <= i < entries.len() implies (#[trigger] entries[i]).0@
                    != key by {
                    if i > 0 {
                        assert(entries[i] == rest[i - 1]);
                    }
                }
            } else {
                let i = choose|i: int|
                    0 <= i < rest.len() && (#[trigger] rest[i]).0@ == key && rest[i].1
                        == table_lookup(rest, key)->0 && forall|j: int|
                        0 <= j < i ==> (#[trigger] rest[j]).0@ != key;
                assert(entries[i + 1] == rest[i]);
                assert forall|j: int| 0 <= j < i + 1 implies (#[trigger] entries[j]).0@ != key by {
                    if j > 0 {
                        assert(entries[j] == rest[j - 1]);
                    }
                }
            }
        }
    }
}

proof fn lemma_entries_packages_shape(entries: Seq<(String, TomlValue)>)
    ensures
        entries_packages(entries) is None ==> exists|k: int|
            0 <= k < entries.len() && entry_package((#[trigger] entries[k]).1) is None,
        entries_packages(entries) is Some ==> {
            &&& entries_packages(entries)->0.len() == entries.len()
            &&& forall|k: int|
                0 <= k < entries.len() ==> entry_package((#[trigger] entries[k]).1) is Some
                    && entries_packages(entries)->0[k] == (
                    entries[k].0@,
                    entry_package(entries[k].1)->0,
                )
        },
    decreases entries.len(),
{
    if entries.len() > 0 {
        let prev = entries.drop_last();
        lemma_entries_packages_shape(prev);
        let last = entries.len() - 1;
        assert(entries[last] == entries.last());
        if entries_packages(prev) is None {
            let k = choose|k: int| 0 <= k < prev.len() && entry_package((#[trigger] prev[k]).1) is None;
            assert(entries[k] == prev[k]);
        } else if entries_packages(entries) is Some {
            assert forall|k: int| 0 <= k < entries.len() implies entry_package(
                (#[trigger] entries[k]).1,
            ) is Some && entries_packages(entries)->0[k] == (
                entries[k].0@,
                entry_package(entries[k].1)->0,
            ) by {
                if k < prev.len() {
                    assert(entries[k] == prev[k]);
                }
            }
        }
    }
}

/// The entries of the `package.metadata.sgx` table of a manifest (none when
/// it is not a table).
pub open spec fn sgx_entries(manifest: TomlValue) -> Seq<(String, TomlValue)> {
    match sgx_metadata(manifest) {
        Some(TomlValue::Table(entries)) => entries@,
        _ => Seq::empty(),
    }
}

/// The enclave packages of a manifest are missing only where an entry of its
/// `package.metadata.sgx` table has no string `path` with a file name: a
/// manifest without that entry (whatever else `package.metadata` holds), or
/// with a value there that is not a table, names no enclave; otherwise each
/// entry of the table gives its library and package, in order.
pub proof fn lemma_metadata_pkgs_fail_only_on_bad_entry(manifest: TomlValue)
    ensures
        toml_get(manifest, "package"@) is None ==> spec_metadata_pkgs(manifest) == Some(
            Seq::<(Seq<char>, Seq<char>)>::empty(),
        ),
        (toml_get(manifest, "package"@) is Some && toml_get(
            toml_get(manifest, "package"@)->0,
            "metadata"@,
        ) is None) ==> spec_metadata_pkgs(manifest) == Some(
            Seq::<(Seq<char>, Seq<char>)>::empty(),
        ),
        (toml_get(manifest, "package"@) is Some && toml_get(
            toml_get(manifest, "package"@)->0,
            "metadata"@,
        ) is Some && toml_get(
            toml_get(toml_get(manifest, "package"@)->0, "metadata"@)->0,
            "sgx"@,
        ) is None) ==> spec_metadata_pkgs(manifest) == Some(Seq::<(Seq<char>, Seq<char>)>::empty()),
        (sgx_metadata(manifest) is Some && !(sgx_metadata(manifest)->0 is Table))
            ==> spec_metadata_pkgs(manifest) == Some(Seq::<(Seq<char>, Seq<char>)>::empty()),
        spec_metadata_pkgs(manifest) is None ==> (sgx_metadata(manifest) is Some
            && sgx_metadata(manifest)->0 is Table && exists|k: int|
            0 <= k < sgx_entries(manifest).len() && entry_package(
                (#[trigger] sgx_entries(manifest)[k]).1,
            ) is None),
        (sgx_metadata(manifest) is Some && sgx_metadata(manifest)->0 is Table
            && spec_metadata_pkgs(manifest) is Some) ==> {
            let entries = sgx_entries(manifest);
            &&& spec_metadata_pkgs(manifest)->0.len() == entries.len()
            &&& forall|k: int|
                0 <= k < entries.len() ==> spec_metadata_pkgs(manifest)->0[k] == (
                    (#[trigger] entries[k]).0@,
                    entry_package(entries[k].1)->0,
                )
        },
{
    match sgx_metadata(manifest) {
        Some(TomlValue::Table(entries)) => {
            lemma_entries_packages_shape(entries@);
        },
        _ => {},
    }
}

} // verus!
