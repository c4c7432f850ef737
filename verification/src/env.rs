//! The build environment: the values that the builders read from the
//! process environment, and the paths and settings derived from them.
use vstd::prelude::*;
use crate::path::{join, lemma_join_empty_base, path_join, path_of};
use crate::text::{concat_str, contains, owned, str_contains};

verus! {

/// The default location of the Intel SGX SDK when `SGX_SDK` is not set.
pub const DEFAULT_SGX_SDK: &'static str = "/opt/intel/sgxsdk";

/// The default SGX mode when `SGX_MODE` is not set.
pub const DEFAULT_SGX_MODE: &'static str = "HW";

/// The name of the Rust target that enclaves are built for.
pub const SGX_TARGET_NAME: &'static str = "x86_64-automata-linux-sgx";

/// A snapshot of what the builders read from their environment. Each
/// optional field is `None` when the variable is unset (or not Unicode).
pub struct Env {
    /// `SGX_SDK`
    pub sgx_sdk: Option<String>,
    /// `SGX_MODE`
    pub sgx_mode: Option<String>,
    /// `CARGO_CFG_TARGET_ARCH`
    pub target_arch: Option<String>,
    /// Whether the builder itself runs with 64-bit pointers.
    pub host_is_64bit: bool,
    /// `AUTOMATA_SGX_BUILDER_DIR`, fixed when the builder was compiled.
    pub builder_dir: String,
    /// `TEACLAVE_SGX_SDK_ROOT_DIR`, fixed when the builder was compiled.
    pub teaclave_sdk_root_dir: String,
    /// `OUT_DIR`
    pub out_dir: Option<String>,
    /// `CARGO_PKG_NAME`
    pub pkg_name: Option<String>,
    /// `CARGO_SGX_OUTPUT`, the JSON that `cargo sgx` hands over.
    pub cargo_sgx_output: Option<String>,
    /// `PROFILE`
    pub profile: Option<String>,
    /// `CARGO`
    pub cargo: Option<String>,
}

/// The description of the enclaves that `cargo sgx` hands to the build.
pub struct CargoSgxOutput {
    pub version: String,
    /// Whether the application is built in std mode (without enclaves).
    pub std_mode: bool,
    pub metadata: Vec<CargoSgxOutputMetadata>,
}

/// The files of one enclave, as `cargo sgx` describes them.
pub struct CargoSgxOutputMetadata {
    pub edl: String,
    pub lds: String,
    pub key: String,
    pub config: String,
    pub enclave_archive: String,
    pub output_signed_so: String,
}

/// The value of a variable, or `def` when it is unset.
pub open spec fn env_or(v: Option<String>, def: Seq<char>) -> Seq<char> {
    match v {
        Some(s) => s@,
        None => def,
    }
}

/// The value of a variable, or `def` when it is unset.
pub fn get_env(v: &Option<String>, def: &str) -> (r: String)
    ensures
        r@ == env_or(*v, def@),
{
    match v {
        Some(s) => s.clone(),
        None => owned(def),
    }
}

/// The directive that asks cargo to rerun the build script when the
/// variable `key` changes; it goes with every read of a variable whose
/// default the build may fall back to.
pub fn rerun_if_env_changed(key: &str) -> (r: String)
    ensures
        r@ == "cargo:rerun-if-env-changed="@ + key@,
{
    concat_str("cargo:rerun-if-env-changed=", key)
}

impl Env {
    pub open spec fn spec_is_64bits(&self) -> bool {
        match self.target_arch {
            Some(arch) => contains(arch@, "64"@),
            None => self.host_is_64bit,
        }
    }

    pub open spec fn spec_sdk_path(&self) -> Seq<char> {
        path_join(Seq::empty(), env_or(self.sgx_sdk, DEFAULT_SGX_SDK@))
    }

    pub open spec fn spec_sdk_root_dir(&self) -> Seq<char> {
        path_join(Seq::empty(), self.teaclave_sdk_root_dir@)
    }

    pub open spec fn spec_sgx_builder_path(&self) -> Seq<char> {
        path_join(Seq::empty(), self.builder_dir@)
    }

    pub open spec fn spec_sgx_bin_path(&self) -> Seq<char> {
        path_join(
            path_join(self.spec_sdk_path(), "bin"@),
            if self.spec_is_64bits() {
                "x64"@
            } else {
                "x86"@
            },
        )
    }

    pub open spec fn spec_sgx_lib_path(&self) -> Seq<char> {
        path_join(
            self.spec_sdk_path(),
            if self.spec_is_64bits() {
                "lib64"@
            } else {
                "lib"@
            },
        )
    }

    pub open spec fn spec_rust_target_path(&self) -> Seq<char> {
        path_join(self.spec_sdk_root_dir(), "rustlib"@)
    }

    pub open spec fn spec_custom_edl_path(&self) -> Seq<char> {
        path_join(path_join(self.spec_sdk_root_dir(), "sgx_edl"@), "edl"@)
    }

    pub open spec fn spec_custom_common_path(&self) -> Seq<char> {
        path_join(self.spec_sdk_root_dir(), "common"@)
    }

    /// The flag that selects the word size of the target: `-m64` or `-m32`.
    pub open spec fn spec_word_flag(&self) -> &'static str {
        if self.spec_is_64bits() {
            "-m64"
        } else {
            "-m32"
        }
    }

    /// The raw `CARGO_SGX_OUTPUT` JSON when the build runs under `cargo sgx`
    /// (the variable is set and not empty), else `None`.
    pub fn cargo_sgx_output_json(&self) -> (res: Option<String>)
        ensures
            env_or(self.cargo_sgx_output, Seq::empty()).len() == 0 ==> res is None,
            env_or(self.cargo_sgx_output, Seq::empty()).len() > 0 ==> (res matches Some(s) && s@
                == env_or(self.cargo_sgx_output, Seq::empty())),
    {
        let data = get_env(&self.cargo_sgx_output, "");
        proof {
            reveal_strlit("");
        }
        if data.as_str().is_empty() {
            None
        } else {
            Some(data)
        }
    }

    /// The directory of this builder crate.
    pub fn sgx_builder_path(&self) -> (r: String)
        ensures
            r@ == self.spec_sgx_builder_path(),
    {
        path_of(self.builder_dir.as_str())
    }

    /// Whether the target has 64-bit words: `CARGO_CFG_TARGET_ARCH` names
    /// one with `64` in it, or, when that is unset, the builder's own.
    pub fn is_64bits(&self) -> (r: bool)
        ensures
            r == self.spec_is_64bits(),
    {
        match &self.target_arch {
            Some(arch) => str_contains(arch.as_str(), "64"),
            None => self.host_is_64bit,
        }
    }

    /// The directory of the SGX SDK tools: `bin/x64` or `bin/x86`.
    pub fn sgx_bin_path(&self) -> (r: String)
        ensures
            r@ == self.spec_sgx_bin_path(),
    {
        let bin = join(self.sdk_path().as_str(), "bin");
        let arch = if self.is_64bits() {
            "x64"
        } else {
            "x86"
        };
        join(bin.as_str(), arch)
    }

    /// The SGX SDK: `SGX_SDK`, or `/opt/intel/sgxsdk`.
    pub fn sdk_path(&self) -> (r: String)
        ensures
            r@ == self.spec_sdk_path(),
    {
        let sdk = get_env(&self.sgx_sdk, DEFAULT_SGX_SDK);
        path_of(sdk.as_str())
    }

    /// The root of the Teaclave SGX SDK sources.
    pub fn sdk_root_dir(&self) -> (r: String)
        ensures
            r@ == self.spec_sdk_root_dir(),
    {
        path_of(self.teaclave_sdk_root_dir.as_str())
    }

    /// `OUT_DIR`, which cargo always sets for a build script.
    pub fn out_dir(&self) -> (r: String)
        requires
            self.out_dir is Some,
        ensures
            r@ == path_join(Seq::empty(), self.out_dir->0@),
    {
        match &self.out_dir {
            Some(d) => path_of(d.as_str()),
            None => String::new(),
        }
    }

    /// `CARGO_PKG_NAME`, which cargo always sets for a build script.
    pub fn pkg_name(&self) -> (r: String)
        requires
            self.pkg_name is Some,
        ensures
            r@ == self.pkg_name->0@,
    {
        match &self.pkg_name {
            Some(n) => n.clone(),
            None => String::new(),
        }
    }

    /// The SGX SDK libraries: `lib64` or `lib` under the SDK.
    pub fn sgx_lib_path(&self) -> (r: String)
        ensures
            r@ == self.spec_sgx_lib_path(),
    {
        let sdk_path = self.sdk_path();
        if self.is_64bits() {
            join(sdk_path.as_str(), "lib64")
        } else {
            join(sdk_path.as_str(), "lib")
        }
    }

    /// The SGX mode: `SGX_MODE`, or `HW`.
    pub fn sgx_mode(&self) -> (r: String)
        ensures
            r@ == env_or(self.sgx_mode, DEFAULT_SGX_MODE@),
    {
        get_env(&self.sgx_mode, DEFAULT_SGX_MODE)
    }

    /// The directory of the Rust target descriptions.
    pub fn rust_target_path(&self) -> (r: String)
        ensures
            r@ == self.spec_rust_target_path(),
    {
        join(self.sdk_root_dir().as_str(), "rustlib")
    }

    /// The name of the enclave target.
    pub fn sgx_target_name() -> (r: String)
        ensures
            r@ == SGX_TARGET_NAME@,
    {
        owned(SGX_TARGET_NAME)
    }

    /// The target description of the enclave target.
    pub fn sgx_target_json(&self) -> (r: String)
        ensures
            r@ == path_join(self.spec_rust_target_path(), SGX_TARGET_NAME@ + ".json"@),
    {
        let mut file = Self::sgx_target_name();
        file.append(".json");
        join(self.rust_target_path().as_str(), file.as_str())
    }

    /// The C flags common to all SGX builds: the word-size flag.
    pub fn sgx_common_cflags(&self) -> (r: Vec<&'static str>)
        ensures
            r@ == seq![self.spec_word_flag()],
    {
        let mut r: Vec<&'static str> = Vec::new();
        if self.is_64bits() {
            r.push("-m64");
        } else {
            r.push("-m32");
        }
        r
    }

    /// The EDL files of the Teaclave SDK.
    pub fn custom_edl_path(&self) -> (r: String)
        ensures
            r@ == self.spec_custom_edl_path(),
    {
        let edl = join(self.sdk_root_dir().as_str(), "sgx_edl");
        join(edl.as_str(), "edl")
    }

    /// The common headers and files of the Teaclave SDK.
    pub fn custom_common_path(&self) -> (r: String)
        ensures
            r@ == self.spec_custom_common_path(),
    {
        join(self.sdk_root_dir().as_str(), "common")
    }
}


/// The SDK tools, the SDK libraries and the C flags agree on the word size
/// of the target: `bin/x64`, `lib64` and `-m64` go together, as do
/// `bin/x86`, `lib` and `-m32`.
pub proof fn lemma_word_size_agrees(env: &Env)
    ensures
        env.spec_is_64bits() ==> {
            &&& env.spec_sgx_bin_path() == path_join(path_join(env.spec_sdk_path(), "bin"@), "x64"@)
            &&& env.spec_sgx_lib_path() == path_join(env.spec_sdk_path(), "lib64"@)
            &&& env.spec_word_flag() == "-m64"
        },
        !env.spec_is_64bits() ==> {
            &&& env.spec_sgx_bin_path() == path_join(path_join(env.spec_sdk_path(), "bin"@), "x86"@)
            &&& env.spec_sgx_lib_path() == path_join(env.spec_sdk_path(), "lib"@)
            &&& env.spec_word_flag() == "-m32"
        },
{
}


/// The SDK is the directory that `SGX_SDK` names, or `/opt/intel/sgxsdk`
/// when it is unset; its tools and libraries lie under it.
pub proof fn lemma_sdk_follows_sgx_sdk(env: &Env)
    ensures
        env.sgx_sdk matches Some(sdk) ==> env.spec_sdk_path() == sdk@,
        env.sgx_sdk is None ==> env.spec_sdk_path() == DEFAULT_SGX_SDK@,
        env.spec_sgx_lib_path() == path_join(
            env.spec_sdk_path(),
            if env.spec_is_64bits() {
                "lib64"@
            } else {
                "lib"@
            },
        ),
{
    match env.sgx_sdk {
        Some(sdk) => lemma_join_empty_base(sdk@),
        None => lemma_join_empty_base(DEFAULT_SGX_SDK@),
    }
}

} // verus!
