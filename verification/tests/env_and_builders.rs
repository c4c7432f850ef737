use automata_sgx_sdk::builders::{
    BuildMode, BuildSettings, EdlBuilder, Edger8r, EnclaveSharedObjectBuilder, LdsBuilder,
    SgxSigner, TrustedProxyBuilder, UntrustedProxyBuilder, ENCLAVE_CONFIG,
};
use automata_sgx_sdk::env::{get_env, rerun_if_env_changed, Env};

fn env_with(sgx_sdk: Option<&str>, arch: Option<&str>) -> Env {
    Env {
        sgx_sdk: sgx_sdk.map(|s| s.to_string()),
        sgx_mode: None,
        target_arch: arch.map(|s| s.to_string()),
        host_is_64bit: true,
        builder_dir: "/src/builder".to_string(),
        teaclave_sdk_root_dir: "/src/teaclave".to_string(),
        out_dir: Some("/t/debug/build/app-1/out".to_string()),
        pkg_name: Some("app".to_string()),
        cargo_sgx_output: None,
        profile: Some("debug".to_string()),
        cargo: Some("cargo".to_string()),
    }
}

#[test]
fn env_defaults_and_overrides() {
    let env = env_with(None, Some("x86_64"));
    assert_eq!(env.sdk_path(), "/opt/intel/sgxsdk");
    assert_eq!(env.sgx_mode(), "HW");
    assert!(env.is_64bits());
    assert_eq!(env.sgx_bin_path(), "/opt/intel/sgxsdk/bin/x64");
    assert_eq!(env.sgx_lib_path(), "/opt/intel/sgxsdk/lib64");
    assert_eq!(env.sgx_common_cflags(), vec!["-m64"]);
    assert_eq!(env.sdk_root_dir(), "/src/teaclave");
    assert_eq!(env.sgx_builder_path(), "/src/builder");
    assert_eq!(env.rust_target_path(), "/src/teaclave/rustlib");
    assert_eq!(Env::sgx_target_name(), "x86_64-automata-linux-sgx");
    assert_eq!(env.sgx_target_json(), "/src/teaclave/rustlib/x86_64-automata-linux-sgx.json");
    assert_eq!(env.custom_edl_path(), "/src/teaclave/sgx_edl/edl");
    assert_eq!(env.custom_common_path(), "/src/teaclave/common");
    assert_eq!(env.out_dir(), "/t/debug/build/app-1/out");
    assert_eq!(env.pkg_name(), "app");

    let env32 = env_with(Some("/sdk"), Some("x86"));
    assert!(!env32.is_64bits());
    assert_eq!(env32.sgx_bin_path(), "/sdk/bin/x86");
    assert_eq!(env32.sgx_lib_path(), "/sdk/lib");
    assert_eq!(env32.sgx_common_cflags(), vec!["-m32"]);

    let mut host = env_with(None, None);
    assert!(host.is_64bits());
    host.host_is_64bit = false;
    assert!(!host.is_64bits());

    assert_eq!(rerun_if_env_changed("SGX_SDK"), "cargo:rerun-if-env-changed=SGX_SDK");
    assert_eq!(get_env(&None, "dflt"), "dflt");
    assert_eq!(get_env(&Some("v".to_string()), "dflt"), "v");
}

#[test]
fn cargo_sgx_output_is_read_only_when_not_empty() {
    let mut env = env_with(None, None);
    assert_eq!(env.cargo_sgx_output_json(), None);
    env.cargo_sgx_output = Some(String::new());
    assert_eq!(env.cargo_sgx_output_json(), None);
    env.cargo_sgx_output = Some("{}".to_string());
    assert_eq!(env.cargo_sgx_output_json(), Some("{}".to_string()));
}

#[test]
fn build_mode_settings_and_tracing() {
    let mut s = BuildSettings::new();
    BuildMode::BuildScript.apply_build(&mut s);
    assert_eq!(s.target, None);
    assert_eq!(s.opt_level, None);
    BuildMode::Shell.apply_build(&mut s);
    assert_eq!(s.target, Some("test"));
    assert_eq!(s.host, Some("test"));
    assert_eq!(s.opt_level, Some(2));
    assert_eq!(s.shared_flag, Some(false));
    assert_eq!(s.cargo_metadata, Some(false));
    assert_eq!(
        BuildMode::BuildScript.trace_file("sgx/enclave.lds"),
        Some("cargo:rerun-if-changed=sgx/enclave.lds".to_string())
    );
    assert_eq!(BuildMode::Shell.trace_file("sgx/enclave.lds"), None);
}

#[test]
fn untrusted_proxy_compiles_next_to_its_output() {
    let env = env_with(None, Some("x86_64"));
    let b = UntrustedProxyBuilder::new(BuildMode::Shell);
    let plan = b.compile_plan(&env, "gen/enclave_u.c", "out/libenclave_u.a").unwrap();
    assert_eq!(plan.out_dir, "out");
    assert_eq!(plan.lib_name, "enclave_u");
    assert_eq!(plan.file, "gen/enclave_u.c");
    assert_eq!(plan.settings.target, Some("test"));
    assert_eq!(plan.flags.len(), 26);
    assert_eq!(&plan.flags[23..], &["-fPIC", "-Wno-attributes", "-m64"]);
    assert_eq!(
        plan.includes,
        vec![
            "/opt/intel/sgxsdk/include".to_string(),
            "/src/teaclave/common/inc".to_string(),
            "/src/teaclave/sgx_edl/edl".to_string()
        ]
    );
    let plan = b.compile_plan(&env, "u.c", "libx_u.a").unwrap();
    assert_eq!(plan.out_dir, ".");
    assert!(b.compile_plan(&env, "u.c", "/").is_none());
}

#[test]
fn trusted_proxy_compiles_to_an_object() {
    let env = env_with(None, Some("x86"));
    let c = TrustedProxyBuilder::new(BuildMode::BuildScript).compile_command(&env, "t.c", "t.o");
    assert_eq!(c.args, vec!["-c", "t.c", "-o", "t.o"]);
    assert_eq!(c.flags.len(), 23 + 6 + 1);
    assert_eq!(c.flags[23], "-ffreestanding");
    assert_eq!(*c.flags.last().unwrap(), "-m32");
    assert_eq!(c.settings.target, None);
    assert_eq!(
        c.includes,
        vec![
            "/src/teaclave/common/inc".to_string(),
            "/src/teaclave/common/inc/tlibc".to_string(),
            "/src/teaclave/sgx_edl/edl".to_string()
        ]
    );
}

#[test]
fn enclave_shared_object_link_arguments() {
    let b = EnclaveSharedObjectBuilder::new(BuildMode::BuildScript);
    let c = b
        .link_command("out/enclave_t.o", "target/release/libmy_enclave.a", "sgx/enclave.lds", "out/enclave.so")
        .unwrap();
    let expected: Vec<&str> = vec![
        "out/enclave_t.o",
        "-o",
        "out/enclave.so",
        "-Wl,-z,relro,-z,now,-z,noexecstack",
        "-Wl,-Bstatic",
        "-Wl,-Bsymbolic",
        "-Wl,--no-undefined",
        "-Wl,-pie",
        "-Wl,--export-dynamic",
        "-Wl,--gc-sections",
        "-Wl,--no-undefined",
        "-nostdlib",
        "-nodefaultlibs",
        "-nostartfiles",
        "-Wl,--version-script=sgx/enclave.lds",
        "-Wl,--start-group",
        "-Ltarget/release",
        "-lmy_enclave",
        "-Wl,--end-group",
    ];
    assert_eq!(c.args, expected);
    assert!(c.flags.is_empty() && c.includes.is_empty());
    assert!(b.link_command("t.o", "", "l", "o").is_none());
}

#[test]
fn edger8r_command_and_output() {
    let env = env_with(None, Some("x86_64"));
    let mut e = Edger8r::new(BuildMode::BuildScript, &env);
    assert_eq!(e.path, "/opt/intel/sgxsdk/bin/x64/sgx_edger8r");
    assert_eq!(
        e.search_path,
        vec![
            "/src/teaclave/sgx_edl/edl".to_string(),
            "/src/builder/edl".to_string(),
            "/src/teaclave/common/inc".to_string()
        ]
    );
    e.add_search_path("extra".to_string());
    let c = e.command("sgx/enclave.edl", true, "build/gen");
    assert_eq!(c.program, e.path);
    assert_eq!(c.current_dir, Some("build".to_string()));
    assert_eq!(
        c.args,
        vec![
            "--trusted", "sgx/enclave.edl", "--trusted-dir", "build/gen",
            "--search-path", "/src/teaclave/sgx_edl/edl",
            "--search-path", "/src/builder/edl",
            "--search-path", "/src/teaclave/common/inc",
            "--search-path", "extra",
        ]
    );
    let u = e.command("e.edl", false, "gen");
    assert_eq!(u.current_dir, None);
    assert_eq!(&u.args[..4], &["--untrusted", "e.edl", "--untrusted-dir", "gen"]);
    assert!(e.try_command("e.edl", true, "/").is_none());
    assert!(e.try_command("e.edl", true, "").is_none());
    assert_eq!(e.try_command("e.edl", true, "a/b").unwrap().current_dir, Some("a".to_string()));
    assert_eq!(Edger8r::output_path("sgx/enclave.edl", true, "out"), "out/enclave_t.c");
    assert_eq!(Edger8r::output_path("sgx/enclave.edl", false, "out"), "out/enclave_u.c");
    assert_eq!(Edger8r::output_path("a.b.edl", false, ""), "a.b_u.c");
    assert_eq!(Edger8r::output_path(".hidden", true, "out/"), "out/.hidden_t.c");
    assert_eq!(Edger8r::try_output_path("sgx/enclave.edl", true, "o"), Some("o/enclave_t.c".to_string()));
    assert_eq!(Edger8r::try_output_path("..", false, "out"), None);
    assert_eq!(Edger8r::try_output_path("/", false, "out"), None);
}

#[test]
fn linker_script_exports_the_entry_symbols() {
    let text = LdsBuilder::new().content("libenclave.so");
    assert_eq!(
        text,
        "libenclave.so\n{\n\tglobal:\n\t\tg_global_data_hyper;\n\t\tg_global_data_sim;\n\t\tg_global_data;\n\t\tenclave_entry;\n\t\tg_peak_heap_used;\n\t\tg_peak_rsrv_mem_committed;\n\tlocal:\n\t\t*;\n};\n"
    );
}

#[test]
fn signer_arguments_and_configuration() {
    let env = env_with(None, Some("x86_64"));
    let s = SgxSigner::new(BuildMode::BuildScript, &env);
    assert_eq!(s.bin, "/opt/intel/sgxsdk/bin/x64/sgx_sign");
    let c = s.sign_command("cfg.xml", "e.signed.so", "e.so", "key.pem");
    assert_eq!(c.program, s.bin);
    assert_eq!(c.current_dir, None);
    assert_eq!(
        c.args,
        vec!["sign", "-config", "cfg.xml", "-out", "e.signed.so", "-enclave", "e.so", "-key", "key.pem"]
    );
    assert_eq!(s.config(), ENCLAVE_CONFIG);
    assert!(ENCLAVE_CONFIG.starts_with("<EnclaveConfiguration>\n  <ProdID>0</ProdID>"));
    assert!(ENCLAVE_CONFIG.contains("<TCSNum>33</TCSNum>"));
    assert!(ENCLAVE_CONFIG.ends_with("</EnclaveConfiguration>"));
}

#[test]
fn edl_file_lists_imports_and_trusted_functions() {
    let mut b = EdlBuilder::new();
    b.preset_imports().add_import("my \"odd\".edl").add_trusted("public sgx_status_t run();");
    assert_eq!(b.imports.len(), 10);
    let text = b.content();
    let expected = "enclave {\n\
\tfrom \"sgx_env.edl\" import *;\n\
\tfrom \"sgx_sync.edl\" import *;\n\
\tfrom \"sgx_stdio.edl\" import *;\n\
\tfrom \"sgx_net.edl\" import *;\n\
\tfrom \"sgx_fs.edl\" import *;\n\
\tfrom \"sgx_thread.edl\" import *;\n\
\tfrom \"sgx_process.edl\" import *;\n\
\tfrom \"sgx_tstd.edl\" import *;\n\
\tfrom \"sgx_cpuid.edl\" import *;\n\
\tfrom \"my \\\"odd\\\".edl\" import *;\n\
\ttrusted {\n\
\t\tpublic sgx_status_t run();\n\
\t};\n\
};\n";
    assert_eq!(text, expected);
    assert_eq!(EdlBuilder::new().content(), "enclave {\n\ttrusted {\n\t};\n};\n");
}
