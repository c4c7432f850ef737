use automata_sgx_sdk::build_dep::teaclave_sdk_path;
use automata_sgx_sdk::env::{CargoSgxOutput, CargoSgxOutputMetadata, Env};
use automata_sgx_sdk::std_app::{
    build_app, get_metadata_pkgs, metadata_pkgs, metadata_pkgs_of_manifest, std_app_actions,
    AppBuild, StdAppAction, TomlValue,
};

fn s(x: &str) -> String {
    x.to_string()
}

fn table(entries: Vec<(&str, TomlValue)>) -> TomlValue {
    TomlValue::Table(entries.into_iter().map(|(k, v)| (s(k), v)).collect())
}

fn env() -> Env {
    Env {
        sgx_sdk: None,
        sgx_mode: None,
        target_arch: None,
        host_is_64bit: true,
        builder_dir: s("/b"),
        teaclave_sdk_root_dir: s("/t"),
        out_dir: Some(s("/w/target/debug/build/app-123/out")),
        pkg_name: Some(s("app")),
        cargo_sgx_output: None,
        profile: Some(s("release")),
        cargo: Some(s("/bin/cargo")),
    }
}

fn meta(archive: &str) -> CargoSgxOutputMetadata {
    CargoSgxOutputMetadata {
        edl: s("sgx/enclave.edl"),
        lds: s("sgx/enclave.lds"),
        key: s("sgx/private.pem"),
        config: s("sgx/config.xml"),
        enclave_archive: s(archive),
        output_signed_so: s("libmy_enclave.signed.so"),
    }
}

fn printed(a: &StdAppAction) -> &str {
    match a {
        StdAppAction::Print(p) => p.as_str(),
        _ => panic!("not a print"),
    }
}

#[test]
fn the_enclave_build_runs_only_under_cargo_sgx_outside_std_mode() {
    assert_eq!(build_app(&None), AppBuild::Std);
    let out = CargoSgxOutput { version: s("1"), std_mode: true, metadata: vec![] };
    assert_eq!(build_app(&Some(out)), AppBuild::Std);
    let out = CargoSgxOutput { version: s("1"), std_mode: false, metadata: vec![] };
    assert_eq!(build_app(&Some(out)), AppBuild::Sgx);
}

#[test]
fn metadata_packages_are_the_stems_of_the_enclave_paths() {
    let manifest = table(vec![(
        "package",
        table(vec![
            ("name", TomlValue::Str(s("app"))),
            (
                "metadata",
                table(vec![(
                    "sgx",
                    table(vec![
                        ("my_enclave", table(vec![("path", TomlValue::Str(s("../enclave")))])),
                        ("other", table(vec![("path", TomlValue::Str(s("../crates/other.rs")))])),
                    ]),
                )]),
            ),
        ]),
    )]);
    assert_eq!(
        get_metadata_pkgs(&manifest),
        vec![(s("my_enclave"), s("enclave")), (s("other"), s("other"))]
    );
    assert_eq!(get_metadata_pkgs(&table(vec![])), vec![]);
    assert_eq!(metadata_pkgs(&TomlValue::Other), Some(vec![]));
    let not_table = table(vec![("package", table(vec![("metadata", table(vec![("sgx", TomlValue::Other)]))]))]);
    assert_eq!(get_metadata_pkgs(&not_table), vec![]);
    let no_path = table(vec![(
        "package",
        table(vec![("metadata", table(vec![("sgx", table(vec![("e", table(vec![]))]))]))]),
    )]);
    assert_eq!(metadata_pkgs(&no_path), None);
    let lookup = table(vec![("k", TomlValue::Str(s("first"))), ("k", TomlValue::Str(s("second")))]);
    assert!(matches!(lookup.get("k"), Some(TomlValue::Str(v)) if v == "first"));
    assert!(lookup.get("absent").is_none());
}

#[test]
fn std_build_under_cargo_sgx_links_each_enclave() {
    let out = CargoSgxOutput {
        version: s("1"),
        std_mode: true,
        metadata: vec![meta("/w/target/debug/libmy_enclave.a"), meta("other.a")],
    };
    let actions = std_app_actions(&env(), &Some(out), &vec![]).unwrap();
    let lines: Vec<&str> = actions.iter().map(printed).collect();
    assert_eq!(
        lines,
        vec![
            "cargo:rustc-link-search=native=/w/target/debug",
            "cargo:rerun-if-changed=/w/target/debug/libmy_enclave.a",
            "cargo:rustc-link-lib=my_enclave",
            "cargo:rerun-if-changed=/w/target/debug/libother.a",
            "cargo:rustc-link-lib=other",
        ]
    );
}

#[test]
fn std_build_in_compatibility_mode_rebuilds_the_packages() {
    let pkgs = vec![(s("my_enclave"), s("enclave"))];
    let actions = std_app_actions(&env(), &None, &pkgs).unwrap();
    assert_eq!(actions.len(), 8);
    assert!(printed(&actions[0]).starts_with("cargo:warning=app is intended to build from `cargo sgx build`"));
    assert_eq!(printed(&actions[1]), "cargo:rerun-if-changed=compatibility mode");
    assert!(matches!(&actions[2], StdAppAction::CreateDirAll(d) if d == "/w/target/tmp-target/release"));
    assert!(matches!(&actions[3], StdAppAction::Symlink { original, link }
        if original == "/w/target/release/build" && link == "/w/target/tmp-target/release/build"));
    assert!(matches!(&actions[4], StdAppAction::Symlink { original, link }
        if original == "/w/target/release/deps" && link == "/w/target/tmp-target/release/deps"));
    assert_eq!(printed(&actions[5]), "cargo:rustc-link-search=native=/w/target/tmp-target/release");
    match &actions[6] {
        StdAppAction::RunCargo { program, args } => {
            assert_eq!(program, "/bin/cargo");
            assert_eq!(
                args,
                &vec!["build", "--release", "--target-dir", "/w/target/tmp-target", "-p", "enclave", "--color", "never"]
            );
        }
        _ => panic!("expected a cargo run"),
    }
    assert_eq!(printed(&actions[7]), "cargo:rustc-link-lib=my_enclave");

    let mut debug = env();
    debug.profile = Some(s("debug"));
    let actions = std_app_actions(&debug, &None, &pkgs).unwrap();
    match &actions[6] {
        StdAppAction::RunCargo { args, .. } => assert_eq!(args[1], "--target-dir"),
        _ => panic!("expected a cargo run"),
    }
}

#[test]
fn std_build_needs_deep_enough_out_dir() {
    let mut shallow = env();
    shallow.out_dir = Some(s("a/b"));
    assert!(std_app_actions(&shallow, &None, &vec![]).is_none());
}

#[test]
fn teaclave_sdk_path_is_found_in_cargo_metadata() {
    let out = r#"{"packages":[{"manifest_path":"/home/u/.cargo/git/checkouts/incubator-teaclave-sgx-sdk-9a654826af166474/3c903bd/sgx_types/Cargo.toml"}]}"#;
    assert_eq!(
        teaclave_sdk_path(out),
        Some(s("/home/u/.cargo/git/checkouts/incubator-teaclave-sgx-sdk-9a654826af166474/3c903bd"))
    );
    assert_eq!(teaclave_sdk_path("no sdk here"), None);
    assert_eq!(teaclave_sdk_path("incubator-teaclave-sgx-sdk-9a654826af166474/x/"), None);
    assert_eq!(teaclave_sdk_path("\"/p/incubator-teaclave-sgx-sdk-9a654826af166474/rev"), None);
}

#[test]
fn metadata_packages_are_read_from_the_manifest_text() {
    let text = r#"
[package]
name = "app"
version = "0.1.0"

[package.metadata.sgx]
my_enclave = { path = "../enclave", config = "sgx/config.xml", edl = "sgx/enclave.edl", lds = "sgx/enclave.lds", key = "sgx/private.pem" }
another = { path = "crates/another" }

[dependencies]
automata-sgx-sdk = "1"
"#;
    assert_eq!(
        metadata_pkgs_of_manifest(text),
        Some(vec![(s("another"), s("another")), (s("my_enclave"), s("enclave"))])
    );
    assert_eq!(metadata_pkgs_of_manifest("[package]\nname = \"x\"\n"), Some(vec![]));
    assert_eq!(metadata_pkgs_of_manifest("this is = = not toml"), None);
    assert_eq!(metadata_pkgs_of_manifest("[package.metadata.sgx]\ne = { path = 3 }\n"), None);
    assert_eq!(metadata_pkgs_of_manifest("[package.metadata.sgx]\ne = { path = \"..\" }\n"), None);
}
