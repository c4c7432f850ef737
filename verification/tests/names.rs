use automata_sgx_sdk::cutils::{snake_to_camel, to_ascii_upper, Cutils};
use automata_sgx_sdk::enclave::SgxEnclave;

#[test]
fn snake_to_camel_capitalises_words() {
    assert_eq!(snake_to_camel("my_enclave"), "MyEnclave");
    assert_eq!(snake_to_camel("enclave"), "Enclave");
    assert_eq!(snake_to_camel("__a__b_"), "AB");
    assert_eq!(snake_to_camel("a_1b"), "A1b");
    assert_eq!(snake_to_camel(""), "");
    assert_eq!(snake_to_camel("é_x"), "éX");
    assert_eq!(to_ascii_upper('q'), 'Q');
    assert_eq!(to_ascii_upper('Q'), 'Q');
    assert_eq!(to_ascii_upper('é'), 'é');
}

#[test]
fn camel_to_snake_separates_words() {
    assert_eq!(SgxEnclave::camel_to_snake("MyEnclave"), "my_enclave");
    assert_eq!(SgxEnclave::camel_to_snake("ABc"), "a_bc");
    assert_eq!(SgxEnclave::camel_to_snake("already_snake"), "already_snake");
    assert_eq!(SgxEnclave::camel_to_snake(""), "");
    assert_eq!(SgxEnclave::camel_to_snake("ÀB"), "à_b");
    // 'İ' lower-cases to two characters.
    assert_eq!(SgxEnclave::camel_to_snake("xİ"), "x_i\u{307}");
}

#[test]
fn enclave_names_round_trip() {
    for snake in ["my_enclave", "prover", "a_b_c", "enclave2_x"] {
        assert_eq!(SgxEnclave::camel_to_snake(&snake_to_camel(snake)), snake);
    }
    for camel in ["MyEnclave", "Prover", "ABC", "A1B2c"] {
        assert_eq!(snake_to_camel(&SgxEnclave::camel_to_snake(camel)), camel);
    }
    // A digit after an underscore does not start a word, so the round trip fails there.
    assert_eq!(SgxEnclave::camel_to_snake(&snake_to_camel("a_1")), "a1");
}

#[test]
fn compiler_flags_are_listed_in_order() {
    let c = Cutils::cflags();
    assert_eq!(c.len(), 23);
    assert_eq!(&c[..3], &["-fstack-protector-strong", "-DITT_fARCH_IA64", "-fcf-protection"]);
    assert_eq!(c[3], "-Wjump-misses-init");
    assert_eq!(c[22], "-Wredundant-decls");
    assert_eq!(
        Cutils::enclave_cflags(),
        vec![
            "-ffreestanding",
            "-nostdinc",
            "-fvisibility=hidden",
            "-fpie",
            "-fno-strict-overflow",
            "-fno-delete-null-pointer-checks"
        ]
    );
    let l = Cutils::enclave_ldflags();
    assert_eq!(l.len(), 7);
    assert_eq!(l[0], "-Wl,-z,relro,-z,now,-z,noexecstack");
    assert_eq!(l[6], "-Wl,--gc-sections");
}

#[test]
fn converting_to_camel_case_twice_changes_nothing_more() {
    for s in ["my_enclave", "__a__b_", "é_x", "", "already", "a_1b", "Mixed_Case"] {
        let once = snake_to_camel(s);
        assert_eq!(snake_to_camel(&once), once);
    }
}
