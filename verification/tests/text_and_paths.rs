use automata_sgx_sdk::builders::{dir_display, link_name, link_name_of, parent_path};
use automata_sgx_sdk::path::{file_stem_of, join, path_of, stem_of};
use automata_sgx_sdk::text::{
    chars_of, concat_str, str_contains, str_trim_start_matches, string_of_range,
};

#[test]
fn trim_end_removes_every_trailing_occurrence() {
    assert_eq!(link_name_of("a.o.o"), "a");
    assert_eq!(link_name_of("x.a.a.o"), "x");
    assert_eq!(link_name_of(".o"), "");
    assert_eq!(link_name_of("a.oa"), "a.oa");
}

#[test]
fn trim_start_removes_every_leading_occurrence() {
    assert_eq!(str_trim_start_matches("liblibfoo", "lib"), "foo");
    assert_eq!(str_trim_start_matches("foolib", "lib"), "foolib");
    assert_eq!(str_trim_start_matches("lib", "lib"), "");
}

#[test]
fn contains_finds_substrings() {
    assert!(str_contains("x86_64", "64"));
    assert!(!str_contains("x86", "64"));
    assert!(str_contains("aarch64", "64"));
    assert!(str_contains("anything", ""));
}

#[test]
fn chars_round_trip_through_strings() {
    let v = chars_of("héllo");
    assert_eq!(v.len(), 5);
    assert_eq!(string_of_range(&v, 0, v.len()), "héllo");
    assert_eq!(string_of_range(&v, 1, 3), "él");
    assert_eq!(concat_str("ab", "cd"), "abcd");
}

#[test]
fn join_follows_unix_paths() {
    assert_eq!(join("/tmp", "file.bk"), "/tmp/file.bk");
    assert_eq!(join("/tmp/", "file.bk"), "/tmp/file.bk");
    assert_eq!(join("/tmp", "/etc"), "/etc");
    assert_eq!(join("", "rel"), "rel");
    assert_eq!(join("a", ""), "a/");
    assert_eq!(path_of("/opt/intel/sgxsdk"), "/opt/intel/sgxsdk");
    for (base, part) in [("/tmp", "file.bk"), ("", "x"), ("a/", "b"), ("a", "/b"), ("a", "")] {
        let expected = std::path::Path::new(base).join(part);
        assert_eq!(join(base, part), expected.to_str().unwrap());
    }
}

#[test]
fn link_name_strips_suffixes_and_prefix() {
    assert_eq!(link_name_of("libfoo.a"), "foo");
    assert_eq!(link_name_of("libfoo.o"), "foo");
    assert_eq!(link_name_of("liblibbar.a.o.o"), "bar");
    assert_eq!(link_name_of("enclave"), "enclave");
    assert_eq!(link_name("out/dir/libmy_enclave.a"), Some("my_enclave".to_string()));
    assert_eq!(link_name("libx.o"), Some("x".to_string()));
    assert_eq!(link_name("/"), None);
    assert_eq!(link_name("out/.."), None);
}

#[test]
fn parent_path_writes_the_empty_parent_as_dot() {
    assert_eq!(parent_path("libfoo.a"), Some(".".to_string()));
    assert_eq!(parent_path("/a/b.o"), Some("/a".to_string()));
    assert_eq!(parent_path("/b.o"), Some("/".to_string()));
    assert_eq!(parent_path("x/y/z"), Some("x/y".to_string()));
    assert_eq!(parent_path(""), None);
    assert_eq!(parent_path("/"), None);
    assert_eq!(dir_display(""), ".");
    assert_eq!(dir_display("out"), "out");
}

#[test]
fn file_names_and_stems_follow_std() {
    let paths = [
        "a", "a/b", "/usr/bin/", "tmp/foo.txt", "foo.txt/.", "foo.txt/.//", "foo.txt/..", "/", "",
        ".", "..", "./a", "a/./", "//a//b//", "a/.hidden", "a/b.tar.gz", "x/a.", "...", "./",
    ];
    for p in paths {
        let std_stem = std::path::Path::new(p).file_stem().map(|x| x.to_str().unwrap().to_string());
        assert_eq!(file_stem_of(p), std_stem, "stem of {:?}", p);
        let std_name = std::path::Path::new(p).file_name().map(|x| x.to_str().unwrap().to_string());
        let plain = std_name.as_ref().map_or(true, |n| !n.contains('.') && !n.starts_with("lib"));
        if plain {
            assert_eq!(link_name(p), std_name, "file name of {:?}", p);
        }
    }
    assert_eq!(stem_of("a.b.c"), "a.b");
    assert_eq!(stem_of(".bashrc"), ".bashrc");
    assert_eq!(stem_of("a."), "a");
    assert_eq!(parent_path("out/libx.a"), Some("out".to_string()));
    assert_eq!(parent_path("a/./b"), Some("a".to_string()));
}
