use ssh_core::text::{
    child_path_string,
    collapse_slashes_string,
    decimal_string,
    host_port_string,
    same_text,
    starts_with,
};

#[test]
fn decimal_of_small_and_large_numbers() {
    assert_eq!(decimal_string(0), "0");
    assert_eq!(decimal_string(7), "7");
    assert_eq!(decimal_string(10), "10");
    assert_eq!(decimal_string(22), "22");
    assert_eq!(decimal_string(65535), "65535");
    assert_eq!(decimal_string(1000000), "1000000");
    assert_eq!(decimal_string(u32::MAX), "4294967295");
}

#[test]
fn host_and_port_are_joined_by_a_colon() {
    assert_eq!(host_port_string("example.org", 80), "example.org:80");
    assert_eq!(host_port_string("127.0.0.1", 0), "127.0.0.1:0");
    assert_eq!(host_port_string("", 22), ":22");
    assert_eq!(host_port_string("h\u{f6}st", 2222), "h\u{f6}st:2222");
}

#[test]
fn starts_with_compares_characters() {
    assert!(starts_with("LC_ALL", "LC_"));
    assert!(starts_with("LANG_X", "LANG_"));
    assert!(!starts_with("LANG", "LANG_"));
    assert!(!starts_with("LC", "LC_"));
    assert!(!starts_with("XLC_", "LC_"));
    assert!(starts_with("anything", ""));
    assert!(starts_with("", ""));
    assert!(!starts_with("", "a"));
}

#[test]
fn same_text_is_equality() {
    assert!(same_text("", ""));
    assert!(same_text("localhost", "localhost"));
    assert!(!same_text("localhost", "localhos"));
    assert!(!same_text("localhos", "localhost"));
    assert!(!same_text("a", "b"));
}

#[test]
fn collapse_drops_repeated_slashes() {
    assert_eq!(collapse_slashes_string(""), "");
    assert_eq!(collapse_slashes_string("/"), "/");
    assert_eq!(collapse_slashes_string("//"), "/");
    assert_eq!(collapse_slashes_string("a//b"), "a/b");
    assert_eq!(collapse_slashes_string("a///b"), "a/b");
    assert_eq!(collapse_slashes_string("//a//b//"), "/a/b/");
    assert_eq!(collapse_slashes_string("/a/b"), "/a/b");
    assert_eq!(collapse_slashes_string("no slash"), "no slash");
}

#[test]
fn child_path_joins_and_normalizes() {
    assert_eq!(child_path_string("/", "etc"), "/etc");
    assert_eq!(child_path_string("/home", "user"), "/home/user");
    assert_eq!(child_path_string("/home/", "user"), "/home/user");
    assert_eq!(child_path_string("", "file"), "/file");
    assert_eq!(child_path_string("relative/dir", "x.txt"), "relative/dir/x.txt");
    assert_eq!(child_path_string("/a//b", "c"), "/a/b/c");
}

#[test]
fn collapsed_path_has_no_double_slash() {
    for input in ["////", "/a////b///c", "a//", "//a", "/x/y/z"] {
        let out = collapse_slashes_string(input);
        assert!(!out.contains("//"));
        assert_eq!(collapse_slashes_string(&out), out);
    }
}
