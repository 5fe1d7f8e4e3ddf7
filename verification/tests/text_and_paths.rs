use rdocker::paths::{
    get_container_path, get_image_lock_path, get_image_path, get_image_root_path, join,
};
use rdocker::text::{conjoin, decimal_text, is_valid_id};
use std::path::Path;

fn std_join(base: &str, part: &str) -> String {
    Path::new(base).join(part).to_str().unwrap().to_owned()
}

#[test]
fn join_puts_one_separator_between() {
    assert_eq!(join("/tmp/rdocker", "images"), "/tmp/rdocker/images");
    assert_eq!(join("/tmp/rdocker/", "images"), "/tmp/rdocker/images");
    assert_eq!(join("", "images"), "images");
    assert_eq!(join("/", "old_root"), "/old_root");
}

#[test]
fn join_lets_an_absolute_part_replace_the_base() {
    assert_eq!(join("/etc", "/bin/sh"), "/bin/sh");
    assert_eq!(join("", "/"), "/");
}

#[test]
fn join_with_an_empty_part_ends_in_a_separator() {
    assert_eq!(join("/etc", ""), "/etc/");
    assert_eq!(join("/etc/", ""), "/etc/");
    assert_eq!(join("", ""), "");
}

#[test]
fn join_agrees_with_the_standard_library() {
    let samples = [
        "", "/", "a", "a/", "/a", "/a/", "a/b", "/a/b/", "rootfs", "dev", "..", ".", "//", "a//",
        "\u{e9}t\u{e9}", "/\u{4e2d}/", "x y", "/tmp/rdocker/containers",
    ];
    for base in samples.iter() {
        for part in samples.iter() {
            assert_eq!(join(base, part), std_join(base, part), "{:?} + {:?}", base, part);
        }
    }
}

#[test]
fn image_paths_are_built_from_directory_and_name() {
    assert_eq!(
        get_image_path("busybox".to_owned(), "/tmp/rdocker/images".to_owned()),
        "/tmp/rdocker/images/busybox.tar"
    );
    assert_eq!(
        get_image_root_path("busybox".to_owned(), "/tmp/rdocker/images".to_owned()),
        "/tmp/rdocker/images/busybox.root.d"
    );
    assert_eq!(
        get_image_lock_path("busybox".to_owned(), "/tmp/rdocker/images".to_owned()),
        "/tmp/rdocker/images/busybox.lock"
    );
    assert_eq!(get_image_path("a.b".to_owned(), "images/".to_owned()), "images/a.b.tar");
}

#[test]
fn container_paths_are_built_from_directory_id_and_name() {
    let id = "0123456789abcdef0123456789abcdef";
    assert_eq!(
        get_container_path(
            id.to_owned(),
            "/tmp/rdocker/containers".to_owned(),
            "rootfs".to_owned()
        ),
        "/tmp/rdocker/containers/0123456789abcdef0123456789abcdef/rootfs"
    );
    assert_eq!(
        get_container_path(id.to_owned(), "c/".to_owned(), "cow_rw".to_owned()),
        "c/0123456789abcdef0123456789abcdef/cow_rw"
    );
}

#[test]
fn workspace_directories_differ() {
    let id = "0123456789abcdef0123456789abcdef";
    for dir in ["", "/", "/tmp/rdocker/containers", "x/"].iter() {
        let at = |name: &str| get_container_path(id.to_owned(), dir.to_string(), name.to_owned());
        assert_ne!(at("rootfs"), at("cow_rw"));
        assert_ne!(at("rootfs"), at("cow_workdir"));
        assert_ne!(at("cow_rw"), at("cow_workdir"));
    }
}

#[test]
fn conjoin_keeps_order() {
    assert_eq!(conjoin("busybox", ".tar"), "busybox.tar");
    assert_eq!(conjoin("", ""), "");
    assert_eq!(conjoin("a", ""), "a");
    assert_eq!(conjoin("", "b"), "b");
}

#[test]
fn decimal_text_of_small_numbers() {
    assert_eq!(decimal_text(0), "0");
    assert_eq!(decimal_text(7), "7");
    assert_eq!(decimal_text(10), "10");
    assert_eq!(decimal_text(512), "512");
    assert_eq!(decimal_text(-1), "-1");
    assert_eq!(decimal_text(-120), "-120");
}

#[test]
fn decimal_text_at_the_limits() {
    assert_eq!(decimal_text(i32::MAX as i64), "2147483647");
    assert_eq!(decimal_text(i32::MIN as i64), "-2147483648");
    assert_eq!(decimal_text(i64::MAX), "9223372036854775807");
    assert_eq!(decimal_text(i64::MIN), "-9223372036854775808");
}

#[test]
fn decimal_text_agrees_with_the_standard_library() {
    let mut n: i64 = -100_003;
    while n < 100_003 {
        assert_eq!(decimal_text(n), n.to_string());
        n += 97;
    }
}

#[test]
fn valid_ids_are_32_lowercase_hex_characters() {
    assert!(is_valid_id("0123456789abcdef0123456789abcdef"));
    assert!(is_valid_id("ffffffffffffffffffffffffffffffff"));
    assert!(!is_valid_id(""));
    assert!(!is_valid_id("0123456789abcdef0123456789abcde"));
    assert!(!is_valid_id("0123456789abcdef0123456789abcdef0"));
    assert!(!is_valid_id("0123456789ABCDEF0123456789abcdef"));
    assert!(!is_valid_id("0123456789abcdef-123456789abcdef"));
    assert!(!is_valid_id("0123456789abcdeg0123456789abcdef"));
    assert!(!is_valid_id("0123456789abcdef0123456789abcd\u{e9}f"));
    assert!(!is_valid_id("/123456789abcdef0123456789abcdef"));
    assert!(!is_valid_id("0123456789abcdef0123456789abcde:"));
    assert!(!is_valid_id("`123456789abcdef0123456789abcdef"));
}
