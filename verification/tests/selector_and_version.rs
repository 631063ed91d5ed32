//! Symbol selector parsing and the version strings.

use kcl_language_server_core::selector::{parse_symbol_selector_spec, split_field_path};
use kcl_language_server_core::version::{get_version_info, get_version_string};

#[test]
fn test_symbol_path_selector() {
    let spec = parse_symbol_selector_spec("", "pkg_name:alice.age", vec![]).unwrap();
    assert_eq!(spec.pkgpath, "pkg_name".to_string());
    assert_eq!(spec.field_path, "alice.age".to_string());
}

#[test]
fn selector_without_package_keeps_whole_field_path() {
    let spec = parse_symbol_selector_spec("", "alice.age", vec![]).unwrap();
    assert_eq!(spec.pkgpath, "".to_string());
    assert_eq!(spec.field_path, "alice.age".to_string());
}

#[test]
fn selector_splits_at_first_colon_only() {
    let (pkg, field) = split_field_path("a:b:c").unwrap();
    assert_eq!(pkg, "a".to_string());
    assert_eq!(field, "b:c".to_string());
}

#[test]
fn selector_with_empty_field_path_is_rejected() {
    assert!(split_field_path("").is_err());
    assert!(split_field_path("pkg:").is_err());
    let err = split_field_path("pkg:").unwrap_err();
    assert_eq!(err.message(), "invalid symbol selector spec pkg:".to_string());
}

#[test]
fn selector_keeps_root_and_source_codes() {
    let spec = parse_symbol_selector_spec(
        "/work",
        "pkg:alice",
        vec!["alice = Alice {}".to_string()],
    )
    .unwrap();
    assert_eq!(spec.pkg_root, "/work".to_string());
    assert_eq!(spec.source_codes, Some(vec!["alice = Alice {}".to_string()]));
    let none = parse_symbol_selector_spec("/work", "pkg:alice", vec![]).unwrap();
    assert_eq!(none.source_codes, None);
}

#[test]
fn version_string_has_version_and_check_sum() {
    assert_eq!(
        get_version_string(),
        "0.9.0-c020ab3eb4b9179219d6837a57f5d323".to_string()
    );
}

#[test]
fn version_info_lists_version_platform_and_commit() {
    let info = get_version_info();
    assert_eq!(
        info,
        "Version: 0.9.0-c020ab3eb4b9179219d6837a57f5d323\r\nPlatform: x86_64-unknown-linux-gnu\r\nGitCommit: release"
            .to_string()
    );
}
