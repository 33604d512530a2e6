use agnoshi::intent::Intent;
use agnoshi::translate::package::{sanitize_url_segment, translate_package};

#[test]
fn package_test_sanitize_url_segment_rejects_path_traversal() {
    assert!(sanitize_url_segment("../../../etc/passwd").is_err());
}

#[test]
fn package_test_sanitize_url_segment_rejects_forward_slash() {
    assert!(sanitize_url_segment("foo/bar").is_err());
}

#[test]
fn package_test_sanitize_url_segment_rejects_backslash() {
    assert!(sanitize_url_segment("foo\\bar").is_err());
}

#[test]
fn package_test_sanitize_url_segment_rejects_null_byte() {
    assert!(sanitize_url_segment("package\0name").is_err());
}

#[test]
fn package_test_sanitize_url_segment_accepts_normal_name() {
    assert_eq!(sanitize_url_segment("my-package").unwrap(), "my-package");
}

#[test]
fn test_ark_info_rejects_path_traversal() {
    let intent = Intent::ArkInfo {
        package: "../../../etc/passwd".to_string(),
    };
    assert!(translate_package(&intent).is_err());
}

#[test]
fn test_ark_info_rejects_null_byte() {
    let intent = Intent::ArkInfo {
        package: "package\0name".to_string(),
    };
    assert!(translate_package(&intent).is_err());
}

#[test]
fn test_sanitize_url_segment_rejects_question_mark() {
    assert!(sanitize_url_segment("pkg?foo=bar").is_err());
}

#[test]
fn test_sanitize_url_segment_rejects_ampersand() {
    assert!(sanitize_url_segment("pkg&evil=true").is_err());
}

#[test]
fn test_sanitize_url_segment_rejects_hash() {
    assert!(sanitize_url_segment("pkg#fragment").is_err());
}

#[test]
fn test_sanitize_url_segment_rejects_percent_encoding() {
    assert!(sanitize_url_segment("pkg%2fpasswd").is_err());
}

#[test]
fn test_sanitize_url_segment_rejects_equals() {
    assert!(sanitize_url_segment("pkg=value").is_err());
}

#[test]
fn test_ark_info_accepts_normal_package() {
    let intent = Intent::ArkInfo {
        package: "nginx".to_string(),
    };
    let result = translate_package(&intent).unwrap();
    assert_eq!(result.command, "curl");
    assert!(result.args.iter().any(|a| a.contains("nginx")));
}
