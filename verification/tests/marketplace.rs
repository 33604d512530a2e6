use agnoshi::intent::Intent;
use agnoshi::translate::marketplace::{sanitize_url_segment, translate_marketplace};

#[test]
fn marketplace_test_sanitize_url_segment_rejects_path_traversal() {
    assert!(sanitize_url_segment("../../../etc/passwd").is_err());
}

#[test]
fn marketplace_test_sanitize_url_segment_rejects_forward_slash() {
    assert!(sanitize_url_segment("foo/bar").is_err());
}

#[test]
fn marketplace_test_sanitize_url_segment_rejects_backslash() {
    assert!(sanitize_url_segment("foo\\bar").is_err());
}

#[test]
fn marketplace_test_sanitize_url_segment_rejects_null_byte() {
    assert!(sanitize_url_segment("package\0name").is_err());
}

#[test]
fn marketplace_test_sanitize_url_segment_accepts_normal_name() {
    assert_eq!(sanitize_url_segment("my-package").unwrap(), "my-package");
}

#[test]
fn test_sanitize_url_segment_accepts_name_with_single_dots() {
    // Single dots are fine, only ".." is rejected
    assert_eq!(sanitize_url_segment("v1.2.3").unwrap(), "v1.2.3");
}

#[test]
fn test_sanitize_url_segment_rejects_double_dot() {
    assert!(sanitize_url_segment("foo..bar").is_err());
}

#[test]
fn test_marketplace_uninstall_rejects_path_traversal() {
    let intent = Intent::MarketplaceUninstall {
        package: "../../../etc/passwd".to_string(),
    };
    assert!(translate_marketplace(&intent).is_err());
}

#[test]
fn test_marketplace_uninstall_rejects_null_byte() {
    let intent = Intent::MarketplaceUninstall {
        package: "package\0name".to_string(),
    };
    assert!(translate_marketplace(&intent).is_err());
}

#[test]
fn test_marketplace_uninstall_accepts_normal_package() {
    let intent = Intent::MarketplaceUninstall {
        package: "my-cool-package".to_string(),
    };
    let result = translate_marketplace(&intent).unwrap();
    assert_eq!(result.command, "curl");
    assert!(result.args.iter().any(|a| a.contains("my-cool-package")));
}
