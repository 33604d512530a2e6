use agnoshi::intent::{Intent, Translation};
use agnoshi::security::PermissionLevel;
use agnoshi::translate::marketplace::translate_marketplace;
use agnoshi::translate::package::translate_package;

fn s(x: &str) -> String {
    x.to_string()
}

fn args(t: &Translation) -> Vec<&str> {
    t.args.iter().map(|a| a.as_str()).collect()
}

fn body(t: &Translation) -> serde_json::Value {
    serde_json::from_str(t.args.last().unwrap()).unwrap()
}

#[test]
fn package_apt_install() {
    let t = translate_package(&Intent::InstallPackage { packages: vec![s("vim"), s("git")] }).unwrap();
    assert_eq!(t.command, "apt-get");
    assert_eq!(args(&t), ["install", "-y", "vim", "git"]);
    assert_eq!(t.description, "Install package(s): vim, git");
    assert_eq!(t.explanation, "Installs system packages (requires root)");
    assert_eq!(t.permission, PermissionLevel::SystemWrite);
}

#[test]
fn package_ark_install_posts_package_list() {
    let t = translate_package(&Intent::ArkInstall { packages: vec![s("a"), s("b")], source: Some(s("x")) })
        .unwrap();
    assert_eq!(t.command, "curl");
    assert_eq!(
        &args(&t)[..7],
        ["-s", "-X", "POST", "http://127.0.0.1:8090/v1/ark/install", "-H", "Content-Type: application/json", "-d"]
    );
    assert_eq!(t.args[7], r#"{"packages":["a","b"]}"#);
    assert_eq!(t.description, "Install packages via ark: a, b");
    assert_eq!(t.permission, PermissionLevel::SystemWrite);
}

#[test]
fn package_ark_remove_search_update_status() {
    let t = translate_package(&Intent::ArkRemove { packages: vec![s("a")] }).unwrap();
    assert_eq!(t.args[3], "http://127.0.0.1:8090/v1/ark/remove");
    assert_eq!(body(&t)["packages"][0], "a");
    let t = translate_package(&Intent::ArkSearch { query: s("edit\"or") }).unwrap();
    assert_eq!(t.args[3], "http://127.0.0.1:8090/v1/ark/search");
    assert_eq!(body(&t)["q"], "edit\"or");
    assert_eq!(t.permission, PermissionLevel::Safe);
    let t = translate_package(&Intent::ArkUpdate).unwrap();
    assert_eq!(args(&t), ["-s", "-X", "POST", "http://127.0.0.1:8090/v1/ark/update"]);
    let t = translate_package(&Intent::ArkStatus).unwrap();
    assert_eq!(args(&t), ["-s", "http://127.0.0.1:8090/v1/ark/status"]);
}

#[test]
fn package_ark_upgrade_with_and_without_list() {
    let t = translate_package(&Intent::ArkUpgrade { packages: None }).unwrap();
    assert_eq!(t.args[7], r#"{"packages":null}"#);
    assert_eq!(t.description, "Upgrade packages via ark");
    let t = translate_package(&Intent::ArkUpgrade { packages: Some(vec![s("x"), s("y")]) }).unwrap();
    assert_eq!(t.args[7], r#"{"packages":["x","y"]}"#);
    assert_eq!(t.description, "Upgrade packages via ark: x, y");
}

#[test]
fn package_ark_info_url() {
    let t = translate_package(&Intent::ArkInfo { package: s("nginx") }).unwrap();
    assert_eq!(args(&t), ["-s", "http://127.0.0.1:8090/v1/ark/info/nginx"]);
    assert_eq!(t.description, "Show ark package info: nginx");
    for bad in ["a?b", "a&b", "a#b", "a%b", "a=b", "a/b", "a\\b", "a..b"] {
        assert!(translate_package(&Intent::ArkInfo { package: s(bad) }).is_err(), "{}", bad);
    }
}

#[test]
fn marketplace_requests() {
    let t = translate_marketplace(&Intent::MarketplaceInstall { package: s("/tmp/p.agpkg") }).unwrap();
    assert_eq!(t.args[3], "http://127.0.0.1:8090/v1/marketplace/install");
    assert_eq!(body(&t)["path"], "/tmp/p.agpkg");
    assert_eq!(t.permission, PermissionLevel::SystemWrite);
    let t = translate_marketplace(&Intent::MarketplaceSearch { query: s("theme") }).unwrap();
    assert_eq!(body(&t)["q"], "theme");
    assert_eq!(t.description, "Search marketplace for: theme");
    let t = translate_marketplace(&Intent::MarketplaceList).unwrap();
    assert_eq!(args(&t), ["-s", "http://127.0.0.1:8090/v1/marketplace/installed"]);
    assert_eq!(t.description, "List installed marketplace packages");
    let t = translate_marketplace(&Intent::MarketplaceUpdate).unwrap();
    assert_eq!(args(&t), ["-s", "http://127.0.0.1:8090/v1/marketplace/installed"]);
    assert_eq!(t.description, "Check for marketplace package updates");
    let t = translate_marketplace(&Intent::MarketplaceUninstall { package: s("theme-x") }).unwrap();
    assert_eq!(args(&t), ["-s", "-X", "DELETE", "http://127.0.0.1:8090/v1/marketplace/theme-x"]);
    assert_eq!(t.description, "Uninstall marketplace package: theme-x");
    // Only ".." and path separators are refused by the marketplace, not '?'.
    assert!(translate_marketplace(&Intent::MarketplaceUninstall { package: s("a?b") }).is_ok());
}
