use agnoshi::intent::{Intent, Translation};
use agnoshi::security::PermissionLevel;
use agnoshi::translate::firewall::translate_firewall;
use agnoshi::translate::git::translate_git;
use agnoshi::translate::stiva::translate_stiva;
use agnoshi::translate::user::translate_user;

fn s(x: &str) -> String {
    x.to_string()
}

fn args(t: &Translation) -> Vec<&str> {
    t.args.iter().map(|a| a.as_str()).collect()
}

#[test]
fn firewall_allow_and_deny() {
    let t = translate_firewall(&Intent::FirewallAllow { port: s("22"), protocol: Some(s("tcp")) }).unwrap();
    assert_eq!(t.command, "sudo");
    assert_eq!(args(&t), ["ufw", "allow", "22/tcp"]);
    assert_eq!(t.description, "Allow traffic on 22/tcp");
    assert_eq!(t.explanation, "Adds a firewall rule to allow incoming traffic on the specified port");
    assert_eq!(t.permission, PermissionLevel::Admin);
    let t = translate_firewall(&Intent::FirewallDeny { port: s("8080"), protocol: None }).unwrap();
    assert_eq!(args(&t), ["ufw", "deny", "8080"]);
    assert_eq!(t.description, "Deny traffic on 8080");
}

#[test]
fn firewall_status_and_rules() {
    let t = translate_firewall(&Intent::FirewallList).unwrap();
    assert_eq!(args(&t), ["ufw", "status", "numbered"]);
    assert_eq!(t.description, "List firewall rules");
    let t = translate_firewall(&Intent::FirewallStatus).unwrap();
    assert_eq!(args(&t), ["ufw", "status", "verbose"]);
    let t = translate_firewall(&Intent::FirewallEnable).unwrap();
    assert_eq!(args(&t), ["ufw", "enable"]);
    let t = translate_firewall(&Intent::FirewallDisable).unwrap();
    assert_eq!(args(&t), ["ufw", "disable"]);
    let t = translate_firewall(&Intent::FirewallDeleteRule { rule: s("3") }).unwrap();
    assert_eq!(args(&t), ["ufw", "delete", "3"]);
    assert_eq!(t.description, "Delete firewall rule: 3");
}

#[test]
fn git_commit_diff_branch() {
    let t = translate_git(&Intent::GitCommit { message: s("fix"), all: true }).unwrap();
    assert_eq!(t.command, "git");
    assert_eq!(args(&t), ["commit", "-a", "-m", "fix"]);
    assert_eq!(t.description, "Commit: fix");
    assert_eq!(t.permission, PermissionLevel::UserWrite);
    let t = translate_git(&Intent::GitCommit { message: s("m"), all: false }).unwrap();
    assert_eq!(args(&t), ["commit", "-m", "m"]);
    let t = translate_git(&Intent::GitDiff { path: Some(s("src")), staged: true }).unwrap();
    assert_eq!(args(&t), ["diff", "--staged", "--", "src"]);
    assert_eq!(t.description, "Show staged changes");
    assert_eq!(t.permission, PermissionLevel::ReadOnly);
    let t = translate_git(&Intent::GitDiff { path: None, staged: false }).unwrap();
    assert_eq!(args(&t), ["diff"]);
    assert_eq!(t.description, "Show working tree changes");
    let t = translate_git(&Intent::GitBranch { name: Some(s("f")), delete: true }).unwrap();
    assert_eq!(args(&t), ["branch", "-d", "f"]);
    assert_eq!(t.description, "Delete branch f");
    let t = translate_git(&Intent::GitBranch { name: Some(s("f")), delete: false }).unwrap();
    assert_eq!(t.description, "Create branch f");
    let t = translate_git(&Intent::GitBranch { name: None, delete: true }).unwrap();
    assert_eq!(args(&t), ["branch", "-d"]);
    assert_eq!(t.description, "List branches");
}

#[test]
fn git_log_push_pull_and_more() {
    let t = translate_git(&Intent::GitStatus).unwrap();
    assert_eq!(args(&t), ["status"]);
    let t = translate_git(&Intent::GitLog { count: Some(5) }).unwrap();
    assert_eq!(args(&t), ["log", "--oneline", "-5"]);
    let t = translate_git(&Intent::GitLog { count: None }).unwrap();
    assert_eq!(args(&t), ["log", "--oneline"]);
    let t = translate_git(&Intent::GitPush { remote: Some(s("origin")), branch: Some(s("main")) }).unwrap();
    assert_eq!(args(&t), ["push", "origin", "main"]);
    let t = translate_git(&Intent::GitPull { remote: None, branch: Some(s("dev")) }).unwrap();
    assert_eq!(args(&t), ["pull", "dev"]);
    assert_eq!(t.description, "Pull from remote");
    let t = translate_git(&Intent::GitCheckout { target: s("v1") }).unwrap();
    assert_eq!(args(&t), ["checkout", "v1"]);
    assert_eq!(t.description, "Checkout v1");
    let t = translate_git(&Intent::GitMerge { branch: s("f") }).unwrap();
    assert_eq!(t.description, "Merge branch f");
    let t = translate_git(&Intent::GitStash { action: s("pop") }).unwrap();
    assert_eq!(args(&t), ["stash", "pop"]);
    assert_eq!(t.description, "Stash pop");
}

#[test]
fn user_add_puts_options_first() {
    let t = translate_user(&Intent::UserAdd { username: s("ann"), shell: Some(s("/bin/zsh")), home: Some(s("/h/ann")) })
        .unwrap();
    assert_eq!(t.command, "sudo");
    assert_eq!(args(&t), ["useradd", "-d", "/h/ann", "-s", "/bin/zsh", "ann"]);
    assert_eq!(t.description, "Add user ann");
    assert_eq!(t.permission, PermissionLevel::Admin);
    let t = translate_user(&Intent::UserAdd { username: s("bo"), shell: None, home: None }).unwrap();
    assert_eq!(args(&t), ["useradd", "bo"]);
}

#[test]
fn user_delete_mod_passwd_groups() {
    let t = translate_user(&Intent::UserDelete { username: s("bo"), remove_home: true }).unwrap();
    assert_eq!(args(&t), ["userdel", "-r", "bo"]);
    let t = translate_user(&Intent::UserMod { username: s("bo"), shell: Some(s("/bin/sh")), groups: Some(s("wheel")) })
        .unwrap();
    assert_eq!(args(&t), ["usermod", "-s", "/bin/sh", "-aG", "wheel", "bo"]);
    assert_eq!(t.description, "Modify user bo");
    let t = translate_user(&Intent::Passwd { username: None }).unwrap();
    assert_eq!(args(&t), ["passwd"]);
    assert_eq!(t.description, "Change current user password");
    let t = translate_user(&Intent::Passwd { username: Some(s("bo")) }).unwrap();
    assert_eq!(t.description, "Change password for bo");
    let t = translate_user(&Intent::GroupAdd { groupname: s("dev") }).unwrap();
    assert_eq!(args(&t), ["groupadd", "dev"]);
    let t = translate_user(&Intent::GroupDelete { groupname: s("dev") }).unwrap();
    assert_eq!(args(&t), ["groupdel", "dev"]);
    let t = translate_user(&Intent::GroupList { username: None }).unwrap();
    assert_eq!(t.command, "groups");
    assert!(t.args.is_empty());
    assert_eq!(t.description, "List groups for current user");
    assert_eq!(t.permission, PermissionLevel::ReadOnly);
}

#[test]
fn stiva_containers() {
    let t = translate_stiva(&Intent::StivaRun { image: s("nginx"), name: Some(s("web")), args: vec![s("-p"), s("80")] })
        .unwrap();
    assert_eq!(t.command, "stiva");
    assert_eq!(args(&t), ["run", "--name", "web", "nginx", "-p", "80"]);
    assert_eq!(t.description, "Run container from image nginx");
    assert_eq!(t.permission, PermissionLevel::SystemWrite);
    let t = translate_stiva(&Intent::StivaPs { all: true }).unwrap();
    assert_eq!(args(&t), ["ps", "-a"]);
    assert_eq!(t.permission, PermissionLevel::ReadOnly);
    let t = translate_stiva(&Intent::StivaRm { id: s("c1"), force: true }).unwrap();
    assert_eq!(args(&t), ["rm", "-f", "c1"]);
    let t = translate_stiva(&Intent::StivaLogs { id: s("c1"), tail: Some(20) }).unwrap();
    assert_eq!(args(&t), ["logs", "c1", "--tail", "20"]);
    let t = translate_stiva(&Intent::StivaExec { id: s("c1"), command: s("ls"), args: vec![s("-l")] }).unwrap();
    assert_eq!(args(&t), ["exec", "c1", "ls", "-l"]);
    assert_eq!(t.description, "Execute ls in container c1");
    let t = translate_stiva(&Intent::StivaBuild { path: s("."), tag: Some(s("app:1")) }).unwrap();
    assert_eq!(args(&t), ["build", ".", "-t", "app:1"]);
    assert_eq!(t.permission, PermissionLevel::UserWrite);
    let t = translate_stiva(&Intent::StivaAnsamblu { action: s("up"), file: Some(s("a.toml")) }).unwrap();
    assert_eq!(args(&t), ["ansamblu", "up", "-f", "a.toml"]);
    assert_eq!(t.description, "Ansamblu up");
}

#[test]
fn stiva_images() {
    let t = translate_stiva(&Intent::StivaPull { image: s("alpine") }).unwrap();
    assert_eq!(args(&t), ["pull", "alpine"]);
    assert_eq!(t.permission, PermissionLevel::UserWrite);
    let t = translate_stiva(&Intent::StivaImages).unwrap();
    assert_eq!(args(&t), ["images"]);
    let t = translate_stiva(&Intent::StivaRmi { image: s("alpine") }).unwrap();
    assert_eq!(args(&t), ["rmi", "alpine"]);
    let t = translate_stiva(&Intent::StivaStop { id: s("c2") }).unwrap();
    assert_eq!(args(&t), ["stop", "c2"]);
    let t = translate_stiva(&Intent::StivaInspect { target: s("c2") }).unwrap();
    assert_eq!(args(&t), ["inspect", "c2"]);
    assert_eq!(t.description, "Inspect c2");
}
