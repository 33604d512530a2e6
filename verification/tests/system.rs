use agnoshi::intent::{Intent, TranslateError, Translation};
use agnoshi::security::PermissionLevel;
use agnoshi::translate::system::translate_system;

fn s(x: &str) -> String {
    x.to_string()
}

fn args(t: &Translation) -> Vec<&str> {
    t.args.iter().map(|a| a.as_str()).collect()
}

fn run(intent: Intent) -> Translation {
    translate_system(&intent).unwrap()
}

#[test]
fn system_journal_defaults_to_last_fifty() {
    let t = run(Intent::JournalView { unit: None, priority: None, lines: None, since: None });
    assert_eq!(t.command, "journalctl");
    assert_eq!(args(&t), ["-n", "50"]);
    assert_eq!(t.description, "Show recent journal log entries");
    assert_eq!(t.explanation, t.description);
    assert_eq!(t.permission, PermissionLevel::ReadOnly);
    assert!(t.mcp.is_none());
}

#[test]
fn system_journal_all_filters() {
    let t = run(Intent::JournalView {
        unit: Some(s("sshd")),
        priority: Some(s("err")),
        lines: Some(120),
        since: Some(s("today")),
    });
    assert_eq!(args(&t), ["-u", "sshd", "-p", "err", "-n", "120", "--since", "today"]);
    assert_eq!(t.description, "Show err priority journal logs for sshd");
}

#[test]
fn system_journal_descriptions() {
    let t = run(Intent::JournalView { unit: Some(s("nginx")), priority: None, lines: None, since: None });
    assert_eq!(t.description, "Show journal logs for nginx");
    let t = run(Intent::JournalView { unit: None, priority: Some(s("warning")), lines: Some(0), since: None });
    assert_eq!(args(&t), ["-p", "warning", "-n", "0"]);
    assert_eq!(t.description, "Show warning priority journal logs");
}

#[test]
fn system_device_info() {
    let t = run(Intent::DeviceInfo { subsystem: Some(s("usb")), device_path: Some(s("/dev/sda")) });
    assert_eq!(t.command, "udevadm");
    assert_eq!(args(&t), ["info", "--query=all", "--name", "/dev/sda"]);
    assert_eq!(t.description, "Show device info for /dev/sda");
    let t = run(Intent::DeviceInfo { subsystem: Some(s("usb")), device_path: None });
    assert_eq!(args(&t), ["info", "--subsystem-match", "usb"]);
    assert_eq!(t.description, "List usb devices");
    let t = run(Intent::DeviceInfo { subsystem: None, device_path: None });
    assert_eq!(args(&t), ["info", "--export-db"]);
    assert_eq!(t.description, "List all devices");
    assert_eq!(t.permission, PermissionLevel::ReadOnly);
}

#[test]
fn system_mount_actions() {
    let t = run(Intent::MountControl { action: s("list"), mountpoint: None, filesystem: Some(s("ext4")) });
    assert_eq!(t.command, "findmnt");
    assert_eq!(args(&t), ["-t", "ext4"]);
    assert_eq!(t.description, "List ext4 mounts");
    assert_eq!(t.permission, PermissionLevel::Safe);
    let t = run(Intent::MountControl { action: s("list"), mountpoint: None, filesystem: None });
    assert!(t.args.is_empty());
    assert_eq!(t.description, "List all mounted filesystems");
    let t = run(Intent::MountControl { action: s("unmount"), mountpoint: None, filesystem: None });
    assert_eq!(t.command, "fusermount");
    assert_eq!(args(&t), ["-u", "/mnt"]);
    assert_eq!(t.description, "Unmount /mnt");
    assert_eq!(t.permission, PermissionLevel::Admin);
    let t = run(Intent::MountControl { action: s("mount"), mountpoint: Some(s("/data")), filesystem: None });
    assert_eq!(t.command, "mount");
    assert_eq!(args(&t), ["", "/data"]);
    assert_eq!(t.description, "Mount  on /data");
    let e = translate_system(&Intent::MountControl { action: s("eject"), mountpoint: None, filesystem: None })
        .unwrap_err();
    assert!(matches!(e, TranslateError::UnknownAction { .. }));
}

#[test]
fn system_boot_config() {
    let t = run(Intent::BootConfig { action: s("list"), entry: None, value: None });
    assert_eq!(t.command, "bootctl");
    assert_eq!(args(&t), ["list"]);
    assert_eq!(t.permission, PermissionLevel::ReadOnly);
    let t = run(Intent::BootConfig { action: s("default"), entry: None, value: None });
    assert_eq!(args(&t), ["set-default", "unknown"]);
    assert_eq!(t.description, "Set default boot entry to unknown");
    let t = run(Intent::BootConfig { action: s("timeout"), entry: None, value: Some(s("10")) });
    assert_eq!(args(&t), ["set-timeout", "10"]);
    assert_eq!(t.description, "Set boot timeout to 10");
    assert_eq!(t.permission, PermissionLevel::Admin);
    let t = run(Intent::BootConfig { action: s("timeout"), entry: None, value: None });
    assert_eq!(args(&t), ["set-timeout", "5"]);
    let e = translate_system(&Intent::BootConfig { action: s("x"), entry: None, value: None }).unwrap_err();
    assert_eq!(e.message(), "Unknown boot config action: x");
}

#[test]
fn system_update_actions() {
    for (action, desc, perm) in [
        ("check", "Check for available system updates", PermissionLevel::Safe),
        ("apply", "Apply system updates", PermissionLevel::Admin),
        ("rollback", "Rollback last system update", PermissionLevel::Admin),
        ("status", "Show current system version and update status", PermissionLevel::Safe),
    ] {
        let t = run(Intent::SystemUpdate { action: s(action) });
        assert_eq!(t.command, "agnos-update");
        assert_eq!(args(&t), [action]);
        assert_eq!(t.description, desc);
        assert_eq!(t.permission, perm);
    }
    let e = translate_system(&Intent::SystemUpdate { action: s("upgrade") }).unwrap_err();
    assert_eq!(e.message(), "Unknown update action: upgrade");
}

#[test]
fn system_chmod_permission_follows_path() {
    let t = run(Intent::Chmod { path: s("/etc/hosts"), mode: s("644") });
    assert_eq!(t.command, "chmod");
    assert_eq!(args(&t), ["644", "/etc/hosts"]);
    assert_eq!(t.description, "Change permissions of /etc/hosts to 644");
    assert_eq!(t.permission, PermissionLevel::SystemWrite);
    let t = run(Intent::Chmod { path: s("/usrx"), mode: s("600") });
    assert_eq!(t.permission, PermissionLevel::SystemWrite);
    let t = run(Intent::Chmod { path: s("/sys/x"), mode: s("600") });
    assert_eq!(t.permission, PermissionLevel::SystemWrite);
    let t = run(Intent::Chmod { path: s("/home/u/x"), mode: s("600") });
    assert_eq!(t.permission, PermissionLevel::UserWrite);
}

#[test]
fn system_chown_and_symlink() {
    let t = run(Intent::Chown { path: s("/srv"), owner: s("www") });
    assert_eq!(t.command, "chown");
    assert_eq!(args(&t), ["www", "/srv"]);
    assert_eq!(t.description, "Change ownership of /srv to www");
    assert_eq!(t.permission, PermissionLevel::Admin);
    let t = run(Intent::Symlink { target: s("/opt/app"), link: s("/usr/local/app") });
    assert_eq!(t.command, "ln");
    assert_eq!(args(&t), ["-s", "/opt/app", "/usr/local/app"]);
    assert_eq!(t.description, "Create symbolic link /usr/local/app -> /opt/app");
    assert_eq!(t.permission, PermissionLevel::UserWrite);
}

#[test]
fn system_archive_actions() {
    let files = vec![s("a"), s("b")];
    for action in ["tar", "archive", "compress"] {
        let t = run(Intent::Archive { action: s(action), archive: s("x.tgz"), files: files.clone() });
        assert_eq!(t.command, "tar");
        assert_eq!(args(&t), ["-czf", "x.tgz", "a", "b"]);
        assert_eq!(t.description, "Create tar archive x.tgz");
    }
    let t = run(Intent::Archive { action: s("zip"), archive: s("x.zip"), files: files.clone() });
    assert_eq!(t.command, "zip");
    assert_eq!(args(&t), ["-r", "x.zip", "a", "b"]);
    assert_eq!(t.description, "Create zip archive x.zip");
    let t = run(Intent::Archive { action: s("extract"), archive: s("x.zip"), files: vec![] });
    assert_eq!(t.command, "unzip");
    assert_eq!(args(&t), ["x.zip"]);
    assert_eq!(t.description, "Extract archive x.zip");
    let t = run(Intent::Archive { action: s("untar"), archive: s("x.tar.gz"), files: vec![] });
    assert_eq!(t.command, "tar");
    assert_eq!(args(&t), ["-xf", "x.tar.gz"]);
    let t = run(Intent::Archive { action: s("unzip"), archive: s("y.zip"), files: vec![] });
    assert_eq!(args(&t), ["y.zip"]);
    assert_eq!(t.description, "Extract zip archive y.zip");
    let t = run(Intent::Archive { action: s("shrink"), archive: s("z"), files: files.clone() });
    assert_eq!(t.command, "tar");
    assert_eq!(args(&t), ["-czf", "z"]);
    assert_eq!(t.description, "Archive operation on z");
    assert_eq!(t.permission, PermissionLevel::UserWrite);
}

#[test]
fn system_cron_actions() {
    let t = run(Intent::Cron { action: s("show"), schedule: None, command: None });
    assert_eq!(t.command, "crontab");
    assert_eq!(args(&t), ["-l"]);
    assert_eq!(t.permission, PermissionLevel::UserWrite);
    let t = run(Intent::Cron { action: s("add"), schedule: None, command: None });
    assert_eq!(args(&t), ["-l"]);
    assert_eq!(t.description, "Add cron job: * * * * * echo hello");
    assert_eq!(t.permission, PermissionLevel::SystemWrite);
    let t = run(Intent::Cron { action: s("add"), schedule: Some(s("0 3 * * *")), command: Some(s("backup")) });
    assert_eq!(t.description, "Add cron job: 0 3 * * * backup");
    let t = run(Intent::Cron { action: s("remove"), schedule: None, command: None });
    assert_eq!(args(&t), ["-r"]);
    let t = run(Intent::Cron { action: s("edit"), schedule: None, command: None });
    assert_eq!(args(&t), ["-e"]);
    let e = translate_system(&Intent::Cron { action: s("purge"), schedule: None, command: None }).unwrap_err();
    assert_eq!(e.message(), "Unknown cron action: purge");
}

#[test]
fn system_service_enable() {
    let t = run(Intent::ServiceEnable { service: s("sshd"), enable: true });
    assert_eq!(t.command, "systemctl");
    assert_eq!(args(&t), ["enable", "sshd"]);
    assert_eq!(t.description, "enable service sshd");
    let t = run(Intent::ServiceEnable { service: s("sshd"), enable: false });
    assert_eq!(args(&t), ["disable", "sshd"]);
    assert_eq!(t.permission, PermissionLevel::Admin);
}

#[test]
fn system_env_vars() {
    let t = run(Intent::EnvVar { action: s("echo"), name: None, value: None });
    assert_eq!(t.command, "env");
    assert!(t.args.is_empty());
    assert_eq!(t.description, "Show environment variable VAR");
    assert_eq!(t.permission, PermissionLevel::Safe);
    let t = run(Intent::EnvVar { action: s("export"), name: Some(s("EDITOR")), value: Some(s("vim")) });
    assert_eq!(t.command, "export");
    assert_eq!(args(&t), ["EDITOR=vim"]);
    assert_eq!(t.description, "Set environment variable EDITOR=vim");
    assert_eq!(t.permission, PermissionLevel::UserWrite);
    let t = run(Intent::EnvVar { action: s("set"), name: Some(s("X")), value: None });
    assert_eq!(args(&t), ["X="]);
    let t = run(Intent::EnvVar { action: s("unset"), name: Some(s("X")), value: None });
    assert_eq!(t.command, "unset");
    assert_eq!(args(&t), ["X"]);
    let e = translate_system(&Intent::EnvVar { action: s("rename"), name: None, value: None }).unwrap_err();
    assert_eq!(e.message(), "Unknown env var action: rename");
}
