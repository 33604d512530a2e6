//! System administration: logs, devices, mounts, boot, updates, files, cron,
//! services and the environment.
use vstd::prelude::*;

use crate::intent::{described, outcome, Failure, Intent, TranslateError, Translation, TranslationView};
use crate::security::PermissionLevel;
use crate::text::{
    cat, cat3, cat4, decimal, ends_with, has_prefix, has_suffix, list1, list2, list3, list4,
    opt_pair, opt_view, or_else, or_text, owned, push_all, push_opt_pair, push_text, starts_with,
    str_eq, usize_to_text,
};

verus! {

/// The requests that `translate_system` handles.
pub open spec fn is_system_intent(intent: &Intent) -> bool {
    ||| intent is JournalView
    ||| intent is DeviceInfo
    ||| intent is MountControl
    ||| intent is BootConfig
    ||| intent is SystemUpdate
    ||| intent is Chmod
    ||| intent is Chown
    ||| intent is Symlink
    ||| intent is Archive
    ||| intent is Cron
    ||| intent is ServiceEnable
    ||| intent is EnvVar
}

/// `journalctl` arguments: each filter that is given, or the last 50 entries.
pub open spec fn journal_args(
    unit: Option<Seq<char>>,
    priority: Option<Seq<char>>,
    lines: Option<usize>,
    since: Option<Seq<char>>,
) -> Seq<Seq<char>> {
    let a = opt_pair("-u"@, unit) + opt_pair("-p"@, priority) + opt_pair(
        "-n"@,
        match lines {
            Some(n) => Some(decimal(n as nat)),
            None => None,
        },
    ) + opt_pair("--since"@, since);
    if a.len() == 0 {
        seq!["-n"@, "50"@]
    } else {
        a
    }
}

/// How a journal view is described.
pub open spec fn journal_desc(unit: Option<Seq<char>>, priority: Option<Seq<char>>) -> Seq<char> {
    match (unit, priority) {
        (Some(u), Some(p)) => "Show "@ + p + " priority journal logs for "@ + u,
        (Some(u), None) => "Show journal logs for "@ + u,
        (None, Some(p)) => "Show "@ + p + " priority journal logs"@,
        (None, None) => "Show recent journal log entries"@,
    }
}

/// What a mount request gives.
pub open spec fn mount_spec(
    action: Seq<char>,
    mountpoint: Option<Seq<char>>,
    filesystem: Option<Seq<char>>,
) -> Result<TranslationView, Failure> {
    let mp = or_else(mountpoint, "/mnt"@);
    if action == "list"@ {
        Ok(
            described(
                "findmnt"@,
                opt_pair("-t"@, filesystem),
                match filesystem {
                    Some(fs) => "List "@ + fs + " mounts"@,
                    None => "List all mounted filesystems"@,
                },
                PermissionLevel::Safe,
            ),
        )
    } else if action == "unmount"@ {
        Ok(described("fusermount"@, seq!["-u"@, mp], "Unmount "@ + mp, PermissionLevel::Admin))
    } else if action == "mount"@ {
        let fs = or_else(filesystem, ""@);
        Ok(
            described(
                "mount"@,
                seq![fs, mp],
                "Mount "@ + fs + " on "@ + mp,
                PermissionLevel::Admin,
            ),
        )
    } else {
        Err(Failure::UnknownAction { subject: "mount"@, action })
    }
}

/// What a boot configuration request gives.
pub open spec fn boot_spec(action: Seq<char>, entry: Option<Seq<char>>, value: Option<Seq<char>>) -> Result<
    TranslationView,
    Failure,
> {
    if action == "list"@ {
        Ok(described("bootctl"@, seq!["list"@], "List boot entries"@, PermissionLevel::ReadOnly))
    } else if action == "default"@ {
        let e = or_else(entry, "unknown"@);
        Ok(
            described(
                "bootctl"@,
                seq!["set-default"@, e],
                "Set default boot entry to "@ + e,
                PermissionLevel::Admin,
            ),
        )
    } else if action == "timeout"@ {
        let v = or_else(value, "5"@);
        Ok(
            described(
                "bootctl"@,
                seq!["set-timeout"@, v],
                "Set boot timeout to "@ + v,
                PermissionLevel::Admin,
            ),
        )
    } else {
        Err(Failure::UnknownAction { subject: "boot config"@, action })
    }
}

/// What a system update request gives.
pub open spec fn update_spec(action: Seq<char>) -> Result<TranslationView, Failure> {
    if action == "check"@ {
        Ok(
            described(
                "agnos-update"@,
                seq!["check"@],
                "Check for available system updates"@,
                PermissionLevel::Safe,
            ),
        )
    } else if action == "apply"@ {
        Ok(
            described(
                "agnos-update"@,
                seq!["apply"@],
                "Apply system updates"@,
                PermissionLevel::Admin,
            ),
        )
    } else if action == "rollback"@ {
        Ok(
            described(
                "agnos-update"@,
                seq!["rollback"@],
                "Rollback last system update"@,
                PermissionLevel::Admin,
            ),
        )
    } else if action == "status"@ {
        Ok(
            described(
                "agnos-update"@,
                seq!["status"@],
                "Show current system version and update status"@,
                PermissionLevel::Safe,
            ),
        )
    } else {
        Err(Failure::UnknownAction { subject: "update"@, action })
    }
}

/// What an archive request gives; an action it does not know makes a gzip tarball.
pub open spec fn archive_spec(action: Seq<char>, archive: Seq<char>, files: Seq<Seq<char>>) -> TranslationView {
    if action == "tar"@ || action == "archive"@ || action == "compress"@ {
        described(
            "tar"@,
            seq!["-czf"@, archive] + files,
            "Create tar archive "@ + archive,
            PermissionLevel::UserWrite,
        )
    } else if action == "zip"@ {
        described(
            "zip"@,
            seq!["-r"@, archive] + files,
            "Create zip archive "@ + archive,
            PermissionLevel::UserWrite,
        )
    } else if action == "extract"@ || action == "untar"@ || action == "decompress"@ {
        if has_suffix(archive, ".zip"@) {
            described(
                "unzip"@,
                seq![archive],
                "Extract archive "@ + archive,
                PermissionLevel::UserWrite,
            )
        } else {
            described(
                "tar"@,
                seq!["-xf"@, archive],
                "Extract archive "@ + archive,
                PermissionLevel::UserWrite,
            )
        }
    } else if action == "unzip"@ {
        described(
            "unzip"@,
            seq![archive],
            "Extract zip archive "@ + archive,
            PermissionLevel::UserWrite,
        )
    } else {
        described(
            "tar"@,
            seq!["-czf"@, archive],
            "Archive operation on "@ + archive,
            PermissionLevel::UserWrite,
        )
    }
}

/// What a cron request gives.
pub open spec fn cron_spec(
    action: Seq<char>,
    schedule: Option<Seq<char>>,
    command: Option<Seq<char>>,
) -> Result<TranslationView, Failure> {
    if action == "list"@ || action == "show"@ {
        Ok(
            described(
                "crontab"@,
                seq!["-l"@],
                "List crontab entries"@,
                PermissionLevel::UserWrite,
            ),
        )
    } else if action == "add"@ {
        let sched = or_else(schedule, "* * * * *"@);
        let cmd = or_else(command, "echo hello"@);
        Ok(
            described(
                "crontab"@,
                seq!["-l"@],
                "Add cron job: "@ + sched + " "@ + cmd,
                PermissionLevel::SystemWrite,
            ),
        )
    } else if action == "remove"@ {
        Ok(
            described(
                "crontab"@,
                seq!["-r"@],
                "Remove crontab entries"@,
                PermissionLevel::SystemWrite,
            ),
        )
    } else if action == "edit"@ {
        Ok(described("crontab"@, seq!["-e"@], "Edit crontab"@, PermissionLevel::SystemWrite))
    } else {
        Err(Failure::UnknownAction { subject: "cron"@, action })
    }
}

/// What an environment variable request gives.
pub open spec fn env_spec(action: Seq<char>, name: Option<Seq<char>>, value: Option<Seq<char>>) -> Result<
    TranslationView,
    Failure,
> {
    let var = or_else(name, "VAR"@);
    if action == "show"@ || action == "print"@ || action == "echo"@ {
        Ok(
            described(
                "env"@,
                Seq::empty(),
                "Show environment variable "@ + var,
                PermissionLevel::Safe,
            ),
        )
    } else if action == "set"@ || action == "export"@ {
        let val = or_else(value, ""@);
        Ok(
            described(
                "export"@,
                seq![var + "="@ + val],
                "Set environment variable "@ + var + "="@ + val,
                PermissionLevel::UserWrite,
            ),
        )
    } else if action == "unset"@ {
        Ok(
            described(
                "unset"@,
                seq![var],
                "Unset environment variable "@ + var,
                PermissionLevel::UserWrite,
            ),
        )
    } else {
        Err(Failure::UnknownAction { subject: "env var"@, action })
    }
}

/// The outcome that `translate_system` gives for each system request.
pub open spec fn translate_system_spec(intent: &Intent) -> Result<TranslationView, Failure> {
    match intent {
        Intent::JournalView { unit, priority, lines, since } => {
            let d = journal_desc(opt_view(*unit), opt_view(*priority));
            Ok(
                described(
                    "journalctl"@,
                    journal_args(opt_view(*unit), opt_view(*priority), *lines, opt_view(*since)),
                    d,
                    PermissionLevel::ReadOnly,
                ),
            )
        },
        Intent::DeviceInfo { subsystem, device_path } => Ok(
            match (opt_view(*device_path), opt_view(*subsystem)) {
                (Some(p), _) => described(
                    "udevadm"@,
                    seq!["info"@, "--query=all"@, "--name"@, p],
                    "Show device info for "@ + p,
                    PermissionLevel::ReadOnly,
                ),
                (None, Some(s)) => described(
                    "udevadm"@,
                    seq!["info"@, "--subsystem-match"@, s],
                    "List "@ + s + " devices"@,
                    PermissionLevel::ReadOnly,
                ),
                (None, None) => described(
                    "udevadm"@,
                    seq!["info"@, "--export-db"@],
                    "List all devices"@,
                    PermissionLevel::ReadOnly,
                ),
            },
        ),
        Intent::MountControl { action, mountpoint, filesystem } => mount_spec(
            action@,
            opt_view(*mountpoint),
            opt_view(*filesystem),
        ),
        Intent::BootConfig { action, entry, value } => boot_spec(
            action@,
            opt_view(*entry),
            opt_view(*value),
        ),
        Intent::SystemUpdate { action } => update_spec(action@),
        Intent::Chmod { path, mode } => Ok(
            described(
                "chmod"@,
                seq![mode@, path@],
                "Change permissions of "@ + path@ + " to "@ + mode@,
                if has_prefix(path@, "/etc"@) || has_prefix(path@, "/usr"@) || has_prefix(
                    path@,
                    "/sys"@,
                ) {
                    PermissionLevel::SystemWrite
                } else {
                    PermissionLevel::UserWrite
                },
            ),
        ),
        Intent::Chown { path, owner } => Ok(
            described(
                "chown"@,
                seq![owner@, path@],
                "Change ownership of "@ + path@ + " to "@ + owner@,
                PermissionLevel::Admin,
            ),
        ),
        Intent::Symlink { target, link } => Ok(
            described(
                "ln"@,
                seq!["-s"@, target@, link@],
                "Create symbolic link "@ + link@ + " -> "@ + target@,
                PermissionLevel::UserWrite,
            ),
        ),
        Intent::Archive { action, archive, files } => Ok(
            archive_spec(action@, archive@, files.deep_view()),
        ),
        Intent::Cron { action, schedule, command } => cron_spec(
            action@,
            opt_view(*schedule),
            opt_view(*command),
        ),
        Intent::ServiceEnable { service, enable } => {
            let verb = if *enable {
                "enable"@
            } else {
                "disable"@
            };
            Ok(
                described(
                    "systemctl"@,
                    seq![verb, service@],
                    verb + " service "@ + service@,
                    PermissionLevel::Admin,
                ),
            )
        },
        Intent::EnvVar { action, name, value } => env_spec(
            action@,
            opt_view(*name),
            opt_view(*value),
        ),
        _ => Err(Failure::NotForThisTranslator { family: "system"@ }),
    }
}

fn journal(
    unit: &Option<String>,
    priority: &Option<String>,
    lines: &Option<usize>,
    since: &Option<String>,
) -> (t: Translation)
    ensures
        t@ == described(
            "journalctl"@,
            journal_args(opt_view(*unit), opt_view(*priority), *lines, opt_view(*since)),
            journal_desc(opt_view(*unit), opt_view(*priority)),
            PermissionLevel::ReadOnly,
        ),
{
    let mut args: Vec<String> = Vec::new();
    assert(args.deep_view() =~= Seq::<Seq<char>>::empty());
    push_opt_pair(&mut args, "-u", unit);
    push_opt_pair(&mut args, "-p", priority);
    let count = match lines {
        Some(n) => Some(usize_to_text(*n)),
        None => None,
    };
    push_opt_pair(&mut args, "-n", &count);
    push_opt_pair(&mut args, "--since", since);
    assert(opt_view(count) == match *lines {
        Some(n) => Some(decimal(n as nat)),
        None => None::<Seq<char>>,
    });
    if args.len() == 0 {
        args = list2(owned("-n"), owned("50"));
    }
    assert(args.deep_view() == journal_args(
        opt_view(*unit),
        opt_view(*priority),
        *lines,
        opt_view(*since),
    ));
    let desc = match (unit, priority) {
        (Some(u), Some(p)) => cat4("Show ", p.as_str(), " priority journal logs for ", u.as_str()),
        (Some(u), None) => cat("Show journal logs for ", u.as_str()),
        (None, Some(p)) => cat3("Show ", p.as_str(), " priority journal logs"),
        (None, None) => owned("Show recent journal log entries"),
    };
    Translation::described("journalctl", args, desc, PermissionLevel::ReadOnly)
}

fn mount(action: &String, mountpoint: &Option<String>, filesystem: &Option<String>) -> (r: Result<
    Translation,
    TranslateError,
>)
    ensures
        outcome(r) == mount_spec(action@, opt_view(*mountpoint), opt_view(*filesystem)),
{
    let a = action.as_str();
    if str_eq(a, "list") {
        let mut args: Vec<String> = Vec::new();
        assert(args.deep_view() =~= Seq::<Seq<char>>::empty());
        push_opt_pair(&mut args, "-t", filesystem);
        assert(args.deep_view() =~= opt_pair("-t"@, opt_view(*filesystem)));
        let d = match filesystem {
            Some(fs) => cat3("List ", fs.as_str(), " mounts"),
            None => owned("List all mounted filesystems"),
        };
        Ok(Translation::described("findmnt", args, d, PermissionLevel::Safe))
    } else if str_eq(a, "unmount") {
        let mp = or_text(mountpoint, "/mnt");
        let d = cat("Unmount ", mp.as_str());
        Ok(Translation::described("fusermount", list2(owned("-u"), mp), d, PermissionLevel::Admin))
    } else if str_eq(a, "mount") {
        let fs = or_text(filesystem, "");
        let mp = or_text(mountpoint, "/mnt");
        let d = cat4("Mount ", fs.as_str(), " on ", mp.as_str());
        Ok(Translation::described("mount", list2(fs, mp), d, PermissionLevel::Admin))
    } else {
        Err(TranslateError::UnknownAction { subject: owned("mount"), action: action.clone() })
    }
}

fn boot(action: &String, entry: &Option<String>, value: &Option<String>) -> (r: Result<
    Translation,
    TranslateError,
>)
    ensures
        outcome(r) == boot_spec(action@, opt_view(*entry), opt_view(*value)),
{
    let a = action.as_str();
    if str_eq(a, "list") {
        let d = owned("List boot entries");
        Ok(Translation::described("bootctl", list1(owned("list")), d, PermissionLevel::ReadOnly))
    } else if str_eq(a, "default") {
        let e = or_text(entry, "unknown");
        let d = cat("Set default boot entry to ", e.as_str());
        let args = list2(owned("set-default"), e);
        Ok(Translation::described("bootctl", args, d, PermissionLevel::Admin))
    } else if str_eq(a, "timeout") {
        let v = or_text(value, "5");
        let d = cat("Set boot timeout to ", v.as_str());
        let args = list2(owned("set-timeout"), v);
        Ok(Translation::described("bootctl", args, d, PermissionLevel::Admin))
    } else {
        Err(TranslateError::UnknownAction { subject: owned("boot config"), action: action.clone() })
    }
}

fn update(action: &String) -> (r: Result<Translation, TranslateError>)
    ensures
        outcome(r) == update_spec(action@),
{
    let a = action.as_str();
    if str_eq(a, "check") {
        let d = owned("Check for available system updates");
        Ok(Translation::described("agnos-update", list1(owned("check")), d, PermissionLevel::Safe))
    } else if str_eq(a, "apply") {
        let d = owned("Apply system updates");
        Ok(Translation::described("agnos-update", list1(owned("apply")), d, PermissionLevel::Admin))
    } else if str_eq(a, "rollback") {
        let d = owned("Rollback last system update");
        let args = list1(owned("rollback"));
        Ok(Translation::described("agnos-update", args, d, PermissionLevel::Admin))
    } else if str_eq(a, "status") {
        let d = owned("Show current system version and update status");
        Ok(Translation::described("agnos-update", list1(owned("status")), d, PermissionLevel::Safe))
    } else {
        Err(TranslateError::UnknownAction { subject: owned("update"), action: action.clone() })
    }
}

fn archive_files(flag: &str, archive: &String, files: &Vec<String>) -> (v: Vec<String>)
    ensures
        v.deep_view() == seq![flag@, archive@] + files.deep_view(),
{
    let mut v = list2(owned(flag), archive.clone());
    push_all(&mut v, files);
    v
}

fn archive_cmd(action: &String, archive: &String, files: &Vec<String>) -> (t: Translation)
    ensures
        t@ == archive_spec(action@, archive@, files.deep_view()),
{
    let a = action.as_str();
    if str_eq(a, "tar") || str_eq(a, "archive") || str_eq(a, "compress") {
        let d = cat("Create tar archive ", archive.as_str());
        let args = archive_files("-czf", archive, files);
        Translation::described("tar", args, d, PermissionLevel::UserWrite)
    } else if str_eq(a, "zip") {
        let d = cat("Create zip archive ", archive.as_str());
        let args = archive_files("-r", archive, files);
        Translation::described("zip", args, d, PermissionLevel::UserWrite)
    } else if str_eq(a, "extract") || str_eq(a, "untar") || str_eq(a, "decompress") {
        let d = cat("Extract archive ", archive.as_str());
        if ends_with(archive.as_str(), ".zip") {
            Translation::described("unzip", list1(archive.clone()), d, PermissionLevel::UserWrite)
        } else {
            let args = list2(owned("-xf"), archive.clone());
            Translation::described("tar", args, d, PermissionLevel::UserWrite)
        }
    } else if str_eq(a, "unzip") {
        let d = cat("Extract zip archive ", archive.as_str());
        Translation::described("unzip", list1(archive.clone()), d, PermissionLevel::UserWrite)
    } else {
        let d = cat("Archive operation on ", archive.as_str());
        let args = list2(owned("-czf"), archive.clone());
        Translation::described("tar", args, d, PermissionLevel::UserWrite)
    }
}

fn cron(action: &String, schedule: &Option<String>, command: &Option<String>) -> (r: Result<
    Translation,
    TranslateError,
>)
    ensures
        outcome(r) == cron_spec(action@, opt_view(*schedule), opt_view(*command)),
{
    let a = action.as_str();
    if str_eq(a, "list") || str_eq(a, "show") {
        let d = owned("List crontab entries");
        Ok(Translation::described("crontab", list1(owned("-l")), d, PermissionLevel::UserWrite))
    } else if str_eq(a, "add") {
        let sched = or_text(schedule, "* * * * *");
        let cmd = or_text(command, "echo hello");
        let d = cat4("Add cron job: ", sched.as_str(), " ", cmd.as_str());
        Ok(Translation::described("crontab", list1(owned("-l")), d, PermissionLevel::SystemWrite))
    } else if str_eq(a, "remove") {
        let d = owned("Remove crontab entries");
        Ok(Translation::described("crontab", list1(owned("-r")), d, PermissionLevel::SystemWrite))
    } else if str_eq(a, "edit") {
        let d = owned("Edit crontab");
        Ok(Translation::described("crontab", list1(owned("-e")), d, PermissionLevel::SystemWrite))
    } else {
        Err(TranslateError::UnknownAction { subject: owned("cron"), action: action.clone() })
    }
}

fn env_var(action: &String, name: &Option<String>, value: &Option<String>) -> (r: Result<
    Translation,
    TranslateError,
>)
    ensures
        outcome(r) == env_spec(action@, opt_view(*name), opt_view(*value)),
{
    let a = action.as_str();
    let var = or_text(name, "VAR");
    if str_eq(a, "show") || str_eq(a, "print") || str_eq(a, "echo") {
        let d = cat("Show environment variable ", var.as_str());
        let args: Vec<String> = Vec::new();
        assert(args.deep_view() =~= Seq::<Seq<char>>::empty());
        Ok(Translation::described("env", args, d, PermissionLevel::Safe))
    } else if str_eq(a, "set") || str_eq(a, "export") {
        let val = or_text(value, "");
        let d = cat4("Set environment variable ", var.as_str(), "=", val.as_str());
        let assignment = cat3(var.as_str(), "=", val.as_str());
        Ok(Translation::described("export", list1(assignment), d, PermissionLevel::UserWrite))
    } else if str_eq(a, "unset") {
        let d = cat("Unset environment variable ", var.as_str());
        Ok(Translation::described("unset", list1(var), d, PermissionLevel::UserWrite))
    } else {
        Err(TranslateError::UnknownAction { subject: owned("env var"), action: action.clone() })
    }
}

/// Translates a system administration request into the command that does it.
pub fn translate_system(intent: &Intent) -> (r: Result<Translation, TranslateError>)
    requires
        is_system_intent(intent),
    ensures
        outcome(r) == translate_system_spec(intent),
{
    match intent {
        Intent::JournalView { unit, priority, lines, since } => Ok(
            journal(unit, priority, lines, since),
        ),
        Intent::DeviceInfo { subsystem, device_path } => {
            if let Some(p) = device_path {
                let d = cat("Show device info for ", p.as_str());
                let args = list4(owned("info"), owned("--query=all"), owned("--name"), p.clone());
                Ok(Translation::described("udevadm", args, d, PermissionLevel::ReadOnly))
            } else if let Some(s) = subsystem {
                let d = cat3("List ", s.as_str(), " devices");
                let args = list3(owned("info"), owned("--subsystem-match"), s.clone());
                Ok(Translation::described("udevadm", args, d, PermissionLevel::ReadOnly))
            } else {
                let d = owned("List all devices");
                let args = list2(owned("info"), owned("--export-db"));
                Ok(Translation::described("udevadm", args, d, PermissionLevel::ReadOnly))
            }
        },
        Intent::MountControl { action, mountpoint, filesystem } => mount(
            action,
            mountpoint,
            filesystem,
        ),
        Intent::BootConfig { action, entry, value } => boot(action, entry, value),
        Intent::SystemUpdate { action } => update(action),
        Intent::Chmod { path, mode } => {
            let d = cat4("Change permissions of ", path.as_str(), " to ", mode.as_str());
            let p = path.as_str();
            let permission = if starts_with(p, "/etc") || starts_with(p, "/usr") || starts_with(
                p,
                "/sys",
            ) {
                PermissionLevel::SystemWrite
            } else {
                PermissionLevel::UserWrite
            };
            Ok(Translation::described("chmod", list2(mode.clone(), path.clone()), d, permission))
        },
        Intent::Chown { path, owner } => {
            let d = cat4("Change ownership of ", path.as_str(), " to ", owner.as_str());
            let args = list2(owner.clone(), path.clone());
            Ok(Translation::described("chown", args, d, PermissionLevel::Admin))
        },
        Intent::Symlink { target, link } => {
            let d = cat4("Create symbolic link ", link.as_str(), " -> ", target.as_str());
            let args = list3(owned("-s"), target.clone(), link.clone());
            Ok(Translation::described("ln", args, d, PermissionLevel::UserWrite))
        },
        Intent::Archive { action, archive: name, files } => Ok(archive_cmd(action, name, files)),
        Intent::Cron { action, schedule, command } => cron(action, schedule, command),
        Intent::ServiceEnable { service, enable } => {
            let verb = if *enable {
                "enable"
            } else {
                "disable"
            };
            let d = cat3(verb, " service ", service.as_str());
            let args = list2(owned(verb), service.clone());
            Ok(Translation::described("systemctl", args, d, PermissionLevel::Admin))
        },
        Intent::EnvVar { action, name, value } => env_var(action, name, value),
        _ => Err(TranslateError::NotForThisTranslator { family: owned("system") }),
    }
}

/// What each system request runs: the command, its arguments and the privilege, in
/// terms of the request's own fields, and the refusal of an action the request's
/// family does not know.
pub proof fn law_system_commands(intent: &Intent)
    ensures
        intent matches Intent::Cron { action, schedule, command } ==> ((action@ == "list"@ || action@ == "show"@) ==> (translate_system_spec(intent) matches Ok(t)
                && t.command == "crontab"@
                && t.args == seq!["-l"@]
                && t.permission == PermissionLevel::UserWrite
                && t.description == "List crontab entries"@)),
        intent matches Intent::Cron { action, schedule, command } ==> ((action@ == "add"@) ==> (translate_system_spec(intent) matches Ok(t)
                && t.command == "crontab"@
                && t.args == seq!["-l"@]
                && t.permission == PermissionLevel::SystemWrite
                && t.description == "Add cron job: "@ + (match opt_view(*schedule) { Some(x) => x, None => "* * * * *"@ }) + " "@ + (match opt_view(*command) { Some(x) => x, None => "echo hello"@ }))),
        intent matches Intent::Cron { action, schedule, command } ==> ((action@ == "remove"@) ==> (translate_system_spec(intent) matches Ok(t)
                && t.command == "crontab"@
                && t.args == seq!["-r"@]
                && t.permission == PermissionLevel::SystemWrite
                && t.description == "Remove crontab entries"@)),
        intent matches Intent::Cron { action, schedule, command } ==> ((action@ == "edit"@) ==> (translate_system_spec(intent) matches Ok(t)
                && t.command == "crontab"@
                && t.args == seq!["-e"@]
                && t.permission == PermissionLevel::SystemWrite
                && t.description == "Edit crontab"@)),
        intent matches Intent::Cron { action, schedule, command } ==> (!(action@ == "list"@ || action@ == "show"@ || action@ == "add"@ || action@ == "remove"@ || action@ == "edit"@) ==> translate_system_spec(intent) == Err::<TranslationView, Failure>(Failure::UnknownAction { subject: "cron"@, action: action@ })),
        intent matches Intent::MountControl { action, mountpoint, filesystem } ==> ((action@ == "list"@) ==> (translate_system_spec(intent) matches Ok(t)
                && t.command == "findmnt"@
                && t.args == (match opt_view(*filesystem) { Some(f) => seq!["-t"@, f], None => Seq::empty() })
                && t.permission == PermissionLevel::Safe)),
        intent matches Intent::MountControl { action, mountpoint, filesystem } ==> ((action@ == "unmount"@) ==> (translate_system_spec(intent) matches Ok(t)
                && t.command == "fusermount"@
                && t.args == seq!["-u"@, (match opt_view(*mountpoint) { Some(x) => x, None => "/mnt"@ })]
                && t.permission == PermissionLevel::Admin
                && t.description == "Unmount "@ + (match opt_view(*mountpoint) { Some(x) => x, None => "/mnt"@ }))),
        intent matches Intent::MountControl { action, mountpoint, filesystem } ==> ((action@ == "mount"@) ==> (translate_system_spec(intent) matches Ok(t)
                && t.command == "mount"@
                && t.args == seq![(match opt_view(*filesystem) { Some(x) => x, None => ""@ }), (match opt_view(*mountpoint) { Some(x) => x, None => "/mnt"@ })]
                && t.permission == PermissionLevel::Admin)),
        intent matches Intent::MountControl { action, mountpoint, filesystem } ==> (!(action@ == "list"@ || action@ == "unmount"@ || action@ == "mount"@) ==> translate_system_spec(intent) == Err::<TranslationView, Failure>(Failure::UnknownAction { subject: "mount"@, action: action@ })),
        intent matches Intent::BootConfig { action, entry, value } ==> ((action@ == "list"@) ==> (translate_system_spec(intent) matches Ok(t)
                && t.command == "bootctl"@
                && t.args == seq!["list"@]
                && t.permission == PermissionLevel::ReadOnly)),
        intent matches Intent::BootConfig { action, entry, value } ==> ((action@ == "default"@) ==> (translate_system_spec(intent) matches Ok(t)
                && t.command == "bootctl"@
                && t.args == seq!["set-default"@, (match opt_view(*entry) { Some(x) => x, None => "unknown"@ })]
                && t.permission == PermissionLevel::Admin)),
        intent matches Intent::BootConfig { action, entry, value } ==> ((action@ == "timeout"@) ==> (translate_system_spec(intent) matches Ok(t)
                && t.command == "bootctl"@
                && t.args == seq!["set-timeout"@, (match opt_view(*value) { Some(x) => x, None => "5"@ })]
                && t.permission == PermissionLevel::Admin)),
        intent matches Intent::BootConfig { action, entry, value } ==> (!(action@ == "list"@ || action@ == "default"@ || action@ == "timeout"@) ==> translate_system_spec(intent) == Err::<TranslationView, Failure>(Failure::UnknownAction { subject: "boot config"@, action: action@ })),
        intent matches Intent::SystemUpdate { action } ==> ((action@ == "check"@) ==> (translate_system_spec(intent) matches Ok(t)
                && t.command == "agnos-update"@
                && t.args == seq!["check"@]
                && t.permission == PermissionLevel::Safe)),
        intent matches Intent::SystemUpdate { action } ==> ((action@ == "apply"@) ==> (translate_system_spec(intent) matches Ok(t)
                && t.command == "agnos-update"@
                && t.args == seq!["apply"@]
                && t.permission == PermissionLevel::Admin)),
        intent matches Intent::SystemUpdate { action } ==> ((action@ == "rollback"@) ==> (translate_system_spec(intent) matches Ok(t)
                && t.command == "agnos-update"@
                && t.args == seq!["rollback"@]
                && t.permission == PermissionLevel::Admin)),
        intent matches Intent::SystemUpdate { action } ==> ((action@ == "status"@) ==> (translate_system_spec(intent) matches Ok(t)
                && t.command == "agnos-update"@
                && t.args == seq!["status"@]
                && t.permission == PermissionLevel::Safe)),
        intent matches Intent::SystemUpdate { action } ==> (!(action@ == "check"@ || action@ == "apply"@ || action@ == "rollback"@ || action@ == "status"@) ==> translate_system_spec(intent) == Err::<TranslationView, Failure>(Failure::UnknownAction { subject: "update"@, action: action@ })),
        intent matches Intent::Archive { action, archive, files } ==> ((action@ == "tar"@ || action@ == "archive"@ || action@ == "compress"@) ==> (translate_system_spec(intent) matches Ok(t)
                && t.command == "tar"@
                && t.args == seq!["-czf"@, archive@] + files.deep_view()
                && t.permission == PermissionLevel::UserWrite)),
        intent matches Intent::Archive { action, archive, files } ==> ((action@ == "zip"@) ==> (translate_system_spec(intent) matches Ok(t)
                && t.command == "zip"@
                && t.args == seq!["-r"@, archive@] + files.deep_view()
                && t.permission == PermissionLevel::UserWrite)),
        intent matches Intent::Archive { action, archive, files } ==> ((action@ == "extract"@ || action@ == "untar"@ || action@ == "decompress"@) && has_suffix(archive@, ".zip"@) ==> (translate_system_spec(intent) matches Ok(t)
                && t.command == "unzip"@
                && t.args == seq![archive@]
                && t.permission == PermissionLevel::UserWrite)),
        intent matches Intent::Archive { action, archive, files } ==> ((action@ == "extract"@ || action@ == "untar"@ || action@ == "decompress"@) && !has_suffix(archive@, ".zip"@) ==> (translate_system_spec(intent) matches Ok(t)
                && t.command == "tar"@
                && t.args == seq!["-xf"@, archive@]
                && t.permission == PermissionLevel::UserWrite)),
        intent matches Intent::Archive { action, archive, files } ==> ((action@ == "unzip"@) ==> (translate_system_spec(intent) matches Ok(t)
                && t.command == "unzip"@
                && t.args == seq![archive@]
                && t.permission == PermissionLevel::UserWrite)),
        intent matches Intent::Archive { action, archive, files } ==> (!(action@ == "tar"@ || action@ == "archive"@ || action@ == "compress"@ || action@ == "zip"@ || action@ == "extract"@ || action@ == "untar"@ || action@ == "decompress"@ || action@ == "unzip"@) ==> (translate_system_spec(intent) matches Ok(t)
                && t.command == "tar"@
                && t.args == seq!["-czf"@, archive@]
                && t.permission == PermissionLevel::UserWrite)),
        intent matches Intent::EnvVar { action, name, value } ==> ((action@ == "show"@ || action@ == "print"@ || action@ == "echo"@) ==> (translate_system_spec(intent) matches Ok(t)
                && t.command == "env"@
                && t.args == Seq::<Seq<char>>::empty()
                && t.permission == PermissionLevel::Safe)),
        intent matches Intent::EnvVar { action, name, value } ==> ((action@ == "set"@ || action@ == "export"@) ==> (translate_system_spec(intent) matches Ok(t)
                && t.command == "export"@
                && t.args == seq![(match opt_view(*name) { Some(x) => x, None => "VAR"@ }) + "="@ + (match opt_view(*value) { Some(x) => x, None => ""@ })]
                && t.permission == PermissionLevel::UserWrite)),
        intent matches Intent::EnvVar { action, name, value } ==> ((action@ == "unset"@) ==> (translate_system_spec(intent) matches Ok(t)
                && t.command == "unset"@
                && t.args == seq![(match opt_view(*name) { Some(x) => x, None => "VAR"@ })]
                && t.permission == PermissionLevel::UserWrite)),
        intent matches Intent::EnvVar { action, name, value } ==> (!(action@ == "show"@ || action@ == "print"@ || action@ == "echo"@ || action@ == "set"@ || action@ == "export"@ || action@ == "unset"@) ==> translate_system_spec(intent) == Err::<TranslationView, Failure>(Failure::UnknownAction { subject: "env var"@, action: action@ })),
        intent matches Intent::Chown { path, owner } ==> (true ==> (translate_system_spec(intent) matches Ok(t)
                && t.command == "chown"@
                && t.args == seq![owner@, path@]
                && t.permission == PermissionLevel::Admin
                && t.description == "Change ownership of "@ + path@ + " to "@ + owner@)),
        intent matches Intent::Symlink { target, link } ==> (true ==> (translate_system_spec(intent) matches Ok(t)
                && t.command == "ln"@
                && t.args == seq!["-s"@, target@, link@]
                && t.permission == PermissionLevel::UserWrite
                && t.description == "Create symbolic link "@ + link@ + " -> "@ + target@)),
        intent matches Intent::Chmod { path, mode } ==> (true ==> (translate_system_spec(intent) matches Ok(t) && t.command == "chmod"@ && t.args == seq![mode@, path@]
                && (t.permission == PermissionLevel::SystemWrite <==> (has_prefix(path@, "/etc"@) || has_prefix(path@, "/usr"@) || has_prefix(path@, "/sys"@)))
                && (t.permission == PermissionLevel::SystemWrite || t.permission == PermissionLevel::UserWrite))),
        intent matches Intent::ServiceEnable { service, enable } ==> (true ==> (translate_system_spec(intent) matches Ok(t)
                && t.command == "systemctl"@
                && t.args == (if *enable { seq!["enable"@, service@] } else { seq!["disable"@, service@] })
                && t.permission == PermissionLevel::Admin)),
        intent matches Intent::DeviceInfo { subsystem, device_path } ==> (true ==> (translate_system_spec(intent) matches Ok(t)
                && t.command == "udevadm"@
                && t.args == (match (opt_view(*device_path), opt_view(*subsystem)) { (Some(p), _) => seq!["info"@, "--query=all"@, "--name"@, p], (None, Some(s)) => seq!["info"@, "--subsystem-match"@, s], (None, None) => seq!["info"@, "--export-db"@] })
                && t.permission == PermissionLevel::ReadOnly)),
        intent matches Intent::JournalView { unit, priority, lines, since } ==> (unit is None && priority is None && lines is None && since is None ==> (translate_system_spec(intent) matches Ok(t)
                && t.command == "journalctl"@
                && t.args == seq!["-n"@, "50"@]
                && t.permission == PermissionLevel::ReadOnly
                && t.description == "Show recent journal log entries"@)),
        intent matches Intent::JournalView { unit, priority, lines, since } ==> (true ==> (match opt_view(*unit) { Some(u) => translate_system_spec(intent) matches Ok(t) && t.args.len() >= 2 && t.args[0] == "-u"@ && t.args[1] == u, None => true })),
{
    reveal_strlit("add");
    reveal_strlit("apply");
    reveal_strlit("archive");
    reveal_strlit("check");
    reveal_strlit("compress");
    reveal_strlit("decompress");
    reveal_strlit("default");
    reveal_strlit("echo");
    reveal_strlit("edit");
    reveal_strlit("export");
    reveal_strlit("extract");
    reveal_strlit("list");
    reveal_strlit("mount");
    reveal_strlit("print");
    reveal_strlit("remove");
    reveal_strlit("rollback");
    reveal_strlit("set");
    reveal_strlit("show");
    reveal_strlit("status");
    reveal_strlit("tar");
    reveal_strlit("timeout");
    reveal_strlit("unmount");
    reveal_strlit("unset");
    reveal_strlit("untar");
    reveal_strlit("unzip");
    reveal_strlit("zip");
    assert("add"@.len() != "edit"@.len());
    assert("add"@.len() != "list"@.len());
    assert("add"@.len() != "remove"@.len());
    assert("add"@.len() != "show"@.len());
    assert("apply"@[0] != "check"@[0]);
    assert("apply"@.len() != "rollback"@.len());
    assert("apply"@.len() != "status"@.len());
    assert("archive"@.len() != "compress"@.len());
    assert("archive"@.len() != "decompress"@.len());
    assert("archive"@[0] != "extract"@[0]);
    assert("archive"@.len() != "tar"@.len());
    assert("archive"@.len() != "untar"@.len());
    assert("archive"@.len() != "unzip"@.len());
    assert("archive"@.len() != "zip"@.len());
    assert("check"@.len() != "rollback"@.len());
    assert("check"@.len() != "status"@.len());
    assert("compress"@.len() != "decompress"@.len());
    assert("compress"@.len() != "extract"@.len());
    assert("compress"@.len() != "tar"@.len());
    assert("compress"@.len() != "untar"@.len());
    assert("compress"@.len() != "unzip"@.len());
    assert("compress"@.len() != "zip"@.len());
    assert("decompress"@.len() != "extract"@.len());
    assert("decompress"@.len() != "tar"@.len());
    assert("decompress"@.len() != "untar"@.len());
    assert("decompress"@.len() != "unzip"@.len());
    assert("decompress"@.len() != "zip"@.len());
    assert("default"@.len() != "list"@.len());
    assert("default"@[0] != "timeout"@[0]);
    assert("echo"@.len() != "export"@.len());
    assert("echo"@.len() != "print"@.len());
    assert("echo"@.len() != "set"@.len());
    assert("echo"@[0] != "show"@[0]);
    assert("echo"@.len() != "unset"@.len());
    assert("edit"@[0] != "list"@[0]);
    assert("edit"@.len() != "remove"@.len());
    assert("edit"@[0] != "show"@[0]);
    assert("export"@.len() != "print"@.len());
    assert("export"@.len() != "set"@.len());
    assert("export"@.len() != "show"@.len());
    assert("export"@.len() != "unset"@.len());
    assert("extract"@.len() != "tar"@.len());
    assert("extract"@.len() != "untar"@.len());
    assert("extract"@.len() != "unzip"@.len());
    assert("extract"@.len() != "zip"@.len());
    assert("list"@.len() != "mount"@.len());
    assert("list"@.len() != "remove"@.len());
    assert("list"@[0] != "show"@[0]);
    assert("list"@.len() != "timeout"@.len());
    assert("list"@.len() != "unmount"@.len());
    assert("mount"@.len() != "unmount"@.len());
    assert("print"@.len() != "set"@.len());
    assert("print"@.len() != "show"@.len());
    assert("print"@[0] != "unset"@[0]);
    assert("remove"@.len() != "show"@.len());
    assert("rollback"@.len() != "status"@.len());
    assert("set"@.len() != "show"@.len());
    assert("set"@.len() != "unset"@.len());
    assert("show"@.len() != "unset"@.len());
    assert("tar"@.len() != "untar"@.len());
    assert("tar"@.len() != "unzip"@.len());
    assert("tar"@[0] != "zip"@[0]);
    assert("untar"@[2] != "unzip"@[2]);
    assert("untar"@.len() != "zip"@.len());
    assert("unzip"@.len() != "zip"@.len());
}

} // verus!
