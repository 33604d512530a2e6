//! Containers through `stiva`.
use vstd::prelude::*;

use crate::intent::{outcome, run_view, Failure, Intent, TranslateError, Translation, TranslationView};
use crate::security::PermissionLevel;
use crate::text::{
    cat, cat4, decimal, flag_if, list1, list2, list3, opt_pair, opt_view, owned, push_all,
    push_flag_if, push_opt_pair, push_text, usize_to_text,
};

verus! {

/// The requests that `translate_stiva` handles.
pub open spec fn is_stiva_intent(intent: &Intent) -> bool {
    ||| intent is StivaRun
    ||| intent is StivaStop
    ||| intent is StivaPs
    ||| intent is StivaRm
    ||| intent is StivaPull
    ||| intent is StivaImages
    ||| intent is StivaRmi
    ||| intent is StivaBuild
    ||| intent is StivaLogs
    ||| intent is StivaExec
    ||| intent is StivaInspect
    ||| intent is StivaAnsamblu
}

/// A `stiva` translation.
pub open spec fn stiva(
    args: Seq<Seq<char>>,
    desc: Seq<char>,
    permission: PermissionLevel,
    explanation: Seq<char>,
) -> TranslationView {
    run_view("stiva"@, args, desc, permission, explanation)
}

/// The outcome that `translate_stiva` gives for each container request.
pub open spec fn translate_stiva_spec(intent: &Intent) -> Result<TranslationView, Failure> {
    match intent {
        Intent::StivaRun { image, name, args } => Ok(
            stiva(
                seq!["run"@] + opt_pair("--name"@, opt_view(*name)) + seq![image@]
                    + args.deep_view(),
                "Run container from image "@ + image@,
                PermissionLevel::SystemWrite,
                "Runs a new container from the specified image"@,
            ),
        ),
        Intent::StivaStop { id } => Ok(
            stiva(
                seq!["stop"@, id@],
                "Stop container "@ + id@,
                PermissionLevel::SystemWrite,
                "Stops a running container"@,
            ),
        ),
        Intent::StivaPs { all } => Ok(
            stiva(
                seq!["ps"@] + flag_if(*all, "-a"@),
                "List containers"@,
                PermissionLevel::ReadOnly,
                "Lists running containers"@,
            ),
        ),
        Intent::StivaRm { id, force } => Ok(
            stiva(
                seq!["rm"@] + flag_if(*force, "-f"@) + seq![id@],
                "Remove container "@ + id@,
                PermissionLevel::SystemWrite,
                "Removes a container"@,
            ),
        ),
        Intent::StivaPull { image } => Ok(
            stiva(
                seq!["pull"@, image@],
                "Pull image "@ + image@,
                PermissionLevel::UserWrite,
                "Pulls a container image from a registry"@,
            ),
        ),
        Intent::StivaImages => Ok(
            stiva(
                seq!["images"@],
                "List images"@,
                PermissionLevel::ReadOnly,
                "Lists available container images"@,
            ),
        ),
        Intent::StivaRmi { image } => Ok(
            stiva(
                seq!["rmi"@, image@],
                "Remove image "@ + image@,
                PermissionLevel::SystemWrite,
                "Removes a container image"@,
            ),
        ),
        Intent::StivaBuild { path, tag } => Ok(
            stiva(
                seq!["build"@, path@] + opt_pair("-t"@, opt_view(*tag)),
                "Build image from "@ + path@,
                PermissionLevel::UserWrite,
                "Builds a container image from a build context"@,
            ),
        ),
        Intent::StivaLogs { id, tail } => Ok(
            stiva(
                seq!["logs"@, id@] + opt_pair(
                    "--tail"@,
                    match *tail {
                        Some(n) => Some(decimal(n as nat)),
                        None => None,
                    },
                ),
                "Show logs for container "@ + id@,
                PermissionLevel::ReadOnly,
                "Displays container log output"@,
            ),
        ),
        Intent::StivaExec { id, command, args } => Ok(
            stiva(
                seq!["exec"@, id@, command@] + args.deep_view(),
                "Execute "@ + command@ + " in container "@ + id@,
                PermissionLevel::SystemWrite,
                "Executes a command inside a running container"@,
            ),
        ),
        Intent::StivaInspect { target } => Ok(
            stiva(
                seq!["inspect"@, target@],
                "Inspect "@ + target@,
                PermissionLevel::ReadOnly,
                "Shows detailed information about a container or image"@,
            ),
        ),
        Intent::StivaAnsamblu { action, file } => Ok(
            stiva(
                seq!["ansamblu"@, action@] + opt_pair("-f"@, opt_view(*file)),
                "Ansamblu "@ + action@,
                PermissionLevel::SystemWrite,
                "Manages multi-container applications via ansamblu (compose)"@,
            ),
        ),
        _ => Err(Failure::NotForThisTranslator { family: "stiva"@ }),
    }
}

/// Translates a container request into the `stiva` command that does it.
pub fn translate_stiva(intent: &Intent) -> (r: Result<Translation, TranslateError>)
    requires
        is_stiva_intent(intent),
    ensures
        outcome(r) == translate_stiva_spec(intent),
{
    match intent {
        Intent::StivaRun { image, name, args } => {
            let mut a = list1(owned("run"));
            push_opt_pair(&mut a, "--name", name);
            push_text(&mut a, image.clone());
            push_all(&mut a, args);
            assert(a.deep_view() =~= seq!["run"@] + opt_pair("--name"@, opt_view(*name))
                + seq![image@] + args.deep_view());
            Ok(Translation::cmd("stiva", a, cat("Run container from image ", image.as_str()),
                PermissionLevel::SystemWrite, "Runs a new container from the specified image"))
        },
        Intent::StivaStop { id } => Ok(Translation::cmd("stiva", list2(owned("stop"), id.clone()),
            cat("Stop container ", id.as_str()), PermissionLevel::SystemWrite,
            "Stops a running container")),
        Intent::StivaPs { all } => {
            let mut a = list1(owned("ps"));
            push_flag_if(&mut a, *all, "-a");
            Ok(Translation::cmd("stiva", a, owned("List containers"), PermissionLevel::ReadOnly,
                "Lists running containers"))
        },
        Intent::StivaRm { id, force } => {
            let mut a = list1(owned("rm"));
            push_flag_if(&mut a, *force, "-f");
            push_text(&mut a, id.clone());
            assert(a.deep_view() =~= seq!["rm"@] + flag_if(*force, "-f"@) + seq![id@]);
            Ok(Translation::cmd("stiva", a, cat("Remove container ", id.as_str()),
                PermissionLevel::SystemWrite, "Removes a container"))
        },
        Intent::StivaPull { image } => Ok(Translation::cmd("stiva",
            list2(owned("pull"), image.clone()), cat("Pull image ", image.as_str()),
            PermissionLevel::UserWrite, "Pulls a container image from a registry")),
        Intent::StivaImages => Ok(Translation::cmd("stiva", list1(owned("images")),
            owned("List images"), PermissionLevel::ReadOnly, "Lists available container images")),
        Intent::StivaRmi { image } => Ok(Translation::cmd("stiva",
            list2(owned("rmi"), image.clone()), cat("Remove image ", image.as_str()),
            PermissionLevel::SystemWrite, "Removes a container image")),
        Intent::StivaBuild { path, tag } => {
            let mut a = list2(owned("build"), path.clone());
            push_opt_pair(&mut a, "-t", tag);
            Ok(Translation::cmd("stiva", a, cat("Build image from ", path.as_str()),
                PermissionLevel::UserWrite, "Builds a container image from a build context"))
        },
        Intent::StivaLogs { id, tail } => {
            let mut a = list2(owned("logs"), id.clone());
            let count = match tail {
                Some(n) => Some(usize_to_text(*n)),
                None => None,
            };
            push_opt_pair(&mut a, "--tail", &count);
            assert(opt_view(count) == match *tail {
                Some(n) => Some(decimal(n as nat)),
                None => None::<Seq<char>>,
            });
            Ok(Translation::cmd("stiva", a, cat("Show logs for container ", id.as_str()),
                PermissionLevel::ReadOnly, "Displays container log output"))
        },
        Intent::StivaExec { id, command, args } => {
            let mut a = list3(owned("exec"), id.clone(), command.clone());
            push_all(&mut a, args);
            let d = cat4("Execute ", command.as_str(), " in container ", id.as_str());
            Ok(Translation::cmd("stiva", a, d, PermissionLevel::SystemWrite,
                "Executes a command inside a running container"))
        },
        Intent::StivaInspect { target } => Ok(Translation::cmd("stiva",
            list2(owned("inspect"), target.clone()), cat("Inspect ", target.as_str()),
            PermissionLevel::ReadOnly, "Shows detailed information about a container or image")),
        Intent::StivaAnsamblu { action, file } => {
            let mut a = list2(owned("ansamblu"), action.clone());
            push_opt_pair(&mut a, "-f", file);
            Ok(Translation::cmd("stiva", a, cat("Ansamblu ", action.as_str()),
                PermissionLevel::SystemWrite,
                "Manages multi-container applications via ansamblu (compose)"))
        },
        _ => Err(TranslateError::NotForThisTranslator { family: owned("stiva") }),
    }
}

/// What each container request runs: always `stiva`, with the request's own
/// subcommand first and its texts in their places after it. A run names the container
/// (`--name`) just where a name is given, then the image, then the image's own
/// arguments in order; an exec runs the requested command in the requested container
/// with its arguments in order; the optional tag, tail length, compose file and the
/// `-a` and `-f` switches appear just where they are asked for. Listing, logs and
/// inspection only read; pulling and building write as the user; the rest change the
/// system.
pub proof fn law_stiva_commands(intent: &Intent)
    requires
        is_stiva_intent(intent),
    ensures
        translate_stiva_spec(intent) matches Ok(t) && t.command == "stiva"@,
        translate_stiva_spec(intent) matches Ok(t) ==> t.permission == (if intent is StivaPs
            || intent is StivaImages || intent is StivaLogs || intent is StivaInspect {
            PermissionLevel::ReadOnly
        } else if intent is StivaPull || intent is StivaBuild {
            PermissionLevel::UserWrite
        } else {
            PermissionLevel::SystemWrite
        }),
        intent matches Intent::StivaRun { image, name, args } ==> (translate_stiva_spec(intent) matches Ok(t)
            && t.args == (match opt_view(*name) {
                Some(n) => seq!["run"@, "--name"@, n, image@],
                None => seq!["run"@, image@],
            }) + args.deep_view()),
        intent matches Intent::StivaExec { id, command, args } ==> (translate_stiva_spec(intent) matches Ok(t)
            && t.args == seq!["exec"@, id@, command@] + args.deep_view()),
        intent matches Intent::StivaStop { id } ==> (translate_stiva_spec(intent) matches Ok(t)
            && t.args == seq!["stop"@, id@]),
        intent matches Intent::StivaPs { all } ==> (translate_stiva_spec(intent) matches Ok(t)
            && t.args == (if *all { seq!["ps"@, "-a"@] } else { seq!["ps"@] })),
        intent matches Intent::StivaRm { id, force } ==> (translate_stiva_spec(intent) matches Ok(t)
            && t.args == (if *force { seq!["rm"@, "-f"@, id@] } else { seq!["rm"@, id@] })),
        intent matches Intent::StivaPull { image } ==> (translate_stiva_spec(intent) matches Ok(t)
            && t.args == seq!["pull"@, image@]),
        intent is StivaImages ==> (translate_stiva_spec(intent) matches Ok(t) && t.args == seq!["images"@]),
        intent matches Intent::StivaRmi { image } ==> (translate_stiva_spec(intent) matches Ok(t)
            && t.args == seq!["rmi"@, image@]),
        intent matches Intent::StivaBuild { path, tag } ==> (translate_stiva_spec(intent) matches Ok(t)
            && t.args == (match opt_view(*tag) {
                Some(g) => seq!["build"@, path@, "-t"@, g],
                None => seq!["build"@, path@],
            })),
        intent matches Intent::StivaLogs { id, tail } ==> (translate_stiva_spec(intent) matches Ok(t)
            && t.args == (match *tail {
                Some(n) => seq!["logs"@, id@, "--tail"@, decimal(n as nat)],
                None => seq!["logs"@, id@],
            })),
        intent matches Intent::StivaInspect { target } ==> (translate_stiva_spec(intent) matches Ok(t)
            && t.args == seq!["inspect"@, target@]),
        intent matches Intent::StivaAnsamblu { action, file } ==> (translate_stiva_spec(intent) matches Ok(t)
            && t.args == (match opt_view(*file) {
                Some(f) => seq!["ansamblu"@, action@, "-f"@, f],
                None => seq!["ansamblu"@, action@],
            })),
{
    match intent {
        Intent::StivaRun { image, name, args } => {
            assert(seq!["run"@] + opt_pair("--name"@, opt_view(*name)) + seq![image@] =~= (match opt_view(*name) {
                Some(n) => seq!["run"@, "--name"@, n, image@],
                None => seq!["run"@, image@],
            }));
        },
        Intent::StivaPs { all } => {
            assert(seq!["ps"@] + flag_if(*all, "-a"@) =~= (if *all { seq!["ps"@, "-a"@] } else { seq!["ps"@] }));
        },
        Intent::StivaRm { id, force } => {
            assert(seq!["rm"@] + flag_if(*force, "-f"@) + seq![id@] =~= (if *force {
                seq!["rm"@, "-f"@, id@]
            } else {
                seq!["rm"@, id@]
            }));
        },
        Intent::StivaBuild { path, tag } => {
            assert(seq!["build"@, path@] + opt_pair("-t"@, opt_view(*tag)) =~= (match opt_view(*tag) {
                Some(g) => seq!["build"@, path@, "-t"@, g],
                None => seq!["build"@, path@],
            }));
        },
        Intent::StivaLogs { id, tail } => {
            let o = match *tail {
                Some(n) => Some(decimal(n as nat)),
                None => None,
            };
            assert(seq!["logs"@, id@] + opt_pair("--tail"@, o) =~= (match *tail {
                Some(n) => seq!["logs"@, id@, "--tail"@, decimal(n as nat)],
                None => seq!["logs"@, id@],
            }));
        },
        Intent::StivaAnsamblu { action, file } => {
            assert(seq!["ansamblu"@, action@] + opt_pair("-f"@, opt_view(*file)) =~= (match opt_view(*file) {
                Some(f) => seq!["ansamblu"@, action@, "-f"@, f],
                None => seq!["ansamblu"@, action@],
            }));
        },
        _ => {},
    }
}

} // verus!
