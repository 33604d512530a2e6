//! Version control through `git`.
use vstd::prelude::*;

use crate::intent::{outcome, run_view, Failure, Intent, TranslateError, Translation, TranslationView};
use crate::security::PermissionLevel;
use crate::shell::{
    all_shell_safe, lemma_all_shell_safe_concat, lemma_decimal_shell_safe, lemma_shell_safe_concat,
    opt_shell_safe, shell_safe,
};
use crate::text::{
    cat, decimal, flag_if, list1, list2, opt_one, opt_pair, opt_view, owned, push_flag_if,
    push_opt, push_opt_pair, push_text, usize_to_text,
};

verus! {

/// The requests that `translate_git` handles.
pub open spec fn is_git_intent(intent: &Intent) -> bool {
    ||| intent is GitCommit
    ||| intent is GitDiff
    ||| intent is GitBranch
    ||| intent is GitStatus
    ||| intent is GitLog
    ||| intent is GitPush
    ||| intent is GitPull
    ||| intent is GitCheckout
    ||| intent is GitMerge
    ||| intent is GitStash
}

/// A `git` translation.
pub open spec fn git(
    args: Seq<Seq<char>>,
    desc: Seq<char>,
    permission: PermissionLevel,
    explanation: Seq<char>,
) -> TranslationView {
    run_view("git"@, args, desc, permission, explanation)
}

/// The outcome that `translate_git` gives for each git request.
pub open spec fn translate_git_spec(intent: &Intent) -> Result<TranslationView, Failure> {
    match intent {
        Intent::GitCommit { message, all } => Ok(
            git(
                seq!["commit"@] + flag_if(*all, "-a"@) + seq!["-m"@, message@],
                "Commit: "@ + message@,
                PermissionLevel::UserWrite,
                "Creates a git commit with the specified message"@,
            ),
        ),
        Intent::GitDiff { path, staged } => Ok(
            git(
                seq!["diff"@] + flag_if(*staged, "--staged"@) + opt_pair("--"@, opt_view(*path)),
                if *staged {
                    "Show staged changes"@
                } else {
                    "Show working tree changes"@
                },
                PermissionLevel::ReadOnly,
                "Displays differences between working tree, index, or commits"@,
            ),
        ),
        Intent::GitBranch { name, delete } => Ok(
            git(
                seq!["branch"@] + flag_if(*delete, "-d"@) + opt_one(opt_view(*name)),
                match opt_view(*name) {
                    Some(n) => if *delete {
                        "Delete branch "@ + n
                    } else {
                        "Create branch "@ + n
                    },
                    None => "List branches"@,
                },
                PermissionLevel::UserWrite,
                "Manages git branches: list, create, or delete"@,
            ),
        ),
        Intent::GitStatus => Ok(
            git(
                seq!["status"@],
                "Show repository status"@,
                PermissionLevel::ReadOnly,
                "Displays the state of the working tree and staging area"@,
            ),
        ),
        Intent::GitLog { count } => Ok(
            git(
                seq!["log"@, "--oneline"@] + match *count {
                    Some(n) => seq!["-"@ + decimal(n as nat)],
                    None => Seq::empty(),
                },
                "Show commit history"@,
                PermissionLevel::ReadOnly,
                "Displays the commit log in abbreviated format"@,
            ),
        ),
        Intent::GitPush { remote, branch } => Ok(
            git(
                seq!["push"@] + opt_one(opt_view(*remote)) + opt_one(opt_view(*branch)),
                "Push commits to remote"@,
                PermissionLevel::UserWrite,
                "Uploads local branch commits to the remote repository"@,
            ),
        ),
        Intent::GitPull { remote, branch } => Ok(
            git(
                seq!["pull"@] + opt_one(opt_view(*remote)) + opt_one(opt_view(*branch)),
                "Pull from remote"@,
                PermissionLevel::UserWrite,
                "Fetches and integrates changes from the remote repository"@,
            ),
        ),
        Intent::GitCheckout { target } => Ok(
            git(
                seq!["checkout"@, target@],
                "Checkout "@ + target@,
                PermissionLevel::UserWrite,
                "Switches branches or restores working tree files"@,
            ),
        ),
        Intent::GitMerge { branch } => Ok(
            git(
                seq!["merge"@, branch@],
                "Merge branch "@ + branch@,
                PermissionLevel::UserWrite,
                "Joins the specified branch into the current branch"@,
            ),
        ),
        Intent::GitStash { action } => Ok(
            git(
                seq!["stash"@, action@],
                "Stash "@ + action@,
                PermissionLevel::UserWrite,
                "Stashes or restores uncommitted changes"@,
            ),
        ),
        _ => Err(Failure::NotForThisTranslator { family: "git"@ }),
    }
}

/// Translates a git request into the `git` command that does it.
pub fn translate_git(intent: &Intent) -> (r: Result<Translation, TranslateError>)
    requires
        is_git_intent(intent),
    ensures
        outcome(r) == translate_git_spec(intent),
{
    match intent {
        Intent::GitCommit { message, all } => {
            let mut args = list1(owned("commit"));
            push_flag_if(&mut args, *all, "-a");
            push_text(&mut args, owned("-m"));
            push_text(&mut args, message.clone());
            assert(args.deep_view() =~= seq!["commit"@] + flag_if(*all, "-a"@) + seq!["-m"@, message@]);
            let d = cat("Commit: ", message.as_str());
            Ok(Translation::cmd("git", args, d, PermissionLevel::UserWrite,
                "Creates a git commit with the specified message"))
        },
        Intent::GitDiff { path, staged } => {
            let mut args = list1(owned("diff"));
            push_flag_if(&mut args, *staged, "--staged");
            push_opt_pair(&mut args, "--", path);
            let d = if *staged {
                owned("Show staged changes")
            } else {
                owned("Show working tree changes")
            };
            Ok(Translation::cmd("git", args, d, PermissionLevel::ReadOnly,
                "Displays differences between working tree, index, or commits"))
        },
        Intent::GitBranch { name, delete } => {
            let mut args = list1(owned("branch"));
            push_flag_if(&mut args, *delete, "-d");
            push_opt(&mut args, name);
            let d = match name {
                Some(n) => if *delete {
                    cat("Delete branch ", n.as_str())
                } else {
                    cat("Create branch ", n.as_str())
                },
                None => owned("List branches"),
            };
            Ok(Translation::cmd("git", args, d, PermissionLevel::UserWrite,
                "Manages git branches: list, create, or delete"))
        },
        Intent::GitStatus => Ok(Translation::cmd("git", list1(owned("status")),
            owned("Show repository status"), PermissionLevel::ReadOnly,
            "Displays the state of the working tree and staging area")),
        Intent::GitLog { count } => {
            let mut args = list2(owned("log"), owned("--oneline"));
            let ghost before = args.deep_view();
            if let Some(n) = count {
                let c = usize_to_text(*n);
                push_text(&mut args, cat("-", c.as_str()));
            }
            assert(args.deep_view() =~= seq!["log"@, "--oneline"@] + match *count {
                Some(n) => seq!["-"@ + decimal(n as nat)],
                None => Seq::empty(),
            });
            Ok(Translation::cmd("git", args, owned("Show commit history"),
                PermissionLevel::ReadOnly, "Displays the commit log in abbreviated format"))
        },
        Intent::GitPush { remote, branch } => {
            let mut args = list1(owned("push"));
            push_opt(&mut args, remote);
            push_opt(&mut args, branch);
            Ok(Translation::cmd("git", args, owned("Push commits to remote"),
                PermissionLevel::UserWrite, "Uploads local branch commits to the remote repository"))
        },
        Intent::GitPull { remote, branch } => {
            let mut args = list1(owned("pull"));
            push_opt(&mut args, remote);
            push_opt(&mut args, branch);
            Ok(Translation::cmd("git", args, owned("Pull from remote"),
                PermissionLevel::UserWrite, "Fetches and integrates changes from the remote repository"))
        },
        Intent::GitCheckout { target } => Ok(Translation::cmd("git",
            list2(owned("checkout"), target.clone()), cat("Checkout ", target.as_str()),
            PermissionLevel::UserWrite, "Switches branches or restores working tree files")),
        Intent::GitMerge { branch } => Ok(Translation::cmd("git",
            list2(owned("merge"), branch.clone()), cat("Merge branch ", branch.as_str()),
            PermissionLevel::UserWrite, "Joins the specified branch into the current branch")),
        Intent::GitStash { action } => Ok(Translation::cmd("git",
            list2(owned("stash"), action.clone()), cat("Stash ", action.as_str()),
            PermissionLevel::UserWrite, "Stashes or restores uncommitted changes")),
        _ => Err(TranslateError::NotForThisTranslator { family: owned("git") }),
    }
}

/// Whether every text that a git request carries is free of shell metacharacters.
pub open spec fn git_request_shell_safe(intent: &Intent) -> bool {
    match intent {
        Intent::GitCommit { message, .. } => shell_safe(message@),
        Intent::GitDiff { path, .. } => opt_shell_safe(opt_view(*path)),
        Intent::GitBranch { name, .. } => opt_shell_safe(opt_view(*name)),
        Intent::GitPush { remote, branch } => opt_shell_safe(opt_view(*remote)) && opt_shell_safe(
            opt_view(*branch),
        ),
        Intent::GitPull { remote, branch } => opt_shell_safe(opt_view(*remote)) && opt_shell_safe(
            opt_view(*branch),
        ),
        Intent::GitCheckout { target } => shell_safe(target@),
        Intent::GitMerge { branch } => shell_safe(branch@),
        Intent::GitStash { action } => shell_safe(action@),
        _ => true,
    }
}

/// A git command adds no shell metacharacter of its own: where every text of the
/// request is free of them, so is every argument of its command. (The request's own
/// texts are passed on as they are, unchecked.)
pub proof fn law_git_args_add_no_metacharacters(intent: &Intent)
    requires
        git_request_shell_safe(intent),
    ensures
        translate_git_spec(intent) matches Ok(t) ==> all_shell_safe(t.args),
{
    reveal_strlit("commit");
    reveal_strlit("-a");
    reveal_strlit("-m");
    reveal_strlit("diff");
    reveal_strlit("--staged");
    reveal_strlit("--");
    reveal_strlit("branch");
    reveal_strlit("-d");
    reveal_strlit("status");
    reveal_strlit("log");
    reveal_strlit("--oneline");
    reveal_strlit("-");
    reveal_strlit("push");
    reveal_strlit("pull");
    reveal_strlit("checkout");
    reveal_strlit("merge");
    reveal_strlit("stash");
    match intent {
        Intent::GitCommit { message, all } => {
            lemma_all_shell_safe_concat(seq!["commit"@], flag_if(*all, "-a"@));
            lemma_all_shell_safe_concat(seq!["commit"@] + flag_if(*all, "-a"@), seq!["-m"@, message@]);
        },
        Intent::GitDiff { path, staged } => {
            lemma_all_shell_safe_concat(seq!["diff"@], flag_if(*staged, "--staged"@));
            lemma_all_shell_safe_concat(
                seq!["diff"@] + flag_if(*staged, "--staged"@),
                opt_pair("--"@, opt_view(*path)),
            );
        },
        Intent::GitBranch { name, delete } => {
            lemma_all_shell_safe_concat(seq!["branch"@], flag_if(*delete, "-d"@));
            lemma_all_shell_safe_concat(
                seq!["branch"@] + flag_if(*delete, "-d"@),
                opt_one(opt_view(*name)),
            );
        },
        Intent::GitLog { count } => {
            if let Some(n) = *count {
                lemma_decimal_shell_safe(n as nat);
                lemma_shell_safe_concat("-"@, decimal(n as nat));
                lemma_all_shell_safe_concat(
                    seq!["log"@, "--oneline"@],
                    seq!["-"@ + decimal(n as nat)],
                );
            } else {
                lemma_all_shell_safe_concat(seq!["log"@, "--oneline"@], Seq::empty());
            }
        },
        Intent::GitPush { remote, branch } => {
            lemma_all_shell_safe_concat(seq!["push"@], opt_one(opt_view(*remote)));
            lemma_all_shell_safe_concat(
                seq!["push"@] + opt_one(opt_view(*remote)),
                opt_one(opt_view(*branch)),
            );
        },
        Intent::GitPull { remote, branch } => {
            lemma_all_shell_safe_concat(seq!["pull"@], opt_one(opt_view(*remote)));
            lemma_all_shell_safe_concat(
                seq!["pull"@] + opt_one(opt_view(*remote)),
                opt_one(opt_view(*branch)),
            );
        },
        _ => {},
    }
}

/// What each git request runs: always `git`, with the request's own subcommand first
/// and its texts in their places after it. A merge merges the named branch, a checkout
/// checks out the named target, a stash runs the named stash action, a commit commits
/// with the given message (with `-a` just where all changes are asked for), and the
/// optional remote, branch, path, name and count appear just where they are given.
/// Status, diff and log only read; the others write.
pub proof fn law_git_subcommands(intent: &Intent)
    requires
        is_git_intent(intent),
    ensures
        translate_git_spec(intent) is Ok,
        translate_git_spec(intent) matches Ok(t) ==> t.command == "git"@,
        translate_git_spec(intent) matches Ok(t) ==> (t.permission == PermissionLevel::ReadOnly
            <==> (intent is GitStatus || intent is GitDiff || intent is GitLog)),
        translate_git_spec(intent) matches Ok(t) ==> (t.permission == PermissionLevel::ReadOnly
            || t.permission == PermissionLevel::UserWrite),
        intent matches Intent::GitMerge { branch } ==> (translate_git_spec(intent) matches Ok(t)
            && t.args == seq!["merge"@, branch@] && t.description == "Merge branch "@ + branch@),
        intent matches Intent::GitCheckout { target } ==> (translate_git_spec(intent) matches Ok(t)
            && t.args == seq!["checkout"@, target@] && t.description == "Checkout "@ + target@),
        intent matches Intent::GitStash { action } ==> (translate_git_spec(intent) matches Ok(t)
            && t.args == seq!["stash"@, action@] && t.description == "Stash "@ + action@),
        intent is GitStatus ==> (translate_git_spec(intent) matches Ok(t) && t.args == seq!["status"@]),
        intent matches Intent::GitCommit { message, all } ==> (translate_git_spec(intent) matches Ok(t)
            && t.args == (if *all {
                seq!["commit"@, "-a"@, "-m"@, message@]
            } else {
                seq!["commit"@, "-m"@, message@]
            }) && t.description == "Commit: "@ + message@),
        intent matches Intent::GitDiff { path, staged } ==> (translate_git_spec(intent) matches Ok(t)
            && t.args == (match opt_view(*path) {
                Some(p) => if *staged {
                    seq!["diff"@, "--staged"@, "--"@, p]
                } else {
                    seq!["diff"@, "--"@, p]
                },
                None => if *staged {
                    seq!["diff"@, "--staged"@]
                } else {
                    seq!["diff"@]
                },
            })),
        intent matches Intent::GitBranch { name, delete } ==> (translate_git_spec(intent) matches Ok(t)
            && t.args == (match opt_view(*name) {
                Some(n) => if *delete {
                    seq!["branch"@, "-d"@, n]
                } else {
                    seq!["branch"@, n]
                },
                None => if *delete {
                    seq!["branch"@, "-d"@]
                } else {
                    seq!["branch"@]
                },
            })),
        intent matches Intent::GitLog { count } ==> (translate_git_spec(intent) matches Ok(t)
            && t.args == (match *count {
                Some(n) => seq!["log"@, "--oneline"@, "-"@ + decimal(n as nat)],
                None => seq!["log"@, "--oneline"@],
            })),
        intent matches Intent::GitPush { remote, branch } ==> (translate_git_spec(intent) matches Ok(t)
            && t.args == seq!["push"@] + remote_then_branch(opt_view(*remote), opt_view(*branch))),
        intent matches Intent::GitPull { remote, branch } ==> (translate_git_spec(intent) matches Ok(t)
            && t.args == seq!["pull"@] + remote_then_branch(opt_view(*remote), opt_view(*branch))),
{
    match intent {
        Intent::GitCommit { message, all } => {
            assert(seq!["commit"@] + flag_if(*all, "-a"@) + seq!["-m"@, message@] =~= (if *all {
                seq!["commit"@, "-a"@, "-m"@, message@]
            } else {
                seq!["commit"@, "-m"@, message@]
            }));
        },
        Intent::GitDiff { path, staged } => {
            assert(seq!["diff"@] + flag_if(*staged, "--staged"@) + opt_pair("--"@, opt_view(*path))
                =~= (match opt_view(*path) {
                Some(p) => if *staged {
                    seq!["diff"@, "--staged"@, "--"@, p]
                } else {
                    seq!["diff"@, "--"@, p]
                },
                None => if *staged {
                    seq!["diff"@, "--staged"@]
                } else {
                    seq!["diff"@]
                },
            }));
        },
        Intent::GitBranch { name, delete } => {
            assert(seq!["branch"@] + flag_if(*delete, "-d"@) + opt_one(opt_view(*name)) =~= (match opt_view(*name) {
                Some(n) => if *delete {
                    seq!["branch"@, "-d"@, n]
                } else {
                    seq!["branch"@, n]
                },
                None => if *delete {
                    seq!["branch"@, "-d"@]
                } else {
                    seq!["branch"@]
                },
            }));
        },
        Intent::GitLog { count } => {
            if let Some(n) = *count {
                assert(seq!["log"@, "--oneline"@] + seq!["-"@ + decimal(n as nat)] =~= seq![
                    "log"@,
                    "--oneline"@,
                    "-"@ + decimal(n as nat),
                ]);
            } else {
                assert(seq!["log"@, "--oneline"@] + Seq::<Seq<char>>::empty() =~= seq!["log"@, "--oneline"@]);
            }
        },
        Intent::GitPush { remote, branch } => {
            assert(seq!["push"@] + opt_one(opt_view(*remote)) + opt_one(opt_view(*branch)) =~= seq!["push"@]
                + remote_then_branch(opt_view(*remote), opt_view(*branch)));
        },
        Intent::GitPull { remote, branch } => {
            assert(seq!["pull"@] + opt_one(opt_view(*remote)) + opt_one(opt_view(*branch)) =~= seq!["pull"@]
                + remote_then_branch(opt_view(*remote), opt_view(*branch)));
        },
        _ => {},
    }
}

/// The remote, then the branch, each where it is given.
pub open spec fn remote_then_branch(remote: Option<Seq<char>>, branch: Option<Seq<char>>) -> Seq<Seq<char>> {
    match (remote, branch) {
        (Some(r), Some(b)) => seq![r, b],
        (Some(r), None) => seq![r],
        (None, Some(b)) => seq![b],
        (None, None) => Seq::empty(),
    }
}

} // verus!
