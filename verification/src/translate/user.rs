//! User and group accounts.
use vstd::prelude::*;

use crate::intent::{outcome, run_view, Failure, Intent, TranslateError, Translation, TranslationView};
use crate::security::PermissionLevel;
use crate::shell::{all_shell_safe, lemma_all_shell_safe_concat, opt_shell_safe, shell_safe};
use crate::text::{
    cat, flag_if, list1, list2, no_args, opt_one, opt_pair, opt_view, owned, push_flag_if,
    push_opt, push_opt_pair, push_text,
};

verus! {

/// The requests that `translate_user` handles.
pub open spec fn is_user_intent(intent: &Intent) -> bool {
    ||| intent is UserAdd
    ||| intent is UserDelete
    ||| intent is UserMod
    ||| intent is Passwd
    ||| intent is GroupAdd
    ||| intent is GroupDelete
    ||| intent is GroupList
}

/// A `sudo` translation that needs administrator rights.
pub open spec fn sudo(args: Seq<Seq<char>>, desc: Seq<char>, explanation: Seq<char>) -> TranslationView {
    run_view("sudo"@, args, desc, PermissionLevel::Admin, explanation)
}

/// The outcome that `translate_user` gives for each account request.
pub open spec fn translate_user_spec(intent: &Intent) -> Result<TranslationView, Failure> {
    match intent {
        Intent::UserAdd { username, shell, home } => Ok(
            sudo(
                seq!["useradd"@] + opt_pair("-d"@, opt_view(*home)) + opt_pair(
                    "-s"@,
                    opt_view(*shell),
                ) + seq![username@],
                "Add user "@ + username@,
                "Creates a new user account on the system"@,
            ),
        ),
        Intent::UserDelete { username, remove_home } => Ok(
            sudo(
                seq!["userdel"@] + flag_if(*remove_home, "-r"@) + seq![username@],
                "Delete user "@ + username@,
                "Removes a user account from the system"@,
            ),
        ),
        Intent::UserMod { username, shell, groups } => Ok(
            sudo(
                seq!["usermod"@] + opt_pair("-s"@, opt_view(*shell)) + opt_pair(
                    "-aG"@,
                    opt_view(*groups),
                ) + seq![username@],
                "Modify user "@ + username@,
                "Modifies an existing user account's properties"@,
            ),
        ),
        Intent::Passwd { username } => Ok(
            sudo(
                seq!["passwd"@] + opt_one(opt_view(*username)),
                match opt_view(*username) {
                    Some(u) => "Change password for "@ + u,
                    None => "Change current user password"@,
                },
                "Changes the password for a user account"@,
            ),
        ),
        Intent::GroupAdd { groupname } => Ok(
            sudo(
                seq!["groupadd"@, groupname@],
                "Add group "@ + groupname@,
                "Creates a new group on the system"@,
            ),
        ),
        Intent::GroupDelete { groupname } => Ok(
            sudo(
                seq!["groupdel"@, groupname@],
                "Delete group "@ + groupname@,
                "Removes a group from the system"@,
            ),
        ),
        Intent::GroupList { username } => Ok(
            run_view(
                "groups"@,
                opt_one(opt_view(*username)),
                match opt_view(*username) {
                    Some(u) => "List groups for "@ + u,
                    None => "List groups for current user"@,
                },
                PermissionLevel::ReadOnly,
                "Displays the groups a user belongs to"@,
            ),
        ),
        _ => Err(Failure::NotForThisTranslator { family: "user"@ }),
    }
}

/// Translates an account request into the command that does it.
pub fn translate_user(intent: &Intent) -> (r: Result<Translation, TranslateError>)
    requires
        is_user_intent(intent),
    ensures
        outcome(r) == translate_user_spec(intent),
{
    match intent {
        Intent::UserAdd { username, shell, home } => {
            let mut args = list1(owned("useradd"));
            push_opt_pair(&mut args, "-d", home);
            push_opt_pair(&mut args, "-s", shell);
            push_text(&mut args, username.clone());
            assert(args.deep_view() =~= seq!["useradd"@] + opt_pair("-d"@, opt_view(*home))
                + opt_pair("-s"@, opt_view(*shell)) + seq![username@]);
            Ok(Translation::cmd("sudo", args, cat("Add user ", username.as_str()),
                PermissionLevel::Admin, "Creates a new user account on the system"))
        },
        Intent::UserDelete { username, remove_home } => {
            let mut args = list1(owned("userdel"));
            push_flag_if(&mut args, *remove_home, "-r");
            push_text(&mut args, username.clone());
            assert(args.deep_view() =~= seq!["userdel"@] + flag_if(*remove_home, "-r"@)
                + seq![username@]);
            Ok(Translation::cmd("sudo", args, cat("Delete user ", username.as_str()),
                PermissionLevel::Admin, "Removes a user account from the system"))
        },
        Intent::UserMod { username, shell, groups } => {
            let mut args = list1(owned("usermod"));
            push_opt_pair(&mut args, "-s", shell);
            push_opt_pair(&mut args, "-aG", groups);
            push_text(&mut args, username.clone());
            assert(args.deep_view() =~= seq!["usermod"@] + opt_pair("-s"@, opt_view(*shell))
                + opt_pair("-aG"@, opt_view(*groups)) + seq![username@]);
            Ok(Translation::cmd("sudo", args, cat("Modify user ", username.as_str()),
                PermissionLevel::Admin, "Modifies an existing user account's properties"))
        },
        Intent::Passwd { username } => {
            let mut args = list1(owned("passwd"));
            push_opt(&mut args, username);
            let d = match username {
                Some(u) => cat("Change password for ", u.as_str()),
                None => owned("Change current user password"),
            };
            Ok(Translation::cmd("sudo", args, d, PermissionLevel::Admin,
                "Changes the password for a user account"))
        },
        Intent::GroupAdd { groupname } => Ok(Translation::cmd("sudo",
            list2(owned("groupadd"), groupname.clone()), cat("Add group ", groupname.as_str()),
            PermissionLevel::Admin, "Creates a new group on the system")),
        Intent::GroupDelete { groupname } => Ok(Translation::cmd("sudo",
            list2(owned("groupdel"), groupname.clone()), cat("Delete group ", groupname.as_str()),
            PermissionLevel::Admin, "Removes a group from the system")),
        Intent::GroupList { username } => {
            let mut args = no_args();
            push_opt(&mut args, username);
            assert(args.deep_view() =~= opt_one(opt_view(*username)));
            let d = match username {
                Some(u) => cat("List groups for ", u.as_str()),
                None => owned("List groups for current user"),
            };
            Ok(Translation::cmd("groups", args, d, PermissionLevel::ReadOnly,
                "Displays the groups a user belongs to"))
        },
        _ => Err(TranslateError::NotForThisTranslator { family: owned("user") }),
    }
}

/// Whether every text that an account request carries is free of shell metacharacters.
pub open spec fn user_request_shell_safe(intent: &Intent) -> bool {
    match intent {
        Intent::UserAdd { username, shell, home } => shell_safe(username@) && opt_shell_safe(
            opt_view(*shell),
        ) && opt_shell_safe(opt_view(*home)),
        Intent::UserDelete { username, .. } => shell_safe(username@),
        Intent::UserMod { username, shell, groups } => shell_safe(username@) && opt_shell_safe(
            opt_view(*shell),
        ) && opt_shell_safe(opt_view(*groups)),
        Intent::Passwd { username } => opt_shell_safe(opt_view(*username)),
        Intent::GroupAdd { groupname } => shell_safe(groupname@),
        Intent::GroupDelete { groupname } => shell_safe(groupname@),
        Intent::GroupList { username } => opt_shell_safe(opt_view(*username)),
        _ => true,
    }
}

proof fn lemma_opt_pair_shell_safe(flag: Seq<char>, o: Option<Seq<char>>)
    requires
        shell_safe(flag),
        opt_shell_safe(o),
    ensures
        all_shell_safe(opt_pair(flag, o)),
{
}

/// An account command adds no shell metacharacter of its own: where every text of the
/// request is free of them, so is every argument of its command. (The request's own
/// texts are passed on as they are, unchecked.)
pub proof fn law_user_args_add_no_metacharacters(intent: &Intent)
    requires
        user_request_shell_safe(intent),
    ensures
        translate_user_spec(intent) matches Ok(t) ==> all_shell_safe(t.args),
{
    reveal_strlit("useradd");
    reveal_strlit("userdel");
    reveal_strlit("usermod");
    reveal_strlit("passwd");
    reveal_strlit("groupadd");
    reveal_strlit("groupdel");
    reveal_strlit("-d");
    reveal_strlit("-s");
    reveal_strlit("-r");
    reveal_strlit("-aG");
    match intent {
        Intent::UserAdd { username, shell, home } => {
            lemma_opt_pair_shell_safe("-d"@, opt_view(*home));
            lemma_opt_pair_shell_safe("-s"@, opt_view(*shell));
            lemma_all_shell_safe_concat(seq!["useradd"@], opt_pair("-d"@, opt_view(*home)));
            lemma_all_shell_safe_concat(
                seq!["useradd"@] + opt_pair("-d"@, opt_view(*home)),
                opt_pair("-s"@, opt_view(*shell)),
            );
            lemma_all_shell_safe_concat(
                seq!["useradd"@] + opt_pair("-d"@, opt_view(*home)) + opt_pair(
                    "-s"@,
                    opt_view(*shell),
                ),
                seq![username@],
            );
        },
        Intent::UserDelete { username, remove_home } => {
            lemma_all_shell_safe_concat(seq!["userdel"@], flag_if(*remove_home, "-r"@));
            lemma_all_shell_safe_concat(
                seq!["userdel"@] + flag_if(*remove_home, "-r"@),
                seq![username@],
            );
        },
        Intent::UserMod { username, shell, groups } => {
            lemma_opt_pair_shell_safe("-s"@, opt_view(*shell));
            lemma_opt_pair_shell_safe("-aG"@, opt_view(*groups));
            lemma_all_shell_safe_concat(seq!["usermod"@], opt_pair("-s"@, opt_view(*shell)));
            lemma_all_shell_safe_concat(
                seq!["usermod"@] + opt_pair("-s"@, opt_view(*shell)),
                opt_pair("-aG"@, opt_view(*groups)),
            );
            lemma_all_shell_safe_concat(
                seq!["usermod"@] + opt_pair("-s"@, opt_view(*shell)) + opt_pair(
                    "-aG"@,
                    opt_view(*groups),
                ),
                seq![username@],
            );
        },
        Intent::Passwd { username } => {
            lemma_all_shell_safe_concat(seq!["passwd"@], opt_one(opt_view(*username)));
        },
        _ => {},
    }
}

/// What each account request runs. Every change runs under `sudo` with admin rights
/// and names the requested user or group last; only listing groups reads, as
/// `groups`. A new user gets `-d` and the home, then `-s` and the shell, each just
/// where it is given; a changed user gets `-s` and the shell, then `-aG` and the
/// groups; a deleted user loses the home just where that is asked (`-r`); a password
/// change and a group listing name the user just where one is given.
pub proof fn law_user_commands(intent: &Intent)
    requires
        is_user_intent(intent),
    ensures
        translate_user_spec(intent) matches Ok(t) && (if intent is GroupList {
            t.command == "groups"@ && t.permission == PermissionLevel::ReadOnly
        } else {
            t.command == "sudo"@ && t.permission == PermissionLevel::Admin
        }),
        intent matches Intent::UserAdd { username, shell, home } ==> (translate_user_spec(intent) matches Ok(t)
            && t.args == (match (opt_view(*home), opt_view(*shell)) {
                (Some(a), Some(b)) => seq!["useradd"@, "-d"@, a, "-s"@, b, username@],
                (Some(a), None) => seq!["useradd"@, "-d"@, a, username@],
                (None, Some(b)) => seq!["useradd"@, "-s"@, b, username@],
                (None, None) => seq!["useradd"@, username@],
            }) && t.description == "Add user "@ + username@),
        intent matches Intent::UserMod { username, shell, groups } ==> (translate_user_spec(intent) matches Ok(t)
            && t.args == (match (opt_view(*shell), opt_view(*groups)) {
                (Some(a), Some(b)) => seq!["usermod"@, "-s"@, a, "-aG"@, b, username@],
                (Some(a), None) => seq!["usermod"@, "-s"@, a, username@],
                (None, Some(b)) => seq!["usermod"@, "-aG"@, b, username@],
                (None, None) => seq!["usermod"@, username@],
            }) && t.description == "Modify user "@ + username@),
        intent matches Intent::UserDelete { username, remove_home } ==> (translate_user_spec(intent) matches Ok(t)
            && t.args == (if *remove_home {
                seq!["userdel"@, "-r"@, username@]
            } else {
                seq!["userdel"@, username@]
            }) && t.description == "Delete user "@ + username@),
        intent matches Intent::Passwd { username } ==> (translate_user_spec(intent) matches Ok(t)
            && t.args == (match opt_view(*username) {
                Some(u) => seq!["passwd"@, u],
                None => seq!["passwd"@],
            })),
        intent matches Intent::GroupAdd { groupname } ==> (translate_user_spec(intent) matches Ok(t)
            && t.args == seq!["groupadd"@, groupname@]),
        intent matches Intent::GroupDelete { groupname } ==> (translate_user_spec(intent) matches Ok(t)
            && t.args == seq!["groupdel"@, groupname@]),
        intent matches Intent::GroupList { username } ==> (translate_user_spec(intent) matches Ok(t)
            && t.args == (match opt_view(*username) {
                Some(u) => seq![u],
                None => Seq::empty(),
            })),
{
    match intent {
        Intent::UserAdd { username, shell, home } => {
            assert(seq!["useradd"@] + opt_pair("-d"@, opt_view(*home)) + opt_pair("-s"@, opt_view(*shell))
                + seq![username@] =~= (match (opt_view(*home), opt_view(*shell)) {
                (Some(a), Some(b)) => seq!["useradd"@, "-d"@, a, "-s"@, b, username@],
                (Some(a), None) => seq!["useradd"@, "-d"@, a, username@],
                (None, Some(b)) => seq!["useradd"@, "-s"@, b, username@],
                (None, None) => seq!["useradd"@, username@],
            }));
        },
        Intent::UserMod { username, shell, groups } => {
            assert(seq!["usermod"@] + opt_pair("-s"@, opt_view(*shell)) + opt_pair("-aG"@, opt_view(*groups))
                + seq![username@] =~= (match (opt_view(*shell), opt_view(*groups)) {
                (Some(a), Some(b)) => seq!["usermod"@, "-s"@, a, "-aG"@, b, username@],
                (Some(a), None) => seq!["usermod"@, "-s"@, a, username@],
                (None, Some(b)) => seq!["usermod"@, "-aG"@, b, username@],
                (None, None) => seq!["usermod"@, username@],
            }));
        },
        Intent::UserDelete { username, remove_home } => {
            assert(seq!["userdel"@] + flag_if(*remove_home, "-r"@) + seq![username@] =~= (if *remove_home {
                seq!["userdel"@, "-r"@, username@]
            } else {
                seq!["userdel"@, username@]
            }));
        },
        Intent::Passwd { username } => {
            assert(seq!["passwd"@] + opt_one(opt_view(*username)) =~= (match opt_view(*username) {
                Some(u) => seq!["passwd"@, u],
                None => seq!["passwd"@],
            }));
        },
        _ => {},
    }
}

} // verus!
