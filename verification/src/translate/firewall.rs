//! Firewall rules through `ufw`.
use vstd::prelude::*;

use crate::intent::{run_view, outcome, Failure, Intent, TranslateError, Translation, TranslationView};
use crate::security::PermissionLevel;
use crate::shell::{all_shell_safe, lemma_shell_safe_concat, opt_shell_safe, shell_safe};
use crate::text::{cat, cat3, list2, list3, opt_view, owned};

verus! {

/// The requests that `translate_firewall` handles.
pub open spec fn is_firewall_intent(intent: &Intent) -> bool {
    ||| intent is FirewallAllow
    ||| intent is FirewallDeny
    ||| intent is FirewallList
    ||| intent is FirewallStatus
    ||| intent is FirewallEnable
    ||| intent is FirewallDisable
    ||| intent is FirewallDeleteRule
}

/// A port, with its protocol after a slash where one is given.
pub open spec fn port_spec(port: Seq<char>, protocol: Option<Seq<char>>) -> Seq<char> {
    match protocol {
        Some(p) => port + "/"@ + p,
        None => port,
    }
}

/// A `sudo ufw` translation.
pub open spec fn ufw(args: Seq<Seq<char>>, desc: Seq<char>, explanation: Seq<char>) -> TranslationView {
    run_view("sudo"@, seq!["ufw"@] + args, desc, PermissionLevel::Admin, explanation)
}

/// The outcome that `translate_firewall` gives for each firewall request.
pub open spec fn translate_firewall_spec(intent: &Intent) -> Result<TranslationView, Failure> {
    match intent {
        Intent::FirewallAllow { port, protocol } => {
            let p = port_spec(port@, opt_view(*protocol));
            Ok(
                ufw(
                    seq!["allow"@, p],
                    "Allow traffic on "@ + p,
                    "Adds a firewall rule to allow incoming traffic on the specified port"@,
                ),
            )
        },
        Intent::FirewallDeny { port, protocol } => {
            let p = port_spec(port@, opt_view(*protocol));
            Ok(
                ufw(
                    seq!["deny"@, p],
                    "Deny traffic on "@ + p,
                    "Adds a firewall rule to deny incoming traffic on the specified port"@,
                ),
            )
        },
        Intent::FirewallList => Ok(
            ufw(
                seq!["status"@, "numbered"@],
                "List firewall rules"@,
                "Displays all active firewall rules with rule numbers"@,
            ),
        ),
        Intent::FirewallStatus => Ok(
            ufw(
                seq!["status"@, "verbose"@],
                "Show firewall status"@,
                "Displays whether the firewall is active and its default policies"@,
            ),
        ),
        Intent::FirewallEnable => Ok(
            ufw(seq!["enable"@], "Enable firewall"@, "Activates the Uncomplicated Firewall"@),
        ),
        Intent::FirewallDisable => Ok(
            ufw(seq!["disable"@], "Disable firewall"@, "Deactivates the Uncomplicated Firewall"@),
        ),
        Intent::FirewallDeleteRule { rule } => Ok(
            ufw(
                seq!["delete"@, rule@],
                "Delete firewall rule: "@ + rule@,
                "Removes a firewall rule by number or specification"@,
            ),
        ),
        _ => Err(Failure::NotForThisTranslator { family: "firewall"@ }),
    }
}

fn port_text(port: &String, protocol: &Option<String>) -> (r: String)
    ensures
        r@ == port_spec(port@, opt_view(*protocol)),
{
    match protocol {
        Some(p) => cat3(port.as_str(), "/", p.as_str()),
        None => port.clone(),
    }
}

/// Translates a firewall request into the `ufw` command that does it.
pub fn translate_firewall(intent: &Intent) -> (r: Result<Translation, TranslateError>)
    requires
        is_firewall_intent(intent),
    ensures
        outcome(r) == translate_firewall_spec(intent),
{
    match intent {
        Intent::FirewallAllow { port, protocol } => {
            let p = port_text(port, protocol);
            let d = cat("Allow traffic on ", p.as_str());
            let args = list3(owned("ufw"), owned("allow"), p);
            assert(args.deep_view() =~= seq!["ufw"@] + seq!["allow"@, port_spec(port@, opt_view(*protocol))]);
            Ok(Translation::cmd("sudo", args, d, PermissionLevel::Admin,
                "Adds a firewall rule to allow incoming traffic on the specified port"))
        },
        Intent::FirewallDeny { port, protocol } => {
            let p = port_text(port, protocol);
            let d = cat("Deny traffic on ", p.as_str());
            let args = list3(owned("ufw"), owned("deny"), p);
            assert(args.deep_view() =~= seq!["ufw"@] + seq!["deny"@, port_spec(port@, opt_view(*protocol))]);
            Ok(Translation::cmd("sudo", args, d, PermissionLevel::Admin,
                "Adds a firewall rule to deny incoming traffic on the specified port"))
        },
        Intent::FirewallList => {
            let args = list3(owned("ufw"), owned("status"), owned("numbered"));
            assert(args.deep_view() =~= seq!["ufw"@] + seq!["status"@, "numbered"@]);
            Ok(Translation::cmd("sudo", args, owned("List firewall rules"), PermissionLevel::Admin,
                "Displays all active firewall rules with rule numbers"))
        },
        Intent::FirewallStatus => {
            let args = list3(owned("ufw"), owned("status"), owned("verbose"));
            assert(args.deep_view() =~= seq!["ufw"@] + seq!["status"@, "verbose"@]);
            Ok(Translation::cmd("sudo", args, owned("Show firewall status"), PermissionLevel::Admin,
                "Displays whether the firewall is active and its default policies"))
        },
        Intent::FirewallEnable => {
            let args = list2(owned("ufw"), owned("enable"));
            assert(args.deep_view() =~= seq!["ufw"@] + seq!["enable"@]);
            Ok(Translation::cmd("sudo", args, owned("Enable firewall"), PermissionLevel::Admin,
                "Activates the Uncomplicated Firewall"))
        },
        Intent::FirewallDisable => {
            let args = list2(owned("ufw"), owned("disable"));
            assert(args.deep_view() =~= seq!["ufw"@] + seq!["disable"@]);
            Ok(Translation::cmd("sudo", args, owned("Disable firewall"), PermissionLevel::Admin,
                "Deactivates the Uncomplicated Firewall"))
        },
        Intent::FirewallDeleteRule { rule } => {
            let d = cat("Delete firewall rule: ", rule.as_str());
            let args = list3(owned("ufw"), owned("delete"), rule.clone());
            assert(args.deep_view() =~= seq!["ufw"@] + seq!["delete"@, rule@]);
            Ok(Translation::cmd("sudo", args, d, PermissionLevel::Admin,
                "Removes a firewall rule by number or specification"))
        },
        _ => Err(TranslateError::NotForThisTranslator { family: owned("firewall") }),
    }
}

/// Whether every text that a firewall request carries is free of shell metacharacters.
pub open spec fn firewall_request_shell_safe(intent: &Intent) -> bool {
    match intent {
        Intent::FirewallAllow { port, protocol } => shell_safe(port@) && opt_shell_safe(
            opt_view(*protocol),
        ),
        Intent::FirewallDeny { port, protocol } => shell_safe(port@) && opt_shell_safe(
            opt_view(*protocol),
        ),
        Intent::FirewallDeleteRule { rule } => shell_safe(rule@),
        _ => true,
    }
}

/// A firewall command adds no shell metacharacter of its own: where every text of the
/// request is free of them, so is every argument of its command. (The request's own
/// texts are passed on as they are, unchecked.)
pub proof fn law_firewall_args_add_no_metacharacters(intent: &Intent)
    requires
        firewall_request_shell_safe(intent),
    ensures
        translate_firewall_spec(intent) matches Ok(t) ==> all_shell_safe(t.args),
{
    reveal_strlit("ufw");
    reveal_strlit("allow");
    reveal_strlit("deny");
    reveal_strlit("status");
    reveal_strlit("numbered");
    reveal_strlit("verbose");
    reveal_strlit("enable");
    reveal_strlit("disable");
    reveal_strlit("delete");
    reveal_strlit("/");
    match intent {
        Intent::FirewallAllow { port, protocol } | Intent::FirewallDeny { port, protocol } => {
            if let Some(p) = opt_view(*protocol) {
                lemma_shell_safe_concat(port@, "/"@);
                lemma_shell_safe_concat(port@ + "/"@, p);
            }
            let pt = port_spec(port@, opt_view(*protocol));
            assert(shell_safe(pt));
        },
        _ => {},
    }
}

/// What each firewall request runs: `sudo ufw` with admin rights, then the rule's own
/// verb. Allowing and denying name the requested port, followed by a slash and the
/// protocol just where one is given; listing shows the numbered rules, the status is
/// verbose, and deleting names the requested rule.
pub proof fn law_firewall_rules(intent: &Intent)
    requires
        is_firewall_intent(intent),
    ensures
        translate_firewall_spec(intent) matches Ok(t) && t.command == "sudo"@
            && t.permission == PermissionLevel::Admin && t.args.len() >= 2 && t.args[0] == "ufw"@,
        intent matches Intent::FirewallAllow { port, protocol } ==> (translate_firewall_spec(intent) matches Ok(t)
            && t.args == seq!["ufw"@, "allow"@, match opt_view(*protocol) {
                Some(p) => port@ + "/"@ + p,
                None => port@,
            }]),
        intent matches Intent::FirewallDeny { port, protocol } ==> (translate_firewall_spec(intent) matches Ok(t)
            && t.args == seq!["ufw"@, "deny"@, match opt_view(*protocol) {
                Some(p) => port@ + "/"@ + p,
                None => port@,
            }]),
        intent is FirewallList ==> (translate_firewall_spec(intent) matches Ok(t)
            && t.args == seq!["ufw"@, "status"@, "numbered"@]),
        intent is FirewallStatus ==> (translate_firewall_spec(intent) matches Ok(t)
            && t.args == seq!["ufw"@, "status"@, "verbose"@]),
        intent is FirewallEnable ==> (translate_firewall_spec(intent) matches Ok(t)
            && t.args == seq!["ufw"@, "enable"@]),
        intent is FirewallDisable ==> (translate_firewall_spec(intent) matches Ok(t)
            && t.args == seq!["ufw"@, "disable"@]),
        intent matches Intent::FirewallDeleteRule { rule } ==> (translate_firewall_spec(intent) matches Ok(t)
            && t.args == seq!["ufw"@, "delete"@, rule@]),
{
    match intent {
        Intent::FirewallAllow { port, protocol } => {
            assert(seq!["ufw"@] + seq!["allow"@, port_spec(port@, opt_view(*protocol))] =~= seq![
                "ufw"@,
                "allow"@,
                port_spec(port@, opt_view(*protocol)),
            ]);
        },
        Intent::FirewallDeny { port, protocol } => {
            assert(seq!["ufw"@] + seq!["deny"@, port_spec(port@, opt_view(*protocol))] =~= seq![
                "ufw"@,
                "deny"@,
                port_spec(port@, opt_view(*protocol)),
            ]);
        },
        Intent::FirewallList => {
            assert(seq!["ufw"@] + seq!["status"@, "numbered"@] =~= seq!["ufw"@, "status"@, "numbered"@]);
        },
        Intent::FirewallStatus => {
            assert(seq!["ufw"@] + seq!["status"@, "verbose"@] =~= seq!["ufw"@, "status"@, "verbose"@]);
        },
        Intent::FirewallEnable => {
            assert(seq!["ufw"@] + seq!["enable"@] =~= seq!["ufw"@, "enable"@]);
        },
        Intent::FirewallDisable => {
            assert(seq!["ufw"@] + seq!["disable"@] =~= seq!["ufw"@, "disable"@]);
        },
        Intent::FirewallDeleteRule { rule } => {
            assert(seq!["ufw"@] + seq!["delete"@, rule@] =~= seq!["ufw"@, "delete"@, rule@]);
        },
        _ => {},
    }
}

} // verus!
