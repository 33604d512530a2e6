//! The t-ron security monitor, over the MCP bridge.
use vstd::prelude::*;

use crate::intent::{outcome, tool_view, Failure, Intent, TranslateError, Translation, TranslationView};
use crate::json::{json_object_insert, json_object_new, no_entries, JsonArg, JsonScalar};
use crate::mcp::{insert_opt, insert_str, mcp_call, with_opt, with_str};
use crate::security::PermissionLevel;
use crate::text::{cat3, opt_view, owned};

verus! {

/// The outcome that `translate_tron` gives: a t-ron tool call for each t-ron request,
/// and a refusal of any other request.
pub open spec fn translate_tron_spec(intent: &Intent) -> Result<TranslationView, Failure> {
    match intent {
        Intent::TronStatus => Ok(
            tool_view(
                "tron_status"@,
                no_entries(),
                "Get t-ron security status"@,
                PermissionLevel::Safe,
                "Queries t-ron for overall security status: events, denials, health"@,
            ),
        ),
        Intent::TronRisk { agent_id } => Ok(
            tool_view(
                "tron_risk"@,
                with_str(no_entries(), "agent_id"@, agent_id@),
                "Get risk score for agent '"@ + agent_id@ + "'"@,
                PermissionLevel::Safe,
                "Queries t-ron for per-agent risk score (0.0 trusted to 1.0 hostile)"@,
            ),
        ),
        Intent::TronAudit { agent_id, limit } => {
            let a = with_opt(no_entries(), "agent_id"@, opt_view(*agent_id));
            Ok(
                tool_view(
                    "tron_audit"@,
                    match *limit {
                        Some(n) => a.insert("limit"@, JsonScalar::UInt(n as nat)),
                        None => a,
                    },
                    match opt_view(*agent_id) {
                        Some(id) => "View security audit events for agent '"@ + id + "'"@,
                        None => "View recent security audit events"@,
                    },
                    PermissionLevel::Safe,
                    "Retrieves recent security events from t-ron audit log"@,
                ),
            )
        },
        Intent::TronPolicy { toml } => Ok(
            tool_view(
                "tron_policy"@,
                with_str(no_entries(), "toml"@, toml@),
                "Load security policy"@,
                PermissionLevel::Admin,
                "Loads or reloads t-ron security policy from TOML content"@,
            ),
        ),
        _ => Err(Failure::NotForThisTranslator { family: "tron"@ }),
    }
}

/// Translates a t-ron request into a t-ron tool call; refuses any other request.
pub fn translate_tron(intent: &Intent) -> (r: Result<Translation, TranslateError>)
    ensures
        outcome(r) == translate_tron_spec(intent),
{
    match intent {
        Intent::TronStatus => Ok(mcp_call("tron_status", json_object_new(),
            owned("Get t-ron security status"), PermissionLevel::Safe,
            owned("Queries t-ron for overall security status: events, denials, health"))),
        Intent::TronRisk { agent_id } => {
            let mut a = json_object_new();
            insert_str(&mut a, "agent_id", agent_id.as_str());
            let d = cat3("Get risk score for agent '", agent_id.as_str(), "'");
            Ok(mcp_call("tron_risk", a, d, PermissionLevel::Safe,
                owned("Queries t-ron for per-agent risk score (0.0 trusted to 1.0 hostile)")))
        },
        Intent::TronAudit { agent_id, limit } => {
            let mut a = json_object_new();
            insert_opt(&mut a, "agent_id", agent_id);
            if let Some(n) = limit {
                json_object_insert(&mut a, "limit", JsonArg::UInt(*n as u64));
            }
            let d = match agent_id {
                Some(id) => cat3("View security audit events for agent '", id.as_str(), "'"),
                None => owned("View recent security audit events"),
            };
            Ok(mcp_call("tron_audit", a, d, PermissionLevel::Safe,
                owned("Retrieves recent security events from t-ron audit log")))
        },
        Intent::TronPolicy { toml } => {
            let mut a = json_object_new();
            insert_str(&mut a, "toml", toml.as_str());
            Ok(mcp_call("tron_policy", a, owned("Load security policy"), PermissionLevel::Admin,
                owned("Loads or reloads t-ron security policy from TOML content")))
        },
        _ => Err(TranslateError::NotForThisTranslator { family: owned("tron") }),
    }
}

/// A t-ron request is answered by a tool call alone, and any other request is refused:
/// the translation runs no shell command and passes no argument to one.
pub proof fn law_tron_calls_a_tool(intent: &Intent)
    ensures
        translate_tron_spec(intent) is Ok <==> (intent is TronStatus || intent is TronRisk
            || intent is TronAudit || intent is TronPolicy),
        translate_tron_spec(intent) matches Ok(t) ==> (t.command.len() == 0 && t.args.len() == 0
            && t.mcp is Some),
{
}

/// Which t-ron tool each request calls, and with what: status takes no argument; a risk
/// query names the requested agent; an audit names the agent and the limit, each just
/// where it is given; a policy load carries the requested TOML text. Only loading a
/// policy needs admin rights.
pub proof fn law_tron_arguments_carry_the_request(intent: &Intent)
    ensures
        intent is TronStatus ==> (translate_tron_spec(intent) matches Ok(t) && t.mcp matches Some(c)
            && c.tool_name == "tron_status"@ && c.arguments == Map::<Seq<char>, JsonScalar>::empty()
            && t.permission == PermissionLevel::Safe),
        intent matches Intent::TronRisk { agent_id } ==> (translate_tron_spec(intent) matches Ok(t)
            && t.mcp matches Some(c) && c.tool_name == "tron_risk"@
            && c.arguments == Map::<Seq<char>, JsonScalar>::empty().insert("agent_id"@, JsonScalar::Str(agent_id@))
            && t.permission == PermissionLevel::Safe),
        intent matches Intent::TronAudit { agent_id, limit } ==> (translate_tron_spec(intent) matches Ok(t)
            && t.mcp matches Some(c) && c.tool_name == "tron_audit"@
            && t.permission == PermissionLevel::Safe
            && c.arguments.dom().subset_of(set!["agent_id"@, "limit"@])
            && (match opt_view(*agent_id) {
                Some(x) => c.arguments.contains_key("agent_id"@) && c.arguments["agent_id"@] == JsonScalar::Str(x),
                None => !c.arguments.contains_key("agent_id"@),
            })
            && (match *limit {
                Some(n) => c.arguments.contains_key("limit"@) && c.arguments["limit"@] == JsonScalar::UInt(n as nat),
                None => !c.arguments.contains_key("limit"@),
            })),
        intent matches Intent::TronPolicy { toml } ==> (translate_tron_spec(intent) matches Ok(t)
            && t.mcp matches Some(c) && c.tool_name == "tron_policy"@
            && c.arguments == Map::<Seq<char>, JsonScalar>::empty().insert("toml"@, JsonScalar::Str(toml@))
            && t.permission == PermissionLevel::Admin),
{
    reveal_strlit("agent_id");
    reveal_strlit("limit");
    assert("agent_id"@.len() != "limit"@.len());
}

} // verus!
