//! The edge fleet, over the MCP bridge.
use vstd::prelude::*;

use crate::intent::{outcome, tool_view, Failure, Intent, TranslateError, Translation, TranslationView};
use crate::json::{json_object_insert, json_object_new, no_entries, JsonArg, JsonScalar};
use crate::mcp::{insert_opt, insert_str, mcp_call, with_opt, with_str, wrap, wrap_text};
use crate::security::PermissionLevel;
use crate::text::{opt_view, or_else, or_text, owned, str_eq};

verus! {

/// The requests that `translate_edge` handles.
pub open spec fn is_edge_intent(intent: &Intent) -> bool {
    ||| intent is EdgeListNodes
    ||| intent is EdgeDeploy
    ||| intent is EdgeUpdate
    ||| intent is EdgeHealth
    ||| intent is EdgeDecommission
    ||| intent is EdgeLogs
    ||| intent is EdgeConfig
}

/// The tool call that `translate_edge` gives for each request it handles.
pub open spec fn translate_edge_spec(intent: &Intent) -> Result<TranslationView, Failure> {
    match intent {
        Intent::EdgeListNodes { status, .. } => {
            let entries = with_opt(no_entries(), "status"@, opt_view(*status));
            Ok(
                tool_view(
                    "edge_list"@,
                    entries,
                    "List edge nodes"@ + wrap(opt_view(*status), " ("@, ")"@),
                    PermissionLevel::Safe,
                    "Lists edge nodes in the fleet via MCP bridge"@,
                ),
            )
        },
        Intent::EdgeDeploy { task, node, .. } => {
            let entries = with_str(no_entries(), "task"@, task@);
            let entries = with_opt(entries, "node_id"@, opt_view(*node));
            Ok(
                tool_view(
                    "edge_deploy"@,
                    entries,
                    "Deploy to edge: "@ + task@,
                    PermissionLevel::SystemWrite,
                    "Deploys a task to an edge node via MCP bridge"@,
                ),
            )
        },
        Intent::EdgeUpdate { node, version, .. } => {
            let entries = with_str(no_entries(), "node_id"@, node@);
            let entries = with_str(entries, "version"@, or_else(opt_view(*version), "latest"@));
            Ok(
                tool_view(
                    "edge_update"@,
                    entries,
                    "Update edge node: "@ + node@,
                    PermissionLevel::SystemWrite,
                    "Triggers OTA update on an edge node via MCP bridge"@,
                ),
            )
        },
        Intent::EdgeHealth { node, .. } => {
            let entries = with_opt(no_entries(), "node_id"@, opt_view(*node));
            Ok(
                tool_view(
                    "edge_health"@,
                    entries,
                    "Edge health"@ + wrap(opt_view(*node), ": "@, ""@),
                    PermissionLevel::Safe,
                    "Gets edge node health status via MCP bridge"@,
                ),
            )
        },
        Intent::EdgeDecommission { node, .. } => {
            let entries = with_str(no_entries(), "node_id"@, node@);
            Ok(
                tool_view(
                    "edge_decommission"@,
                    entries,
                    "Decommission edge node: "@ + node@,
                    PermissionLevel::SystemWrite,
                    "Decommissions an edge node via MCP bridge"@,
                ),
            )
        },
        Intent::EdgeLogs { action, node, .. } => {
            let entries = with_str(no_entries(), "action"@, action@);
            let entries = with_opt(entries, "node_id"@, opt_view(*node));
            Ok(
                tool_view(
                    "edge_logs"@,
                    entries,
                    "Edge logs: "@ + action@ + wrap(opt_view(*node), " ("@, ")"@),
                    PermissionLevel::Safe,
                    "Queries edge node logs"@,
                ),
            )
        },
        Intent::EdgeConfig { action, node, key, .. } => {
            let entries = with_str(no_entries(), "action"@, action@);
            let entries = with_opt(entries, "node_id"@, opt_view(*node));
            let entries = with_opt(entries, "key"@, opt_view(*key));
            Ok(
                tool_view(
                    "edge_config"@,
                    entries,
                    "Edge config: "@ + action@ + wrap(opt_view(*key), " '"@, "'"@),
                    if action@ == "get"@ || action@ == "list"@ { PermissionLevel::Safe } else { PermissionLevel::SystemWrite },
                    "Manages edge node config"@,
                ),
            )
        },
        _ => Err(Failure::NotForThisTranslator { family: "edge"@ }),
    }
}

/// Translates an edge fleet request into an edge tool call.
pub fn translate_edge(intent: &Intent) -> (r: Result<Translation, TranslateError>)
    requires
        is_edge_intent(intent),
    ensures
        outcome(r) == translate_edge_spec(intent),
{
    match intent {
        Intent::EdgeListNodes { status, .. } => {
            let mut a = json_object_new();
            insert_opt(&mut a, "status", status);
            let mut d = owned("List edge nodes");
            d.append(wrap_text(status, " (", ")").as_str());
            let e = owned("Lists edge nodes in the fleet via MCP bridge");
            Ok(mcp_call("edge_list", a, d, PermissionLevel::Safe, e))
        },
        Intent::EdgeDeploy { task, node, .. } => {
            let mut a = json_object_new();
            insert_str(&mut a, "task", task.as_str());
            insert_opt(&mut a, "node_id", node);
            let mut d = owned("Deploy to edge: ");
            d.append(task.as_str());
            let e = owned("Deploys a task to an edge node via MCP bridge");
            Ok(mcp_call("edge_deploy", a, d, PermissionLevel::SystemWrite, e))
        },
        Intent::EdgeUpdate { node, version, .. } => {
            let mut a = json_object_new();
            insert_str(&mut a, "node_id", node.as_str());
            let v1 = or_text(version, "latest");
            insert_str(&mut a, "version", v1.as_str());
            let mut d = owned("Update edge node: ");
            d.append(node.as_str());
            let e = owned("Triggers OTA update on an edge node via MCP bridge");
            Ok(mcp_call("edge_update", a, d, PermissionLevel::SystemWrite, e))
        },
        Intent::EdgeHealth { node, .. } => {
            let mut a = json_object_new();
            insert_opt(&mut a, "node_id", node);
            let mut d = owned("Edge health");
            d.append(wrap_text(node, ": ", "").as_str());
            let e = owned("Gets edge node health status via MCP bridge");
            Ok(mcp_call("edge_health", a, d, PermissionLevel::Safe, e))
        },
        Intent::EdgeDecommission { node, .. } => {
            let mut a = json_object_new();
            insert_str(&mut a, "node_id", node.as_str());
            let mut d = owned("Decommission edge node: ");
            d.append(node.as_str());
            let e = owned("Decommissions an edge node via MCP bridge");
            Ok(mcp_call("edge_decommission", a, d, PermissionLevel::SystemWrite, e))
        },
        Intent::EdgeLogs { action, node, .. } => {
            let mut a = json_object_new();
            insert_str(&mut a, "action", action.as_str());
            insert_opt(&mut a, "node_id", node);
            let mut d = owned("Edge logs: ");
            d.append(action.as_str());
            d.append(wrap_text(node, " (", ")").as_str());
            let e = owned("Queries edge node logs");
            Ok(mcp_call("edge_logs", a, d, PermissionLevel::Safe, e))
        },
        Intent::EdgeConfig { action, node, key, .. } => {
            let mut a = json_object_new();
            insert_str(&mut a, "action", action.as_str());
            insert_opt(&mut a, "node_id", node);
            insert_opt(&mut a, "key", key);
            let mut d = owned("Edge config: ");
            d.append(action.as_str());
            d.append(wrap_text(key, " '", "'").as_str());
            let e = owned("Manages edge node config");
            Ok(mcp_call("edge_config", a, d, if str_eq(action.as_str(), "get") || str_eq(action.as_str(), "list") { PermissionLevel::Safe } else { PermissionLevel::SystemWrite }, e))
        },
        _ => Err(TranslateError::NotForThisTranslator { family: owned("edge") }),
    }
}

/// An edge fleet request is answered by a tool call alone: the translation runs no shell
/// command and passes no argument to one.
pub proof fn law_edge_calls_a_tool(intent: &Intent)
    requires
        is_edge_intent(intent),
    ensures
        translate_edge_spec(intent) matches Ok(t) && t.command.len() == 0 && t.args.len() == 0
            && t.mcp is Some,
{
}

/// What an edge fleet tool call carries: each request calls its own tool, with every field
/// of the request under its key (an absent optional field under none), at the
/// privilege its action needs.
pub proof fn law_edge_arguments_carry_the_request(intent: &Intent)
    ensures
        intent matches Intent::EdgeListNodes { status, .. } ==> (translate_edge_spec(intent) matches Ok(t)
            && t.mcp matches Some(c)
            && c.tool_name == "edge_list"@
            && t.permission == PermissionLevel::Safe
            && (match opt_view(*status) { Some(x) => c.arguments.contains_key("status"@) && c.arguments["status"@] == JsonScalar::Str(x), None => !c.arguments.contains_key("status"@) })),
        intent matches Intent::EdgeDeploy { task, node, .. } ==> (translate_edge_spec(intent) matches Ok(t)
            && t.mcp matches Some(c)
            && c.tool_name == "edge_deploy"@
            && t.permission == PermissionLevel::SystemWrite
            && c.arguments.contains_key("task"@) && c.arguments["task"@] == JsonScalar::Str(task@)
            && (match opt_view(*node) { Some(x) => c.arguments.contains_key("node_id"@) && c.arguments["node_id"@] == JsonScalar::Str(x), None => !c.arguments.contains_key("node_id"@) })),
        intent matches Intent::EdgeUpdate { node, version, .. } ==> (translate_edge_spec(intent) matches Ok(t)
            && t.mcp matches Some(c)
            && c.tool_name == "edge_update"@
            && t.permission == PermissionLevel::SystemWrite
            && c.arguments.contains_key("node_id"@) && c.arguments["node_id"@] == JsonScalar::Str(node@)
            && (c.arguments.contains_key("version"@) && c.arguments["version"@] == JsonScalar::Str(match opt_view(*version) { Some(x) => x, None => "latest"@ }))),
        intent matches Intent::EdgeHealth { node, .. } ==> (translate_edge_spec(intent) matches Ok(t)
            && t.mcp matches Some(c)
            && c.tool_name == "edge_health"@
            && t.permission == PermissionLevel::Safe
            && (match opt_view(*node) { Some(x) => c.arguments.contains_key("node_id"@) && c.arguments["node_id"@] == JsonScalar::Str(x), None => !c.arguments.contains_key("node_id"@) })),
        intent matches Intent::EdgeDecommission { node, .. } ==> (translate_edge_spec(intent) matches Ok(t)
            && t.mcp matches Some(c)
            && c.tool_name == "edge_decommission"@
            && t.permission == PermissionLevel::SystemWrite
            && c.arguments.contains_key("node_id"@) && c.arguments["node_id"@] == JsonScalar::Str(node@)),
        intent matches Intent::EdgeLogs { action, node, .. } ==> (translate_edge_spec(intent) matches Ok(t)
            && t.mcp matches Some(c)
            && c.tool_name == "edge_logs"@
            && t.permission == PermissionLevel::Safe
            && c.arguments.contains_key("action"@) && c.arguments["action"@] == JsonScalar::Str(action@)
            && (match opt_view(*node) { Some(x) => c.arguments.contains_key("node_id"@) && c.arguments["node_id"@] == JsonScalar::Str(x), None => !c.arguments.contains_key("node_id"@) })),
        intent matches Intent::EdgeConfig { action, node, key, .. } ==> (translate_edge_spec(intent) matches Ok(t)
            && t.mcp matches Some(c)
            && c.tool_name == "edge_config"@
            && (if action@ == "get"@ || action@ == "list"@ { t.permission == PermissionLevel::Safe } else { t.permission == PermissionLevel::SystemWrite })
            && c.arguments.contains_key("action"@) && c.arguments["action"@] == JsonScalar::Str(action@)
            && (match opt_view(*node) { Some(x) => c.arguments.contains_key("node_id"@) && c.arguments["node_id"@] == JsonScalar::Str(x), None => !c.arguments.contains_key("node_id"@) })
            && (match opt_view(*key) { Some(x) => c.arguments.contains_key("key"@) && c.arguments["key"@] == JsonScalar::Str(x), None => !c.arguments.contains_key("key"@) })),
{
    reveal_strlit("action");
    reveal_strlit("key");
    reveal_strlit("node_id");
    reveal_strlit("status");
    reveal_strlit("task");
    reveal_strlit("version");
    assert("action"@.len() != "key"@.len());
    assert("action"@.len() != "node_id"@.len());
    assert("key"@.len() != "node_id"@.len());
    assert("node_id"@.len() != "task"@.len());
    assert("node_id"@[0] != "version"@[0]);
}

} // verus!
