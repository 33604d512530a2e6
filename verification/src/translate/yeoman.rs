//! The SecureYeoman AI platform, over the MCP bridge.
use vstd::prelude::*;

use crate::intent::{outcome, tool_view, Failure, Intent, TranslateError, Translation, TranslationView};
use crate::json::{json_object_insert, json_object_new, no_entries, JsonArg, JsonScalar};
use crate::mcp::{insert_opt, insert_str, mcp_call, with_opt, with_str, wrap, wrap_text};
use crate::security::PermissionLevel;
use crate::text::{opt_view, or_else, or_text, owned, str_eq};

verus! {

/// The requests that `translate_yeoman` handles.
pub open spec fn is_yeoman_intent(intent: &Intent) -> bool {
    ||| intent is YeomanAgents
    ||| intent is YeomanTasks
    ||| intent is YeomanTools
    ||| intent is YeomanIntegrations
    ||| intent is YeomanStatus
    ||| intent is YeomanLogs
    ||| intent is YeomanWorkflows
    ||| intent is YeomanRegisterTools
    ||| intent is YeomanToolExecute
    ||| intent is YeomanBrainQuery
    ||| intent is YeomanBrainSync
    ||| intent is YeomanTokenBudget
    ||| intent is YeomanEvents
    ||| intent is YeomanSwarm
}

/// The tool call that `translate_yeoman` gives for each request it handles.
pub open spec fn translate_yeoman_spec(intent: &Intent) -> Result<TranslationView, Failure> {
    match intent {
        Intent::YeomanAgents { action, agent_id, name, .. } => {
            let entries = with_str(no_entries(), "action"@, action@);
            let entries = with_opt(entries, "agent_id"@, opt_view(*agent_id));
            let entries = with_opt(entries, "name"@, opt_view(*name));
            Ok(
                tool_view(
                    "yeoman_agents"@,
                    entries,
                    "SecureYeoman agents: "@ + action@ + wrap(opt_view(*name), " '"@, "'"@),
                    if action@ == "list"@ || action@ == "status"@ || action@ == "info"@ { PermissionLevel::Safe } else { PermissionLevel::SystemWrite },
                    "Lists/Deploys/Stops/Queries agents via SecureYeoman MCP bridge"@,
                ),
            )
        },
        Intent::YeomanTasks { action, description, task_id, .. } => {
            let entries = with_str(no_entries(), "action"@, action@);
            let entries = with_opt(entries, "description"@, opt_view(*description));
            let entries = with_opt(entries, "task_id"@, opt_view(*task_id));
            Ok(
                tool_view(
                    "yeoman_tasks"@,
                    entries,
                    "SecureYeoman task: "@ + action@ + wrap(opt_view(*task_id), " '"@, "'"@),
                    if action@ == "list"@ || action@ == "status"@ { PermissionLevel::Safe } else { PermissionLevel::SystemWrite },
                    "Assigns/Lists/Checks/Cancels tasks via SecureYeoman MCP bridge"@,
                ),
            )
        },
        Intent::YeomanTools { action, query, .. } => {
            let entries = with_str(no_entries(), "action"@, action@);
            let entries = with_opt(entries, "query"@, opt_view(*query));
            Ok(
                tool_view(
                    "yeoman_tools"@,
                    entries,
                    "SecureYeoman tools: "@ + action@ + wrap(opt_view(*query), " '"@, "'"@),
                    PermissionLevel::Safe,
                    "Queries MCP tools catalog via SecureYeoman MCP bridge"@,
                ),
            )
        },
        Intent::YeomanIntegrations { action, name, .. } => {
            let entries = with_str(no_entries(), "action"@, action@);
            let entries = with_opt(entries, "name"@, opt_view(*name));
            Ok(
                tool_view(
                    "yeoman_integrations"@,
                    entries,
                    "SecureYeoman integration: "@ + action@ + wrap(opt_view(*name), " '"@, "'"@),
                    if action@ == "list"@ || action@ == "status"@ { PermissionLevel::Safe } else { PermissionLevel::SystemWrite },
                    "Lists/Enables/Disables/Checks integrations via SecureYeoman MCP bridge"@,
                ),
            )
        },
        Intent::YeomanStatus => {
            Ok(
                tool_view(
                    "yeoman_status"@,
                    no_entries(),
                    "SecureYeoman status"@,
                    PermissionLevel::Safe,
                    "Checks SecureYeoman platform health via MCP bridge"@,
                ),
            )
        },
        Intent::YeomanLogs { action, agent_id, .. } => {
            let entries = with_str(no_entries(), "action"@, action@);
            let entries = with_opt(entries, "agent_id"@, opt_view(*agent_id));
            Ok(
                tool_view(
                    "yeoman_logs"@,
                    entries,
                    "SecureYeoman logs: "@ + action@ + wrap(opt_view(*agent_id), " ("@, ")"@),
                    PermissionLevel::Safe,
                    "Queries agent logs via SecureYeoman"@,
                ),
            )
        },
        Intent::YeomanWorkflows { action, name, .. } => {
            let entries = with_str(no_entries(), "action"@, action@);
            let entries = with_opt(entries, "name"@, opt_view(*name));
            Ok(
                tool_view(
                    "yeoman_workflows"@,
                    entries,
                    "SecureYeoman workflow: "@ + action@ + wrap(opt_view(*name), " '"@, "'"@),
                    if action@ == "list"@ || action@ == "status"@ { PermissionLevel::Safe } else { PermissionLevel::SystemWrite },
                    "Manages workflows via SecureYeoman"@,
                ),
            )
        },
        Intent::YeomanRegisterTools { action, .. } => {
            let entries = with_str(no_entries(), "action"@, action@);
            Ok(
                tool_view(
                    "yeoman_register_tools"@,
                    entries,
                    "SecureYeoman register tools: "@ + action@,
                    PermissionLevel::SystemWrite,
                    "Registers SecureYeoman MCP tool catalog into daimon registry"@,
                ),
            )
        },
        Intent::YeomanToolExecute { tool_name, args, .. } => {
            let entries = with_str(no_entries(), "tool_name"@, tool_name@);
            let entries = with_opt(entries, "args"@, opt_view(*args));
            Ok(
                tool_view(
                    "yeoman_tool_execute"@,
                    entries,
                    "SecureYeoman execute tool: "@ + tool_name@,
                    PermissionLevel::SystemWrite,
                    "Executes a SecureYeoman tool by name via bridge"@,
                ),
            )
        },
        Intent::YeomanBrainQuery { query, limit, .. } => {
            let entries = with_str(no_entries(), "query"@, query@);
            let entries = with_opt(entries, "limit"@, opt_view(*limit));
            Ok(
                tool_view(
                    "yeoman_brain_query"@,
                    entries,
                    "SecureYeoman brain query: "@ + query@,
                    PermissionLevel::Safe,
                    "Queries SecureYeoman knowledge brain"@,
                ),
            )
        },
        Intent::YeomanBrainSync { action, topic, .. } => {
            let entries = with_str(no_entries(), "action"@, action@);
            let entries = with_opt(entries, "topic"@, opt_view(*topic));
            Ok(
                tool_view(
                    "yeoman_brain_sync"@,
                    entries,
                    "SecureYeoman brain sync: "@ + action@,
                    PermissionLevel::SystemWrite,
                    "Syncs knowledge between SecureYeoman and AGNOS RAG"@,
                ),
            )
        },
        Intent::YeomanTokenBudget { action, pool, amount, .. } => {
            let entries = with_str(no_entries(), "action"@, action@);
            let entries = with_opt(entries, "pool"@, opt_view(*pool));
            let entries = with_opt(entries, "amount"@, opt_view(*amount));
            Ok(
                tool_view(
                    "yeoman_token_budget"@,
                    entries,
                    "SecureYeoman token budget: "@ + action@,
                    if action@ == "list"@ || action@ == "check"@ { PermissionLevel::Safe } else { PermissionLevel::SystemWrite },
                    "Manages SecureYeoman agent token budgets via hoosh"@,
                ),
            )
        },
        Intent::YeomanEvents { action, limit, .. } => {
            let entries = with_str(no_entries(), "action"@, action@);
            let entries = with_opt(entries, "limit"@, opt_view(*limit));
            Ok(
                tool_view(
                    "yeoman_events"@,
                    entries,
                    "SecureYeoman events: "@ + action@,
                    PermissionLevel::Safe,
                    "Queries SecureYeoman event stream"@,
                ),
            )
        },
        Intent::YeomanSwarm { action, swarm_id, capability, .. } => {
            let entries = with_str(no_entries(), "action"@, action@);
            let entries = with_opt(entries, "swarm_id"@, opt_view(*swarm_id));
            let entries = with_opt(entries, "capability"@, opt_view(*capability));
            Ok(
                tool_view(
                    "yeoman_swarm"@,
                    entries,
                    "SecureYeoman swarm: "@ + action@,
                    if action@ == "handoff"@ { PermissionLevel::SystemWrite } else { PermissionLevel::Safe },
                    "Queries SecureYeoman swarm topology"@,
                ),
            )
        },
        _ => Err(Failure::NotForThisTranslator { family: "yeoman"@ }),
    }
}

/// Translates a SecureYeoman request into a SecureYeoman tool call.
pub fn translate_yeoman(intent: &Intent) -> (r: Result<Translation, TranslateError>)
    requires
        is_yeoman_intent(intent),
    ensures
        outcome(r) == translate_yeoman_spec(intent),
{
    match intent {
        Intent::YeomanAgents { action, agent_id, name, .. } => {
            let mut a = json_object_new();
            insert_str(&mut a, "action", action.as_str());
            insert_opt(&mut a, "agent_id", agent_id);
            insert_opt(&mut a, "name", name);
            let mut d = owned("SecureYeoman agents: ");
            d.append(action.as_str());
            d.append(wrap_text(name, " '", "'").as_str());
            let e = owned("Lists/Deploys/Stops/Queries agents via SecureYeoman MCP bridge");
            Ok(mcp_call("yeoman_agents", a, d, if str_eq(action.as_str(), "list") || str_eq(action.as_str(), "status") || str_eq(action.as_str(), "info") { PermissionLevel::Safe } else { PermissionLevel::SystemWrite }, e))
        },
        Intent::YeomanTasks { action, description, task_id, .. } => {
            let mut a = json_object_new();
            insert_str(&mut a, "action", action.as_str());
            insert_opt(&mut a, "description", description);
            insert_opt(&mut a, "task_id", task_id);
            let mut d = owned("SecureYeoman task: ");
            d.append(action.as_str());
            d.append(wrap_text(task_id, " '", "'").as_str());
            let e = owned("Assigns/Lists/Checks/Cancels tasks via SecureYeoman MCP bridge");
            Ok(mcp_call("yeoman_tasks", a, d, if str_eq(action.as_str(), "list") || str_eq(action.as_str(), "status") { PermissionLevel::Safe } else { PermissionLevel::SystemWrite }, e))
        },
        Intent::YeomanTools { action, query, .. } => {
            let mut a = json_object_new();
            insert_str(&mut a, "action", action.as_str());
            insert_opt(&mut a, "query", query);
            let mut d = owned("SecureYeoman tools: ");
            d.append(action.as_str());
            d.append(wrap_text(query, " '", "'").as_str());
            let e = owned("Queries MCP tools catalog via SecureYeoman MCP bridge");
            Ok(mcp_call("yeoman_tools", a, d, PermissionLevel::Safe, e))
        },
        Intent::YeomanIntegrations { action, name, .. } => {
            let mut a = json_object_new();
            insert_str(&mut a, "action", action.as_str());
            insert_opt(&mut a, "name", name);
            let mut d = owned("SecureYeoman integration: ");
            d.append(action.as_str());
            d.append(wrap_text(name, " '", "'").as_str());
            let e = owned("Lists/Enables/Disables/Checks integrations via SecureYeoman MCP bridge");
            Ok(mcp_call("yeoman_integrations", a, d, if str_eq(action.as_str(), "list") || str_eq(action.as_str(), "status") { PermissionLevel::Safe } else { PermissionLevel::SystemWrite }, e))
        },
        Intent::YeomanStatus => {
            let a = json_object_new();
            let d = owned("SecureYeoman status");
            let e = owned("Checks SecureYeoman platform health via MCP bridge");
            Ok(mcp_call("yeoman_status", a, d, PermissionLevel::Safe, e))
        },
        Intent::YeomanLogs { action, agent_id, .. } => {
            let mut a = json_object_new();
            insert_str(&mut a, "action", action.as_str());
            insert_opt(&mut a, "agent_id", agent_id);
            let mut d = owned("SecureYeoman logs: ");
            d.append(action.as_str());
            d.append(wrap_text(agent_id, " (", ")").as_str());
            let e = owned("Queries agent logs via SecureYeoman");
            Ok(mcp_call("yeoman_logs", a, d, PermissionLevel::Safe, e))
        },
        Intent::YeomanWorkflows { action, name, .. } => {
            let mut a = json_object_new();
            insert_str(&mut a, "action", action.as_str());
            insert_opt(&mut a, "name", name);
            let mut d = owned("SecureYeoman workflow: ");
            d.append(action.as_str());
            d.append(wrap_text(name, " '", "'").as_str());
            let e = owned("Manages workflows via SecureYeoman");
            Ok(mcp_call("yeoman_workflows", a, d, if str_eq(action.as_str(), "list") || str_eq(action.as_str(), "status") { PermissionLevel::Safe } else { PermissionLevel::SystemWrite }, e))
        },
        Intent::YeomanRegisterTools { action, .. } => {
            let mut a = json_object_new();
            insert_str(&mut a, "action", action.as_str());
            let mut d = owned("SecureYeoman register tools: ");
            d.append(action.as_str());
            let e = owned("Registers SecureYeoman MCP tool catalog into daimon registry");
            Ok(mcp_call("yeoman_register_tools", a, d, PermissionLevel::SystemWrite, e))
        },
        Intent::YeomanToolExecute { tool_name, args, .. } => {
            let mut a = json_object_new();
            insert_str(&mut a, "tool_name", tool_name.as_str());
            insert_opt(&mut a, "args", args);
            let mut d = owned("SecureYeoman execute tool: ");
            d.append(tool_name.as_str());
            let e = owned("Executes a SecureYeoman tool by name via bridge");
            Ok(mcp_call("yeoman_tool_execute", a, d, PermissionLevel::SystemWrite, e))
        },
        Intent::YeomanBrainQuery { query, limit, .. } => {
            let mut a = json_object_new();
            insert_str(&mut a, "query", query.as_str());
            insert_opt(&mut a, "limit", limit);
            let mut d = owned("SecureYeoman brain query: ");
            d.append(query.as_str());
            let e = owned("Queries SecureYeoman knowledge brain");
            Ok(mcp_call("yeoman_brain_query", a, d, PermissionLevel::Safe, e))
        },
        Intent::YeomanBrainSync { action, topic, .. } => {
            let mut a = json_object_new();
            insert_str(&mut a, "action", action.as_str());
            insert_opt(&mut a, "topic", topic);
            let mut d = owned("SecureYeoman brain sync: ");
            d.append(action.as_str());
            let e = owned("Syncs knowledge between SecureYeoman and AGNOS RAG");
            Ok(mcp_call("yeoman_brain_sync", a, d, PermissionLevel::SystemWrite, e))
        },
        Intent::YeomanTokenBudget { action, pool, amount, .. } => {
            let mut a = json_object_new();
            insert_str(&mut a, "action", action.as_str());
            insert_opt(&mut a, "pool", pool);
            insert_opt(&mut a, "amount", amount);
            let mut d = owned("SecureYeoman token budget: ");
            d.append(action.as_str());
            let e = owned("Manages SecureYeoman agent token budgets via hoosh");
            Ok(mcp_call("yeoman_token_budget", a, d, if str_eq(action.as_str(), "list") || str_eq(action.as_str(), "check") { PermissionLevel::Safe } else { PermissionLevel::SystemWrite }, e))
        },
        Intent::YeomanEvents { action, limit, .. } => {
            let mut a = json_object_new();
            insert_str(&mut a, "action", action.as_str());
            insert_opt(&mut a, "limit", limit);
            let mut d = owned("SecureYeoman events: ");
            d.append(action.as_str());
            let e = owned("Queries SecureYeoman event stream");
            Ok(mcp_call("yeoman_events", a, d, PermissionLevel::Safe, e))
        },
        Intent::YeomanSwarm { action, swarm_id, capability, .. } => {
            let mut a = json_object_new();
            insert_str(&mut a, "action", action.as_str());
            insert_opt(&mut a, "swarm_id", swarm_id);
            insert_opt(&mut a, "capability", capability);
            let mut d = owned("SecureYeoman swarm: ");
            d.append(action.as_str());
            let e = owned("Queries SecureYeoman swarm topology");
            Ok(mcp_call("yeoman_swarm", a, d, if str_eq(action.as_str(), "handoff") { PermissionLevel::SystemWrite } else { PermissionLevel::Safe }, e))
        },
        _ => Err(TranslateError::NotForThisTranslator { family: owned("yeoman") }),
    }
}

/// A SecureYeoman request is answered by a tool call alone: the translation runs no shell
/// command and passes no argument to one.
pub proof fn law_yeoman_calls_a_tool(intent: &Intent)
    requires
        is_yeoman_intent(intent),
    ensures
        translate_yeoman_spec(intent) matches Ok(t) && t.command.len() == 0 && t.args.len() == 0
            && t.mcp is Some,
{
}

/// What a SecureYeoman tool call carries: each request calls its own tool, with every field
/// of the request under its key (an absent optional field under none), at the
/// privilege its action needs.
pub proof fn law_yeoman_arguments_carry_the_request(intent: &Intent)
    ensures
        intent matches Intent::YeomanAgents { action, agent_id, name, .. } ==> (translate_yeoman_spec(intent) matches Ok(t)
            && t.mcp matches Some(c)
            && c.tool_name == "yeoman_agents"@
            && (if action@ == "list"@ || action@ == "status"@ || action@ == "info"@ { t.permission == PermissionLevel::Safe } else { t.permission == PermissionLevel::SystemWrite })
            && c.arguments.contains_key("action"@) && c.arguments["action"@] == JsonScalar::Str(action@)
            && (match opt_view(*agent_id) { Some(x) => c.arguments.contains_key("agent_id"@) && c.arguments["agent_id"@] == JsonScalar::Str(x), None => !c.arguments.contains_key("agent_id"@) })
            && (match opt_view(*name) { Some(x) => c.arguments.contains_key("name"@) && c.arguments["name"@] == JsonScalar::Str(x), None => !c.arguments.contains_key("name"@) })),
        intent matches Intent::YeomanTasks { action, description, task_id, .. } ==> (translate_yeoman_spec(intent) matches Ok(t)
            && t.mcp matches Some(c)
            && c.tool_name == "yeoman_tasks"@
            && (if action@ == "list"@ || action@ == "status"@ { t.permission == PermissionLevel::Safe } else { t.permission == PermissionLevel::SystemWrite })
            && c.arguments.contains_key("action"@) && c.arguments["action"@] == JsonScalar::Str(action@)
            && (match opt_view(*description) { Some(x) => c.arguments.contains_key("description"@) && c.arguments["description"@] == JsonScalar::Str(x), None => !c.arguments.contains_key("description"@) })
            && (match opt_view(*task_id) { Some(x) => c.arguments.contains_key("task_id"@) && c.arguments["task_id"@] == JsonScalar::Str(x), None => !c.arguments.contains_key("task_id"@) })),
        intent matches Intent::YeomanTools { action, query, .. } ==> (translate_yeoman_spec(intent) matches Ok(t)
            && t.mcp matches Some(c)
            && c.tool_name == "yeoman_tools"@
            && t.permission == PermissionLevel::Safe
            && c.arguments.contains_key("action"@) && c.arguments["action"@] == JsonScalar::Str(action@)
            && (match opt_view(*query) { Some(x) => c.arguments.contains_key("query"@) && c.arguments["query"@] == JsonScalar::Str(x), None => !c.arguments.contains_key("query"@) })),
        intent matches Intent::YeomanIntegrations { action, name, .. } ==> (translate_yeoman_spec(intent) matches Ok(t)
            && t.mcp matches Some(c)
            && c.tool_name == "yeoman_integrations"@
            && (if action@ == "list"@ || action@ == "status"@ { t.permission == PermissionLevel::Safe } else { t.permission == PermissionLevel::SystemWrite })
            && c.arguments.contains_key("action"@) && c.arguments["action"@] == JsonScalar::Str(action@)
            && (match opt_view(*name) { Some(x) => c.arguments.contains_key("name"@) && c.arguments["name"@] == JsonScalar::Str(x), None => !c.arguments.contains_key("name"@) })),
        intent is YeomanStatus ==> (translate_yeoman_spec(intent) matches Ok(t)
            && t.mcp matches Some(c)
            && c.tool_name == "yeoman_status"@
            && t.permission == PermissionLevel::Safe),
        intent matches Intent::YeomanLogs { action, agent_id, .. } ==> (translate_yeoman_spec(intent) matches Ok(t)
            && t.mcp matches Some(c)
            && c.tool_name == "yeoman_logs"@
            && t.permission == PermissionLevel::Safe
            && c.arguments.contains_key("action"@) && c.arguments["action"@] == JsonScalar::Str(action@)
            && (match opt_view(*agent_id) { Some(x) => c.arguments.contains_key("agent_id"@) && c.arguments["agent_id"@] == JsonScalar::Str(x), None => !c.arguments.contains_key("agent_id"@) })),
        intent matches Intent::YeomanWorkflows { action, name, .. } ==> (translate_yeoman_spec(intent) matches Ok(t)
            && t.mcp matches Some(c)
            && c.tool_name == "yeoman_workflows"@
            && (if action@ == "list"@ || action@ == "status"@ { t.permission == PermissionLevel::Safe } else { t.permission == PermissionLevel::SystemWrite })
            && c.arguments.contains_key("action"@) && c.arguments["action"@] == JsonScalar::Str(action@)
            && (match opt_view(*name) { Some(x) => c.arguments.contains_key("name"@) && c.arguments["name"@] == JsonScalar::Str(x), None => !c.arguments.contains_key("name"@) })),
        intent matches Intent::YeomanRegisterTools { action, .. } ==> (translate_yeoman_spec(intent) matches Ok(t)
            && t.mcp matches Some(c)
            && c.tool_name == "yeoman_register_tools"@
            && t.permission == PermissionLevel::SystemWrite
            && c.arguments.contains_key("action"@) && c.arguments["action"@] == JsonScalar::Str(action@)),
        intent matches Intent::YeomanToolExecute { tool_name, args, .. } ==> (translate_yeoman_spec(intent) matches Ok(t)
            && t.mcp matches Some(c)
            && c.tool_name == "yeoman_tool_execute"@
            && t.permission == PermissionLevel::SystemWrite
            && c.arguments.contains_key("tool_name"@) && c.arguments["tool_name"@] == JsonScalar::Str(tool_name@)
            && (match opt_view(*args) { Some(x) => c.arguments.contains_key("args"@) && c.arguments["args"@] == JsonScalar::Str(x), None => !c.arguments.contains_key("args"@) })),
        intent matches Intent::YeomanBrainQuery { query, limit, .. } ==> (translate_yeoman_spec(intent) matches Ok(t)
            && t.mcp matches Some(c)
            && c.tool_name == "yeoman_brain_query"@
            && t.permission == PermissionLevel::Safe
            && c.arguments.contains_key("query"@) && c.arguments["query"@] == JsonScalar::Str(query@)
            && (match opt_view(*limit) { Some(x) => c.arguments.contains_key("limit"@) && c.arguments["limit"@] == JsonScalar::Str(x), None => !c.arguments.contains_key("limit"@) })),
        intent matches Intent::YeomanBrainSync { action, topic, .. } ==> (translate_yeoman_spec(intent) matches Ok(t)
            && t.mcp matches Some(c)
            && c.tool_name == "yeoman_brain_sync"@
            && t.permission == PermissionLevel::SystemWrite
            && c.arguments.contains_key("action"@) && c.arguments["action"@] == JsonScalar::Str(action@)
            && (match opt_view(*topic) { Some(x) => c.arguments.contains_key("topic"@) && c.arguments["topic"@] == JsonScalar::Str(x), None => !c.arguments.contains_key("topic"@) })),
        intent matches Intent::YeomanTokenBudget { action, pool, amount, .. } ==> (translate_yeoman_spec(intent) matches Ok(t)
            && t.mcp matches Some(c)
            && c.tool_name == "yeoman_token_budget"@
            && (if action@ == "list"@ || action@ == "check"@ { t.permission == PermissionLevel::Safe } else { t.permission == PermissionLevel::SystemWrite })
            && c.arguments.contains_key("action"@) && c.arguments["action"@] == JsonScalar::Str(action@)
            && (match opt_view(*pool) { Some(x) => c.arguments.contains_key("pool"@) && c.arguments["pool"@] == JsonScalar::Str(x), None => !c.arguments.contains_key("pool"@) })
            && (match opt_view(*amount) { Some(x) => c.arguments.contains_key("amount"@) && c.arguments["amount"@] == JsonScalar::Str(x), None => !c.arguments.contains_key("amount"@) })),
        intent matches Intent::YeomanEvents { action, limit, .. } ==> (translate_yeoman_spec(intent) matches Ok(t)
            && t.mcp matches Some(c)
            && c.tool_name == "yeoman_events"@
            && t.permission == PermissionLevel::Safe
            && c.arguments.contains_key("action"@) && c.arguments["action"@] == JsonScalar::Str(action@)
            && (match opt_view(*limit) { Some(x) => c.arguments.contains_key("limit"@) && c.arguments["limit"@] == JsonScalar::Str(x), None => !c.arguments.contains_key("limit"@) })),
        intent matches Intent::YeomanSwarm { action, swarm_id, capability, .. } ==> (translate_yeoman_spec(intent) matches Ok(t)
            && t.mcp matches Some(c)
            && c.tool_name == "yeoman_swarm"@
            && (if action@ == "handoff"@ { t.permission == PermissionLevel::SystemWrite } else { t.permission == PermissionLevel::Safe })
            && c.arguments.contains_key("action"@) && c.arguments["action"@] == JsonScalar::Str(action@)
            && (match opt_view(*swarm_id) { Some(x) => c.arguments.contains_key("swarm_id"@) && c.arguments["swarm_id"@] == JsonScalar::Str(x), None => !c.arguments.contains_key("swarm_id"@) })
            && (match opt_view(*capability) { Some(x) => c.arguments.contains_key("capability"@) && c.arguments["capability"@] == JsonScalar::Str(x), None => !c.arguments.contains_key("capability"@) })),
{
    reveal_strlit("action");
    reveal_strlit("agent_id");
    reveal_strlit("amount");
    reveal_strlit("args");
    reveal_strlit("capability");
    reveal_strlit("description");
    reveal_strlit("limit");
    reveal_strlit("name");
    reveal_strlit("pool");
    reveal_strlit("query");
    reveal_strlit("swarm_id");
    reveal_strlit("task_id");
    reveal_strlit("tool_name");
    reveal_strlit("topic");
    assert("action"@.len() != "agent_id"@.len());
    assert("action"@[1] != "amount"@[1]);
    assert("action"@.len() != "capability"@.len());
    assert("action"@.len() != "description"@.len());
    assert("action"@.len() != "limit"@.len());
    assert("action"@.len() != "name"@.len());
    assert("action"@.len() != "pool"@.len());
    assert("action"@.len() != "query"@.len());
    assert("action"@.len() != "swarm_id"@.len());
    assert("action"@.len() != "task_id"@.len());
    assert("action"@.len() != "topic"@.len());
    assert("agent_id"@.len() != "name"@.len());
    assert("amount"@.len() != "pool"@.len());
    assert("args"@.len() != "tool_name"@.len());
    assert("capability"@.len() != "swarm_id"@.len());
    assert("description"@.len() != "task_id"@.len());
    assert("limit"@[0] != "query"@[0]);
}

} // verus!
