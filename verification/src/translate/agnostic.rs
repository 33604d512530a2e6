//! The Agnostic QA platform, over the MCP bridge.
use vstd::prelude::*;

use crate::intent::{outcome, tool_view, Failure, Intent, TranslateError, Translation, TranslationView};
use crate::json::{json_object_insert, json_object_new, no_entries, JsonArg, JsonScalar};
use crate::mcp::{insert_opt, insert_str, mcp_call, with_opt, with_str, wrap, wrap_text};
use crate::security::PermissionLevel;
use crate::text::{opt_view, or_else, or_text, owned, str_eq};

verus! {

/// The requests that `translate_agnostic` handles.
pub open spec fn is_agnostic_intent(intent: &Intent) -> bool {
    ||| intent is AgnosticSubmitTask
    ||| intent is AgnosticTaskStatus
    ||| intent is AgnosticStructuredResults
    ||| intent is AgnosticListPresets
    ||| intent is AgnosticAgentStatus
    ||| intent is AgnosticDashboard
    ||| intent is AgnosticTrends
    ||| intent is AgnosticCompare
    ||| intent is AgnosticRunCrew
    ||| intent is AgnosticCrewStatus
    ||| intent is AgnosticListCrews
    ||| intent is AgnosticCancelCrew
    ||| intent is AgnosticListDefinitions
    ||| intent is AgnosticCreateAgent
    ||| intent is AgnosticGpuStatus
    ||| intent is AgnosticGpuMemory
}

/// The tool call that `translate_agnostic` gives for each request it handles.
pub open spec fn translate_agnostic_spec(intent: &Intent) -> Result<TranslationView, Failure> {
    match intent {
        Intent::AgnosticSubmitTask { title, description, target_url, .. } => {
            let entries = with_str(no_entries(), "title"@, title@);
            let entries = with_str(entries, "description"@, or_else(opt_view(*description), title@));
            let entries = with_opt(entries, "target_url"@, opt_view(*target_url));
            Ok(
                tool_view(
                    "agnostic_submit_task"@,
                    entries,
                    "Submit QA task: "@ + title@,
                    PermissionLevel::SystemWrite,
                    "Submits a QA task to Agnostic via MCP bridge"@,
                ),
            )
        },
        Intent::AgnosticTaskStatus { task_id, .. } => {
            let entries = with_str(no_entries(), "task_id"@, task_id@);
            Ok(
                tool_view(
                    "agnostic_task_status"@,
                    entries,
                    "Task status: "@ + task_id@,
                    PermissionLevel::Safe,
                    "Gets task status from Agnostic via MCP bridge"@,
                ),
            )
        },
        Intent::AgnosticStructuredResults { session_id, result_type, .. } => {
            let entries = with_str(no_entries(), "session_id"@, session_id@);
            let entries = with_opt(entries, "result_type"@, opt_view(*result_type));
            Ok(
                tool_view(
                    "agnostic_structured_results"@,
                    entries,
                    "Results: "@ + session_id@,
                    PermissionLevel::Safe,
                    "Gets structured results from Agnostic via MCP bridge"@,
                ),
            )
        },
        Intent::AgnosticListPresets { domain, .. } => {
            let entries = with_opt(no_entries(), "domain"@, opt_view(*domain));
            Ok(
                tool_view(
                    "agnostic_list_presets"@,
                    entries,
                    "Agnostic: list presets"@,
                    PermissionLevel::Safe,
                    "Lists crew presets from Agnostic via MCP bridge"@,
                ),
            )
        },
        Intent::AgnosticAgentStatus => {
            Ok(
                tool_view(
                    "agnostic_agent_status"@,
                    no_entries(),
                    "QA agent status"@,
                    PermissionLevel::Safe,
                    "Gets QA agent status from Agnostic via MCP bridge"@,
                ),
            )
        },
        Intent::AgnosticDashboard { section, .. } => {
            let entries = with_opt(no_entries(), "section"@, opt_view(*section));
            Ok(
                tool_view(
                    "agnostic_dashboard"@,
                    entries,
                    "Agnostic dashboard"@ + wrap(opt_view(*section), " ("@, ")"@),
                    PermissionLevel::Safe,
                    "Gets QA dashboard snapshot from Agnostic"@,
                ),
            )
        },
        Intent::AgnosticTrends => {
            Ok(
                tool_view(
                    "agnostic_trends"@,
                    no_entries(),
                    "Agnostic: quality trends"@,
                    PermissionLevel::Safe,
                    "Gets quality metric trends from Agnostic test history"@,
                ),
            )
        },
        Intent::AgnosticCompare { session_a, session_b, .. } => {
            let entries = with_str(no_entries(), "session_a"@, session_a@);
            let entries = with_str(entries, "session_b"@, session_b@);
            Ok(
                tool_view(
                    "agnostic_compare"@,
                    entries,
                    "Agnostic: compare "@ + session_a@ + " vs "@ + session_b@,
                    PermissionLevel::Safe,
                    "Compares two test sessions side-by-side via Agnostic"@,
                ),
            )
        },
        Intent::AgnosticRunCrew { title, preset, gpu_required, .. } => {
            let entries = with_str(no_entries(), "title"@, title@);
            let entries = with_str(entries, "description"@, title@);
            let entries = with_opt(entries, "preset"@, opt_view(*preset));
            let entries = if *gpu_required { entries.insert("gpu_required"@, JsonScalar::Bool(true)) } else { entries };
            Ok(
                tool_view(
                    "agnostic_run_crew"@,
                    entries,
                    "Agnostic: run crew '"@ + title@ + "'"@,
                    PermissionLevel::SystemWrite,
                    "Runs an agent crew via Agnostic MCP bridge"@,
                ),
            )
        },
        Intent::AgnosticCrewStatus { crew_id, .. } => {
            let entries = with_str(no_entries(), "crew_id"@, crew_id@);
            Ok(
                tool_view(
                    "agnostic_crew_status"@,
                    entries,
                    "Agnostic: crew status "@ + crew_id@,
                    PermissionLevel::Safe,
                    "Checks crew run status via Agnostic MCP bridge"@,
                ),
            )
        },
        Intent::AgnosticListCrews { status, .. } => {
            let entries = with_opt(no_entries(), "status"@, opt_view(*status));
            Ok(
                tool_view(
                    "agnostic_list_crews"@,
                    entries,
                    "Agnostic: list crews"@,
                    PermissionLevel::Safe,
                    "Lists crews with optional status filter via Agnostic MCP bridge"@,
                ),
            )
        },
        Intent::AgnosticCancelCrew { crew_id, .. } => {
            let entries = with_str(no_entries(), "crew_id"@, crew_id@);
            Ok(
                tool_view(
                    "agnostic_cancel_crew"@,
                    entries,
                    "Agnostic: cancel crew "@ + crew_id@,
                    PermissionLevel::SystemWrite,
                    "Cancels a running or pending crew via Agnostic MCP bridge"@,
                ),
            )
        },
        Intent::AgnosticListDefinitions { domain, .. } => {
            let entries = with_opt(no_entries(), "domain"@, opt_view(*domain));
            Ok(
                tool_view(
                    "agnostic_list_definitions"@,
                    entries,
                    "Agnostic: list agent definitions"@,
                    PermissionLevel::Safe,
                    "Lists agent definitions via Agnostic MCP bridge"@,
                ),
            )
        },
        Intent::AgnosticCreateAgent { agent_key, name, role, .. } => {
            let entries = with_str(no_entries(), "agent_key"@, agent_key@);
            let entries = with_str(entries, "name"@, name@);
            let entries = with_str(entries, "role"@, role@);
            let entries = with_str(entries, "goal"@, role@);
            let entries = with_str(entries, "backstory"@, "Agent specializing in "@ + role@);
            Ok(
                tool_view(
                    "agnostic_create_agent"@,
                    entries,
                    "Agnostic: create agent '"@ + agent_key@ + "'"@,
                    PermissionLevel::SystemWrite,
                    "Creates a new agent definition via Agnostic MCP bridge"@,
                ),
            )
        },
        Intent::AgnosticGpuStatus => {
            Ok(
                tool_view(
                    "agnos_gpu_probe"@,
                    no_entries(),
                    "GPU status: probe devices and write gpu.json"@,
                    PermissionLevel::Safe,
                    "Probes GPU devices via agnosys and writes /var/lib/agnosys/gpu.json"@,
                ),
            )
        },
        Intent::AgnosticGpuMemory => {
            Ok(
                tool_view(
                    "agnos_gpu_probe"@,
                    no_entries(),
                    "GPU memory: probe device VRAM"@,
                    PermissionLevel::Safe,
                    "Probes GPU VRAM via agnosys (returns total and available memory per device)"@,
                ),
            )
        },
        _ => Err(Failure::NotForThisTranslator { family: "agnostic"@ }),
    }
}

/// Translates an Agnostic request into an Agnostic tool call.
pub fn translate_agnostic(intent: &Intent) -> (r: Result<Translation, TranslateError>)
    requires
        is_agnostic_intent(intent),
    ensures
        outcome(r) == translate_agnostic_spec(intent),
{
    match intent {
        Intent::AgnosticSubmitTask { title, description, target_url, .. } => {
            let mut a = json_object_new();
            insert_str(&mut a, "title", title.as_str());
            let v1 = or_text(description, title.as_str());
            insert_str(&mut a, "description", v1.as_str());
            insert_opt(&mut a, "target_url", target_url);
            let mut d = owned("Submit QA task: ");
            d.append(title.as_str());
            let e = owned("Submits a QA task to Agnostic via MCP bridge");
            Ok(mcp_call("agnostic_submit_task", a, d, PermissionLevel::SystemWrite, e))
        },
        Intent::AgnosticTaskStatus { task_id, .. } => {
            let mut a = json_object_new();
            insert_str(&mut a, "task_id", task_id.as_str());
            let mut d = owned("Task status: ");
            d.append(task_id.as_str());
            let e = owned("Gets task status from Agnostic via MCP bridge");
            Ok(mcp_call("agnostic_task_status", a, d, PermissionLevel::Safe, e))
        },
        Intent::AgnosticStructuredResults { session_id, result_type, .. } => {
            let mut a = json_object_new();
            insert_str(&mut a, "session_id", session_id.as_str());
            insert_opt(&mut a, "result_type", result_type);
            let mut d = owned("Results: ");
            d.append(session_id.as_str());
            let e = owned("Gets structured results from Agnostic via MCP bridge");
            Ok(mcp_call("agnostic_structured_results", a, d, PermissionLevel::Safe, e))
        },
        Intent::AgnosticListPresets { domain, .. } => {
            let mut a = json_object_new();
            insert_opt(&mut a, "domain", domain);
            let d = owned("Agnostic: list presets");
            let e = owned("Lists crew presets from Agnostic via MCP bridge");
            Ok(mcp_call("agnostic_list_presets", a, d, PermissionLevel::Safe, e))
        },
        Intent::AgnosticAgentStatus => {
            let a = json_object_new();
            let d = owned("QA agent status");
            let e = owned("Gets QA agent status from Agnostic via MCP bridge");
            Ok(mcp_call("agnostic_agent_status", a, d, PermissionLevel::Safe, e))
        },
        Intent::AgnosticDashboard { section, .. } => {
            let mut a = json_object_new();
            insert_opt(&mut a, "section", section);
            let mut d = owned("Agnostic dashboard");
            d.append(wrap_text(section, " (", ")").as_str());
            let e = owned("Gets QA dashboard snapshot from Agnostic");
            Ok(mcp_call("agnostic_dashboard", a, d, PermissionLevel::Safe, e))
        },
        Intent::AgnosticTrends => {
            let a = json_object_new();
            let d = owned("Agnostic: quality trends");
            let e = owned("Gets quality metric trends from Agnostic test history");
            Ok(mcp_call("agnostic_trends", a, d, PermissionLevel::Safe, e))
        },
        Intent::AgnosticCompare { session_a, session_b, .. } => {
            let mut a = json_object_new();
            insert_str(&mut a, "session_a", session_a.as_str());
            insert_str(&mut a, "session_b", session_b.as_str());
            let mut d = owned("Agnostic: compare ");
            d.append(session_a.as_str());
            d.append(" vs ");
            d.append(session_b.as_str());
            let e = owned("Compares two test sessions side-by-side via Agnostic");
            Ok(mcp_call("agnostic_compare", a, d, PermissionLevel::Safe, e))
        },
        Intent::AgnosticRunCrew { title, preset, gpu_required, .. } => {
            let mut a = json_object_new();
            insert_str(&mut a, "title", title.as_str());
            insert_str(&mut a, "description", title.as_str());
            insert_opt(&mut a, "preset", preset);
            if *gpu_required { json_object_insert(&mut a, "gpu_required", JsonArg::Bool(true)); }
            let mut d = owned("Agnostic: run crew '");
            d.append(title.as_str());
            d.append("'");
            let e = owned("Runs an agent crew via Agnostic MCP bridge");
            Ok(mcp_call("agnostic_run_crew", a, d, PermissionLevel::SystemWrite, e))
        },
        Intent::AgnosticCrewStatus { crew_id, .. } => {
            let mut a = json_object_new();
            insert_str(&mut a, "crew_id", crew_id.as_str());
            let mut d = owned("Agnostic: crew status ");
            d.append(crew_id.as_str());
            let e = owned("Checks crew run status via Agnostic MCP bridge");
            Ok(mcp_call("agnostic_crew_status", a, d, PermissionLevel::Safe, e))
        },
        Intent::AgnosticListCrews { status, .. } => {
            let mut a = json_object_new();
            insert_opt(&mut a, "status", status);
            let d = owned("Agnostic: list crews");
            let e = owned("Lists crews with optional status filter via Agnostic MCP bridge");
            Ok(mcp_call("agnostic_list_crews", a, d, PermissionLevel::Safe, e))
        },
        Intent::AgnosticCancelCrew { crew_id, .. } => {
            let mut a = json_object_new();
            insert_str(&mut a, "crew_id", crew_id.as_str());
            let mut d = owned("Agnostic: cancel crew ");
            d.append(crew_id.as_str());
            let e = owned("Cancels a running or pending crew via Agnostic MCP bridge");
            Ok(mcp_call("agnostic_cancel_crew", a, d, PermissionLevel::SystemWrite, e))
        },
        Intent::AgnosticListDefinitions { domain, .. } => {
            let mut a = json_object_new();
            insert_opt(&mut a, "domain", domain);
            let d = owned("Agnostic: list agent definitions");
            let e = owned("Lists agent definitions via Agnostic MCP bridge");
            Ok(mcp_call("agnostic_list_definitions", a, d, PermissionLevel::Safe, e))
        },
        Intent::AgnosticCreateAgent { agent_key, name, role, .. } => {
            let mut a = json_object_new();
            insert_str(&mut a, "agent_key", agent_key.as_str());
            insert_str(&mut a, "name", name.as_str());
            insert_str(&mut a, "role", role.as_str());
            insert_str(&mut a, "goal", role.as_str());
            let mut v4 = owned("Agent specializing in ");
            v4.append(role.as_str());
            insert_str(&mut a, "backstory", v4.as_str());
            let mut d = owned("Agnostic: create agent '");
            d.append(agent_key.as_str());
            d.append("'");
            let e = owned("Creates a new agent definition via Agnostic MCP bridge");
            Ok(mcp_call("agnostic_create_agent", a, d, PermissionLevel::SystemWrite, e))
        },
        Intent::AgnosticGpuStatus => {
            let a = json_object_new();
            let d = owned("GPU status: probe devices and write gpu.json");
            let e = owned("Probes GPU devices via agnosys and writes /var/lib/agnosys/gpu.json");
            Ok(mcp_call("agnos_gpu_probe", a, d, PermissionLevel::Safe, e))
        },
        Intent::AgnosticGpuMemory => {
            let a = json_object_new();
            let d = owned("GPU memory: probe device VRAM");
            let e = owned("Probes GPU VRAM via agnosys (returns total and available memory per device)");
            Ok(mcp_call("agnos_gpu_probe", a, d, PermissionLevel::Safe, e))
        },
        _ => Err(TranslateError::NotForThisTranslator { family: owned("agnostic") }),
    }
}

/// An Agnostic request is answered by a tool call alone: the translation runs no shell
/// command and passes no argument to one.
pub proof fn law_agnostic_calls_a_tool(intent: &Intent)
    requires
        is_agnostic_intent(intent),
    ensures
        translate_agnostic_spec(intent) matches Ok(t) && t.command.len() == 0 && t.args.len() == 0
            && t.mcp is Some,
{
}

/// What an Agnostic tool call carries: each request calls its own tool, with every field
/// of the request under its key (an absent optional field under none), at the
/// privilege its action needs.
pub proof fn law_agnostic_arguments_carry_the_request(intent: &Intent)
    ensures
        intent matches Intent::AgnosticSubmitTask { title, description, target_url, .. } ==> (translate_agnostic_spec(intent) matches Ok(t)
            && t.mcp matches Some(c)
            && c.tool_name == "agnostic_submit_task"@
            && t.permission == PermissionLevel::SystemWrite
            && c.arguments.contains_key("title"@) && c.arguments["title"@] == JsonScalar::Str(title@)
            && (c.arguments.contains_key("description"@) && c.arguments["description"@] == JsonScalar::Str(match opt_view(*description) { Some(x) => x, None => title@ }))
            && (match opt_view(*target_url) { Some(x) => c.arguments.contains_key("target_url"@) && c.arguments["target_url"@] == JsonScalar::Str(x), None => !c.arguments.contains_key("target_url"@) })),
        intent matches Intent::AgnosticTaskStatus { task_id, .. } ==> (translate_agnostic_spec(intent) matches Ok(t)
            && t.mcp matches Some(c)
            && c.tool_name == "agnostic_task_status"@
            && t.permission == PermissionLevel::Safe
            && c.arguments.contains_key("task_id"@) && c.arguments["task_id"@] == JsonScalar::Str(task_id@)),
        intent matches Intent::AgnosticStructuredResults { session_id, result_type, .. } ==> (translate_agnostic_spec(intent) matches Ok(t)
            && t.mcp matches Some(c)
            && c.tool_name == "agnostic_structured_results"@
            && t.permission == PermissionLevel::Safe
            && c.arguments.contains_key("session_id"@) && c.arguments["session_id"@] == JsonScalar::Str(session_id@)
            && (match opt_view(*result_type) { Some(x) => c.arguments.contains_key("result_type"@) && c.arguments["result_type"@] == JsonScalar::Str(x), None => !c.arguments.contains_key("result_type"@) })),
        intent matches Intent::AgnosticListPresets { domain, .. } ==> (translate_agnostic_spec(intent) matches Ok(t)
            && t.mcp matches Some(c)
            && c.tool_name == "agnostic_list_presets"@
            && t.permission == PermissionLevel::Safe
            && (match opt_view(*domain) { Some(x) => c.arguments.contains_key("domain"@) && c.arguments["domain"@] == JsonScalar::Str(x), None => !c.arguments.contains_key("domain"@) })),
        intent is AgnosticAgentStatus ==> (translate_agnostic_spec(intent) matches Ok(t)
            && t.mcp matches Some(c)
            && c.tool_name == "agnostic_agent_status"@
            && t.permission == PermissionLevel::Safe),
        intent matches Intent::AgnosticDashboard { section, .. } ==> (translate_agnostic_spec(intent) matches Ok(t)
            && t.mcp matches Some(c)
            && c.tool_name == "agnostic_dashboard"@
            && t.permission == PermissionLevel::Safe
            && (match opt_view(*section) { Some(x) => c.arguments.contains_key("section"@) && c.arguments["section"@] == JsonScalar::Str(x), None => !c.arguments.contains_key("section"@) })),
        intent is AgnosticTrends ==> (translate_agnostic_spec(intent) matches Ok(t)
            && t.mcp matches Some(c)
            && c.tool_name == "agnostic_trends"@
            && t.permission == PermissionLevel::Safe),
        intent matches Intent::AgnosticCompare { session_a, session_b, .. } ==> (translate_agnostic_spec(intent) matches Ok(t)
            && t.mcp matches Some(c)
            && c.tool_name == "agnostic_compare"@
            && t.permission == PermissionLevel::Safe
            && c.arguments.contains_key("session_a"@) && c.arguments["session_a"@] == JsonScalar::Str(session_a@)
            && c.arguments.contains_key("session_b"@) && c.arguments["session_b"@] == JsonScalar::Str(session_b@)),
        intent matches Intent::AgnosticRunCrew { title, preset, gpu_required, .. } ==> (translate_agnostic_spec(intent) matches Ok(t)
            && t.mcp matches Some(c)
            && c.tool_name == "agnostic_run_crew"@
            && t.permission == PermissionLevel::SystemWrite
            && c.arguments.contains_key("title"@) && c.arguments["title"@] == JsonScalar::Str(title@)
            && c.arguments.contains_key("description"@) && c.arguments["description"@] == JsonScalar::Str(title@)
            && (match opt_view(*preset) { Some(x) => c.arguments.contains_key("preset"@) && c.arguments["preset"@] == JsonScalar::Str(x), None => !c.arguments.contains_key("preset"@) })
            && (if *gpu_required { c.arguments.contains_key("gpu_required"@) && c.arguments["gpu_required"@] == JsonScalar::Bool(true) } else { !c.arguments.contains_key("gpu_required"@) })),
        intent matches Intent::AgnosticCrewStatus { crew_id, .. } ==> (translate_agnostic_spec(intent) matches Ok(t)
            && t.mcp matches Some(c)
            && c.tool_name == "agnostic_crew_status"@
            && t.permission == PermissionLevel::Safe
            && c.arguments.contains_key("crew_id"@) && c.arguments["crew_id"@] == JsonScalar::Str(crew_id@)),
        intent matches Intent::AgnosticListCrews { status, .. } ==> (translate_agnostic_spec(intent) matches Ok(t)
            && t.mcp matches Some(c)
            && c.tool_name == "agnostic_list_crews"@
            && t.permission == PermissionLevel::Safe
            && (match opt_view(*status) { Some(x) => c.arguments.contains_key("status"@) && c.arguments["status"@] == JsonScalar::Str(x), None => !c.arguments.contains_key("status"@) })),
        intent matches Intent::AgnosticCancelCrew { crew_id, .. } ==> (translate_agnostic_spec(intent) matches Ok(t)
            && t.mcp matches Some(c)
            && c.tool_name == "agnostic_cancel_crew"@
            && t.permission == PermissionLevel::SystemWrite
            && c.arguments.contains_key("crew_id"@) && c.arguments["crew_id"@] == JsonScalar::Str(crew_id@)),
        intent matches Intent::AgnosticListDefinitions { domain, .. } ==> (translate_agnostic_spec(intent) matches Ok(t)
            && t.mcp matches Some(c)
            && c.tool_name == "agnostic_list_definitions"@
            && t.permission == PermissionLevel::Safe
            && (match opt_view(*domain) { Some(x) => c.arguments.contains_key("domain"@) && c.arguments["domain"@] == JsonScalar::Str(x), None => !c.arguments.contains_key("domain"@) })),
        intent matches Intent::AgnosticCreateAgent { agent_key, name, role, .. } ==> (translate_agnostic_spec(intent) matches Ok(t)
            && t.mcp matches Some(c)
            && c.tool_name == "agnostic_create_agent"@
            && t.permission == PermissionLevel::SystemWrite
            && c.arguments.contains_key("agent_key"@) && c.arguments["agent_key"@] == JsonScalar::Str(agent_key@)
            && c.arguments.contains_key("name"@) && c.arguments["name"@] == JsonScalar::Str(name@)
            && c.arguments.contains_key("role"@) && c.arguments["role"@] == JsonScalar::Str(role@)
            && c.arguments.contains_key("goal"@) && c.arguments["goal"@] == JsonScalar::Str(role@)
            && c.arguments.contains_key("backstory"@)),
        intent is AgnosticGpuStatus ==> (translate_agnostic_spec(intent) matches Ok(t)
            && t.mcp matches Some(c)
            && c.tool_name == "agnos_gpu_probe"@
            && t.permission == PermissionLevel::Safe),
        intent is AgnosticGpuMemory ==> (translate_agnostic_spec(intent) matches Ok(t)
            && t.mcp matches Some(c)
            && c.tool_name == "agnos_gpu_probe"@
            && t.permission == PermissionLevel::Safe),
{
    reveal_strlit("agent_key");
    reveal_strlit("backstory");
    reveal_strlit("crew_id");
    reveal_strlit("description");
    reveal_strlit("domain");
    reveal_strlit("goal");
    reveal_strlit("gpu_required");
    reveal_strlit("name");
    reveal_strlit("preset");
    reveal_strlit("result_type");
    reveal_strlit("role");
    reveal_strlit("section");
    reveal_strlit("session_a");
    reveal_strlit("session_b");
    reveal_strlit("session_id");
    reveal_strlit("status");
    reveal_strlit("target_url");
    reveal_strlit("task_id");
    reveal_strlit("title");
    assert("agent_key"@[0] != "backstory"@[0]);
    assert("agent_key"@.len() != "goal"@.len());
    assert("agent_key"@.len() != "name"@.len());
    assert("agent_key"@.len() != "role"@.len());
    assert("backstory"@.len() != "goal"@.len());
    assert("backstory"@.len() != "name"@.len());
    assert("backstory"@.len() != "role"@.len());
    assert("description"@.len() != "gpu_required"@.len());
    assert("description"@.len() != "preset"@.len());
    assert("description"@.len() != "target_url"@.len());
    assert("description"@.len() != "title"@.len());
    assert("goal"@[0] != "name"@[0]);
    assert("goal"@[0] != "role"@[0]);
    assert("gpu_required"@.len() != "preset"@.len());
    assert("gpu_required"@.len() != "title"@.len());
    assert("name"@[0] != "role"@[0]);
    assert("preset"@.len() != "title"@.len());
    assert("result_type"@.len() != "session_id"@.len());
    assert("session_a"@[8] != "session_b"@[8]);
    assert("target_url"@.len() != "title"@.len());
}

} // verus!
