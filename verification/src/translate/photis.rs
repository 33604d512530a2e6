//! The Photis Nadi task manager, over the MCP bridge.
use vstd::prelude::*;

use crate::intent::{outcome, tool_view, Failure, Intent, TranslateError, Translation, TranslationView};
use crate::json::{json_object_insert, json_object_new, no_entries, JsonArg, JsonScalar};
use crate::mcp::{insert_opt, insert_str, mcp_call, with_opt, with_str, wrap, wrap_text};
use crate::security::PermissionLevel;
use crate::text::{opt_view, or_else, or_text, owned, str_eq};

verus! {

/// The requests that `translate_photis` handles.
pub open spec fn is_photis_intent(intent: &Intent) -> bool {
    ||| intent is TaskList
    ||| intent is TaskCreate
    ||| intent is TaskUpdate
    ||| intent is RitualCheck
    ||| intent is ProductivityStats
    ||| intent is PhotoisBoards
    ||| intent is PhotoisNotes
}

/// The tool call that `translate_photis` gives for each request it handles.
pub open spec fn translate_photis_spec(intent: &Intent) -> Result<TranslationView, Failure> {
    match intent {
        Intent::TaskList { status, .. } => {
            let entries = with_opt(no_entries(), "status"@, opt_view(*status));
            Ok(
                tool_view(
                    "photis_list_tasks"@,
                    entries,
                    "List tasks"@ + wrap(opt_view(*status), " with status "@, ""@),
                    PermissionLevel::Safe,
                    "Lists tasks from Photis Nadi via MCP bridge"@,
                ),
            )
        },
        Intent::TaskCreate { title, priority, .. } => {
            let entries = with_str(no_entries(), "title"@, title@);
            let entries = with_opt(entries, "priority"@, opt_view(*priority));
            Ok(
                tool_view(
                    "photis_create_task"@,
                    entries,
                    "Create task: "@ + title@,
                    PermissionLevel::SystemWrite,
                    "Creates a new task in Photis Nadi via MCP bridge"@,
                ),
            )
        },
        Intent::TaskUpdate { task_id, status, .. } => {
            let entries = with_str(no_entries(), "task_id"@, task_id@);
            let entries = with_opt(entries, "status"@, opt_view(*status));
            Ok(
                tool_view(
                    "photis_update_task"@,
                    entries,
                    "Update task "@ + task_id@,
                    PermissionLevel::SystemWrite,
                    "Updates a task in Photis Nadi via MCP bridge"@,
                ),
            )
        },
        Intent::RitualCheck { date, .. } => {
            let entries = with_opt(no_entries(), "date"@, opt_view(*date));
            Ok(
                tool_view(
                    "photis_get_rituals"@,
                    entries,
                    "Check daily rituals"@,
                    PermissionLevel::Safe,
                    "Retrieves ritual/habit status from Photis Nadi via MCP bridge"@,
                ),
            )
        },
        Intent::ProductivityStats { period, .. } => {
            let entries = with_opt(no_entries(), "period"@, opt_view(*period));
            Ok(
                tool_view(
                    "photis_analytics"@,
                    entries,
                    "Productivity analytics"@ + wrap(opt_view(*period), " for "@, ""@),
                    PermissionLevel::Safe,
                    "Retrieves productivity analytics from Photis Nadi via MCP bridge"@,
                ),
            )
        },
        Intent::PhotoisBoards { action, name, .. } => {
            let entries = with_str(no_entries(), "action"@, action@);
            let entries = with_opt(entries, "name"@, opt_view(*name));
            Ok(
                tool_view(
                    "photis_boards"@,
                    entries,
                    "Photis boards: "@ + action@ + wrap(opt_view(*name), " '"@, "'"@),
                    if action@ == "list"@ || action@ == "info"@ { PermissionLevel::Safe } else { PermissionLevel::SystemWrite },
                    "Manages boards via Photis Nadi"@,
                ),
            )
        },
        Intent::PhotoisNotes { action, content, .. } => {
            let entries = with_str(no_entries(), "action"@, action@);
            let entries = with_opt(entries, "content"@, opt_view(*content));
            Ok(
                tool_view(
                    "photis_notes"@,
                    entries,
                    "Photis notes: "@ + action@ + wrap(opt_view(*content), " '"@, "'"@),
                    if action@ == "list"@ || action@ == "get"@ || action@ == "search"@ { PermissionLevel::Safe } else { PermissionLevel::SystemWrite },
                    "Manages notes via Photis Nadi"@,
                ),
            )
        },
        _ => Err(Failure::NotForThisTranslator { family: "photis"@ }),
    }
}

/// Translates a Photis Nadi request into a Photis Nadi tool call.
pub fn translate_photis(intent: &Intent) -> (r: Result<Translation, TranslateError>)
    requires
        is_photis_intent(intent),
    ensures
        outcome(r) == translate_photis_spec(intent),
{
    match intent {
        Intent::TaskList { status, .. } => {
            let mut a = json_object_new();
            insert_opt(&mut a, "status", status);
            let mut d = owned("List tasks");
            d.append(wrap_text(status, " with status ", "").as_str());
            let e = owned("Lists tasks from Photis Nadi via MCP bridge");
            Ok(mcp_call("photis_list_tasks", a, d, PermissionLevel::Safe, e))
        },
        Intent::TaskCreate { title, priority, .. } => {
            let mut a = json_object_new();
            insert_str(&mut a, "title", title.as_str());
            insert_opt(&mut a, "priority", priority);
            let mut d = owned("Create task: ");
            d.append(title.as_str());
            let e = owned("Creates a new task in Photis Nadi via MCP bridge");
            Ok(mcp_call("photis_create_task", a, d, PermissionLevel::SystemWrite, e))
        },
        Intent::TaskUpdate { task_id, status, .. } => {
            let mut a = json_object_new();
            insert_str(&mut a, "task_id", task_id.as_str());
            insert_opt(&mut a, "status", status);
            let mut d = owned("Update task ");
            d.append(task_id.as_str());
            let e = owned("Updates a task in Photis Nadi via MCP bridge");
            Ok(mcp_call("photis_update_task", a, d, PermissionLevel::SystemWrite, e))
        },
        Intent::RitualCheck { date, .. } => {
            let mut a = json_object_new();
            insert_opt(&mut a, "date", date);
            let d = owned("Check daily rituals");
            let e = owned("Retrieves ritual/habit status from Photis Nadi via MCP bridge");
            Ok(mcp_call("photis_get_rituals", a, d, PermissionLevel::Safe, e))
        },
        Intent::ProductivityStats { period, .. } => {
            let mut a = json_object_new();
            insert_opt(&mut a, "period", period);
            let mut d = owned("Productivity analytics");
            d.append(wrap_text(period, " for ", "").as_str());
            let e = owned("Retrieves productivity analytics from Photis Nadi via MCP bridge");
            Ok(mcp_call("photis_analytics", a, d, PermissionLevel::Safe, e))
        },
        Intent::PhotoisBoards { action, name, .. } => {
            let mut a = json_object_new();
            insert_str(&mut a, "action", action.as_str());
            insert_opt(&mut a, "name", name);
            let mut d = owned("Photis boards: ");
            d.append(action.as_str());
            d.append(wrap_text(name, " '", "'").as_str());
            let e = owned("Manages boards via Photis Nadi");
            Ok(mcp_call("photis_boards", a, d, if str_eq(action.as_str(), "list") || str_eq(action.as_str(), "info") { PermissionLevel::Safe } else { PermissionLevel::SystemWrite }, e))
        },
        Intent::PhotoisNotes { action, content, .. } => {
            let mut a = json_object_new();
            insert_str(&mut a, "action", action.as_str());
            insert_opt(&mut a, "content", content);
            let mut d = owned("Photis notes: ");
            d.append(action.as_str());
            d.append(wrap_text(content, " '", "'").as_str());
            let e = owned("Manages notes via Photis Nadi");
            Ok(mcp_call("photis_notes", a, d, if str_eq(action.as_str(), "list") || str_eq(action.as_str(), "get") || str_eq(action.as_str(), "search") { PermissionLevel::Safe } else { PermissionLevel::SystemWrite }, e))
        },
        _ => Err(TranslateError::NotForThisTranslator { family: owned("photis") }),
    }
}

/// A Photis Nadi request is answered by a tool call alone: the translation runs no shell
/// command and passes no argument to one.
pub proof fn law_photis_calls_a_tool(intent: &Intent)
    requires
        is_photis_intent(intent),
    ensures
        translate_photis_spec(intent) matches Ok(t) && t.command.len() == 0 && t.args.len() == 0
            && t.mcp is Some,
{
}

/// What a Photis Nadi tool call carries: each request calls its own tool, with every field
/// of the request under its key (an absent optional field under none), at the
/// privilege its action needs.
pub proof fn law_photis_arguments_carry_the_request(intent: &Intent)
    ensures
        intent matches Intent::TaskList { status, .. } ==> (translate_photis_spec(intent) matches Ok(t)
            && t.mcp matches Some(c)
            && c.tool_name == "photis_list_tasks"@
            && t.permission == PermissionLevel::Safe
            && (match opt_view(*status) { Some(x) => c.arguments.contains_key("status"@) && c.arguments["status"@] == JsonScalar::Str(x), None => !c.arguments.contains_key("status"@) })),
        intent matches Intent::TaskCreate { title, priority, .. } ==> (translate_photis_spec(intent) matches Ok(t)
            && t.mcp matches Some(c)
            && c.tool_name == "photis_create_task"@
            && t.permission == PermissionLevel::SystemWrite
            && c.arguments.contains_key("title"@) && c.arguments["title"@] == JsonScalar::Str(title@)
            && (match opt_view(*priority) { Some(x) => c.arguments.contains_key("priority"@) && c.arguments["priority"@] == JsonScalar::Str(x), None => !c.arguments.contains_key("priority"@) })),
        intent matches Intent::TaskUpdate { task_id, status, .. } ==> (translate_photis_spec(intent) matches Ok(t)
            && t.mcp matches Some(c)
            && c.tool_name == "photis_update_task"@
            && t.permission == PermissionLevel::SystemWrite
            && c.arguments.contains_key("task_id"@) && c.arguments["task_id"@] == JsonScalar::Str(task_id@)
            && (match opt_view(*status) { Some(x) => c.arguments.contains_key("status"@) && c.arguments["status"@] == JsonScalar::Str(x), None => !c.arguments.contains_key("status"@) })),
        intent matches Intent::RitualCheck { date, .. } ==> (translate_photis_spec(intent) matches Ok(t)
            && t.mcp matches Some(c)
            && c.tool_name == "photis_get_rituals"@
            && t.permission == PermissionLevel::Safe
            && (match opt_view(*date) { Some(x) => c.arguments.contains_key("date"@) && c.arguments["date"@] == JsonScalar::Str(x), None => !c.arguments.contains_key("date"@) })),
        intent matches Intent::ProductivityStats { period, .. } ==> (translate_photis_spec(intent) matches Ok(t)
            && t.mcp matches Some(c)
            && c.tool_name == "photis_analytics"@
            && t.permission == PermissionLevel::Safe
            && (match opt_view(*period) { Some(x) => c.arguments.contains_key("period"@) && c.arguments["period"@] == JsonScalar::Str(x), None => !c.arguments.contains_key("period"@) })),
        intent matches Intent::PhotoisBoards { action, name, .. } ==> (translate_photis_spec(intent) matches Ok(t)
            && t.mcp matches Some(c)
            && c.tool_name == "photis_boards"@
            && (if action@ == "list"@ || action@ == "info"@ { t.permission == PermissionLevel::Safe } else { t.permission == PermissionLevel::SystemWrite })
            && c.arguments.contains_key("action"@) && c.arguments["action"@] == JsonScalar::Str(action@)
            && (match opt_view(*name) { Some(x) => c.arguments.contains_key("name"@) && c.arguments["name"@] == JsonScalar::Str(x), None => !c.arguments.contains_key("name"@) })),
        intent matches Intent::PhotoisNotes { action, content, .. } ==> (translate_photis_spec(intent) matches Ok(t)
            && t.mcp matches Some(c)
            && c.tool_name == "photis_notes"@
            && (if action@ == "list"@ || action@ == "get"@ || action@ == "search"@ { t.permission == PermissionLevel::Safe } else { t.permission == PermissionLevel::SystemWrite })
            && c.arguments.contains_key("action"@) && c.arguments["action"@] == JsonScalar::Str(action@)
            && (match opt_view(*content) { Some(x) => c.arguments.contains_key("content"@) && c.arguments["content"@] == JsonScalar::Str(x), None => !c.arguments.contains_key("content"@) })),
{
    reveal_strlit("action");
    reveal_strlit("content");
    reveal_strlit("date");
    reveal_strlit("name");
    reveal_strlit("period");
    reveal_strlit("priority");
    reveal_strlit("status");
    reveal_strlit("task_id");
    reveal_strlit("title");
    assert("action"@.len() != "content"@.len());
    assert("action"@.len() != "name"@.len());
    assert("priority"@.len() != "title"@.len());
    assert("status"@.len() != "task_id"@.len());
}

} // verus!
