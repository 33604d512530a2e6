//! The Mneme knowledge base, over the MCP bridge.
use vstd::prelude::*;

use crate::intent::{outcome, tool_view, Failure, Intent, TranslateError, Translation, TranslationView};
use crate::json::{json_object_insert, json_object_new, no_entries, JsonArg, JsonScalar};
use crate::mcp::{insert_opt, insert_str, mcp_call, with_opt, with_str, wrap, wrap_text};
use crate::security::PermissionLevel;
use crate::text::{opt_view, or_else, or_text, owned, str_eq};

verus! {

/// The requests that `translate_mneme` handles.
pub open spec fn is_mneme_intent(intent: &Intent) -> bool {
    ||| intent is MnemeNotebook
    ||| intent is MnemeNotes
    ||| intent is MnemeSearch
    ||| intent is MnemeAi
    ||| intent is MnemeGraph
    ||| intent is MnemeImport
    ||| intent is MnemeTags
}

/// The tool call that `translate_mneme` gives for each request it handles.
pub open spec fn translate_mneme_spec(intent: &Intent) -> Result<TranslationView, Failure> {
    match intent {
        Intent::MnemeNotebook { action, name, .. } => {
            let entries = with_str(no_entries(), "action"@, action@);
            let entries = with_opt(entries, "name"@, opt_view(*name));
            Ok(
                tool_view(
                    "mneme_notebook"@,
                    entries,
                    "Mneme notebook: "@ + action@ + wrap(opt_view(*name), " '"@, "'"@),
                    if action@ == "list"@ || action@ == "info"@ { PermissionLevel::Safe } else { PermissionLevel::SystemWrite },
                    (if action@ == "create"@ { "Creates"@ } else if action@ == "open"@ { "Opens"@ } else if action@ == "delete"@ { "Deletes"@ } else if action@ == "list"@ { "Lists"@ } else { "Queries"@ }) + " Mneme notebooks via MCP bridge"@,
                ),
            )
        },
        Intent::MnemeNotes { action, title, notebook_id, .. } => {
            let entries = with_str(no_entries(), "action"@, action@);
            let entries = with_opt(entries, "title"@, opt_view(*title));
            let entries = with_opt(entries, "notebook_id"@, opt_view(*notebook_id));
            Ok(
                tool_view(
                    "mneme_notes"@,
                    entries,
                    "Mneme notes: "@ + action@ + wrap(opt_view(*title), " '"@, "'"@),
                    if action@ == "list"@ || action@ == "get"@ { PermissionLevel::Safe } else { PermissionLevel::SystemWrite },
                    (if action@ == "create"@ { "Creates"@ } else if action@ == "edit"@ { "Edits"@ } else if action@ == "delete"@ { "Deletes"@ } else if action@ == "list"@ { "Lists"@ } else { "Manages"@ }) + " notes in Mneme via MCP bridge"@,
                ),
            )
        },
        Intent::MnemeSearch { query, mode, .. } => {
            let entries = with_str(no_entries(), "query"@, query@);
            let entries = with_opt(entries, "mode"@, opt_view(*mode));
            Ok(
                tool_view(
                    "mneme_search"@,
                    entries,
                    "Mneme search: '"@ + query@ + "'"@ + wrap(opt_view(*mode), " ("@, ")"@),
                    PermissionLevel::Safe,
                    "Searches Mneme knowledge base via MCP bridge"@,
                ),
            )
        },
        Intent::MnemeAi { action, note_id, .. } => {
            let entries = with_str(no_entries(), "action"@, action@);
            let entries = with_opt(entries, "note_id"@, opt_view(*note_id));
            Ok(
                tool_view(
                    "mneme_ai"@,
                    entries,
                    "Mneme AI: "@ + action@ + wrap(opt_view(*note_id), " ("@, ")"@),
                    PermissionLevel::SystemWrite,
                    "Runs AI "@ + action@ + " on Mneme knowledge via MCP bridge"@,
                ),
            )
        },
        Intent::MnemeGraph { action, node_id, .. } => {
            let entries = with_str(no_entries(), "action"@, action@);
            let entries = with_opt(entries, "node_id"@, opt_view(*node_id));
            Ok(
                tool_view(
                    "mneme_graph"@,
                    entries,
                    "Mneme graph: "@ + action@ + wrap(opt_view(*node_id), " ("@, ")"@),
                    if action@ == "view"@ || action@ == "stats"@ { PermissionLevel::Safe } else { PermissionLevel::SystemWrite },
                    "Manages Mneme knowledge graph via MCP bridge"@,
                ),
            )
        },
        Intent::MnemeImport { action, path, .. } => {
            let entries = with_str(no_entries(), "action"@, action@);
            let entries = with_opt(entries, "path"@, opt_view(*path));
            Ok(
                tool_view(
                    "mneme_import"@,
                    entries,
                    "Mneme import: "@ + action@ + wrap(opt_view(*path), " '"@, "'"@),
                    if action@ == "status"@ { PermissionLevel::Safe } else { PermissionLevel::SystemWrite },
                    "Imports documents into Mneme"@,
                ),
            )
        },
        Intent::MnemeTags { action, tag, .. } => {
            let entries = with_str(no_entries(), "action"@, action@);
            let entries = with_opt(entries, "tag"@, opt_view(*tag));
            Ok(
                tool_view(
                    "mneme_tags"@,
                    entries,
                    "Mneme tags: "@ + action@ + wrap(opt_view(*tag), " '"@, "'"@),
                    if action@ == "list"@ || action@ == "search"@ { PermissionLevel::Safe } else { PermissionLevel::SystemWrite },
                    "Manages tags via Mneme"@,
                ),
            )
        },
        _ => Err(Failure::NotForThisTranslator { family: "mneme"@ }),
    }
}

/// Translates a Mneme request into a Mneme tool call.
pub fn translate_mneme(intent: &Intent) -> (r: Result<Translation, TranslateError>)
    requires
        is_mneme_intent(intent),
    ensures
        outcome(r) == translate_mneme_spec(intent),
{
    match intent {
        Intent::MnemeNotebook { action, name, .. } => {
            let mut a = json_object_new();
            insert_str(&mut a, "action", action.as_str());
            insert_opt(&mut a, "name", name);
            let mut d = owned("Mneme notebook: ");
            d.append(action.as_str());
            d.append(wrap_text(name, " '", "'").as_str());
            let mut e = owned(if str_eq(action.as_str(), "create") { "Creates" } else if str_eq(action.as_str(), "open") { "Opens" } else if str_eq(action.as_str(), "delete") { "Deletes" } else if str_eq(action.as_str(), "list") { "Lists" } else { "Queries" });
            e.append(" Mneme notebooks via MCP bridge");
            Ok(mcp_call("mneme_notebook", a, d, if str_eq(action.as_str(), "list") || str_eq(action.as_str(), "info") { PermissionLevel::Safe } else { PermissionLevel::SystemWrite }, e))
        },
        Intent::MnemeNotes { action, title, notebook_id, .. } => {
            let mut a = json_object_new();
            insert_str(&mut a, "action", action.as_str());
            insert_opt(&mut a, "title", title);
            insert_opt(&mut a, "notebook_id", notebook_id);
            let mut d = owned("Mneme notes: ");
            d.append(action.as_str());
            d.append(wrap_text(title, " '", "'").as_str());
            let mut e = owned(if str_eq(action.as_str(), "create") { "Creates" } else if str_eq(action.as_str(), "edit") { "Edits" } else if str_eq(action.as_str(), "delete") { "Deletes" } else if str_eq(action.as_str(), "list") { "Lists" } else { "Manages" });
            e.append(" notes in Mneme via MCP bridge");
            Ok(mcp_call("mneme_notes", a, d, if str_eq(action.as_str(), "list") || str_eq(action.as_str(), "get") { PermissionLevel::Safe } else { PermissionLevel::SystemWrite }, e))
        },
        Intent::MnemeSearch { query, mode, .. } => {
            let mut a = json_object_new();
            insert_str(&mut a, "query", query.as_str());
            insert_opt(&mut a, "mode", mode);
            let mut d = owned("Mneme search: '");
            d.append(query.as_str());
            d.append("'");
            d.append(wrap_text(mode, " (", ")").as_str());
            let e = owned("Searches Mneme knowledge base via MCP bridge");
            Ok(mcp_call("mneme_search", a, d, PermissionLevel::Safe, e))
        },
        Intent::MnemeAi { action, note_id, .. } => {
            let mut a = json_object_new();
            insert_str(&mut a, "action", action.as_str());
            insert_opt(&mut a, "note_id", note_id);
            let mut d = owned("Mneme AI: ");
            d.append(action.as_str());
            d.append(wrap_text(note_id, " (", ")").as_str());
            let mut e = owned("Runs AI ");
            e.append(action.as_str());
            e.append(" on Mneme knowledge via MCP bridge");
            Ok(mcp_call("mneme_ai", a, d, PermissionLevel::SystemWrite, e))
        },
        Intent::MnemeGraph { action, node_id, .. } => {
            let mut a = json_object_new();
            insert_str(&mut a, "action", action.as_str());
            insert_opt(&mut a, "node_id", node_id);
            let mut d = owned("Mneme graph: ");
            d.append(action.as_str());
            d.append(wrap_text(node_id, " (", ")").as_str());
            let e = owned("Manages Mneme knowledge graph via MCP bridge");
            Ok(mcp_call("mneme_graph", a, d, if str_eq(action.as_str(), "view") || str_eq(action.as_str(), "stats") { PermissionLevel::Safe } else { PermissionLevel::SystemWrite }, e))
        },
        Intent::MnemeImport { action, path, .. } => {
            let mut a = json_object_new();
            insert_str(&mut a, "action", action.as_str());
            insert_opt(&mut a, "path", path);
            let mut d = owned("Mneme import: ");
            d.append(action.as_str());
            d.append(wrap_text(path, " '", "'").as_str());
            let e = owned("Imports documents into Mneme");
            Ok(mcp_call("mneme_import", a, d, if str_eq(action.as_str(), "status") { PermissionLevel::Safe } else { PermissionLevel::SystemWrite }, e))
        },
        Intent::MnemeTags { action, tag, .. } => {
            let mut a = json_object_new();
            insert_str(&mut a, "action", action.as_str());
            insert_opt(&mut a, "tag", tag);
            let mut d = owned("Mneme tags: ");
            d.append(action.as_str());
            d.append(wrap_text(tag, " '", "'").as_str());
            let e = owned("Manages tags via Mneme");
            Ok(mcp_call("mneme_tags", a, d, if str_eq(action.as_str(), "list") || str_eq(action.as_str(), "search") { PermissionLevel::Safe } else { PermissionLevel::SystemWrite }, e))
        },
        _ => Err(TranslateError::NotForThisTranslator { family: owned("mneme") }),
    }
}

/// A Mneme request is answered by a tool call alone: the translation runs no shell
/// command and passes no argument to one.
pub proof fn law_mneme_calls_a_tool(intent: &Intent)
    requires
        is_mneme_intent(intent),
    ensures
        translate_mneme_spec(intent) matches Ok(t) && t.command.len() == 0 && t.args.len() == 0
            && t.mcp is Some,
{
}

/// What a Mneme tool call carries: each request calls its own tool, with every field
/// of the request under its key (an absent optional field under none), at the
/// privilege its action needs.
pub proof fn law_mneme_arguments_carry_the_request(intent: &Intent)
    ensures
        intent matches Intent::MnemeNotebook { action, name, .. } ==> (translate_mneme_spec(intent) matches Ok(t)
            && t.mcp matches Some(c)
            && c.tool_name == "mneme_notebook"@
            && (if action@ == "list"@ || action@ == "info"@ { t.permission == PermissionLevel::Safe } else { t.permission == PermissionLevel::SystemWrite })
            && c.arguments.contains_key("action"@) && c.arguments["action"@] == JsonScalar::Str(action@)
            && (match opt_view(*name) { Some(x) => c.arguments.contains_key("name"@) && c.arguments["name"@] == JsonScalar::Str(x), None => !c.arguments.contains_key("name"@) })),
        intent matches Intent::MnemeNotes { action, title, notebook_id, .. } ==> (translate_mneme_spec(intent) matches Ok(t)
            && t.mcp matches Some(c)
            && c.tool_name == "mneme_notes"@
            && (if action@ == "list"@ || action@ == "get"@ { t.permission == PermissionLevel::Safe } else { t.permission == PermissionLevel::SystemWrite })
            && c.arguments.contains_key("action"@) && c.arguments["action"@] == JsonScalar::Str(action@)
            && (match opt_view(*title) { Some(x) => c.arguments.contains_key("title"@) && c.arguments["title"@] == JsonScalar::Str(x), None => !c.arguments.contains_key("title"@) })
            && (match opt_view(*notebook_id) { Some(x) => c.arguments.contains_key("notebook_id"@) && c.arguments["notebook_id"@] == JsonScalar::Str(x), None => !c.arguments.contains_key("notebook_id"@) })),
        intent matches Intent::MnemeSearch { query, mode, .. } ==> (translate_mneme_spec(intent) matches Ok(t)
            && t.mcp matches Some(c)
            && c.tool_name == "mneme_search"@
            && t.permission == PermissionLevel::Safe
            && c.arguments.contains_key("query"@) && c.arguments["query"@] == JsonScalar::Str(query@)
            && (match opt_view(*mode) { Some(x) => c.arguments.contains_key("mode"@) && c.arguments["mode"@] == JsonScalar::Str(x), None => !c.arguments.contains_key("mode"@) })),
        intent matches Intent::MnemeAi { action, note_id, .. } ==> (translate_mneme_spec(intent) matches Ok(t)
            && t.mcp matches Some(c)
            && c.tool_name == "mneme_ai"@
            && t.permission == PermissionLevel::SystemWrite
            && c.arguments.contains_key("action"@) && c.arguments["action"@] == JsonScalar::Str(action@)
            && (match opt_view(*note_id) { Some(x) => c.arguments.contains_key("note_id"@) && c.arguments["note_id"@] == JsonScalar::Str(x), None => !c.arguments.contains_key("note_id"@) })),
        intent matches Intent::MnemeGraph { action, node_id, .. } ==> (translate_mneme_spec(intent) matches Ok(t)
            && t.mcp matches Some(c)
            && c.tool_name == "mneme_graph"@
            && (if action@ == "view"@ || action@ == "stats"@ { t.permission == PermissionLevel::Safe } else { t.permission == PermissionLevel::SystemWrite })
            && c.arguments.contains_key("action"@) && c.arguments["action"@] == JsonScalar::Str(action@)
            && (match opt_view(*node_id) { Some(x) => c.arguments.contains_key("node_id"@) && c.arguments["node_id"@] == JsonScalar::Str(x), None => !c.arguments.contains_key("node_id"@) })),
        intent matches Intent::MnemeImport { action, path, .. } ==> (translate_mneme_spec(intent) matches Ok(t)
            && t.mcp matches Some(c)
            && c.tool_name == "mneme_import"@
            && (if action@ == "status"@ { t.permission == PermissionLevel::Safe } else { t.permission == PermissionLevel::SystemWrite })
            && c.arguments.contains_key("action"@) && c.arguments["action"@] == JsonScalar::Str(action@)
            && (match opt_view(*path) { Some(x) => c.arguments.contains_key("path"@) && c.arguments["path"@] == JsonScalar::Str(x), None => !c.arguments.contains_key("path"@) })),
        intent matches Intent::MnemeTags { action, tag, .. } ==> (translate_mneme_spec(intent) matches Ok(t)
            && t.mcp matches Some(c)
            && c.tool_name == "mneme_tags"@
            && (if action@ == "list"@ || action@ == "search"@ { t.permission == PermissionLevel::Safe } else { t.permission == PermissionLevel::SystemWrite })
            && c.arguments.contains_key("action"@) && c.arguments["action"@] == JsonScalar::Str(action@)
            && (match opt_view(*tag) { Some(x) => c.arguments.contains_key("tag"@) && c.arguments["tag"@] == JsonScalar::Str(x), None => !c.arguments.contains_key("tag"@) })),
{
    reveal_strlit("action");
    reveal_strlit("mode");
    reveal_strlit("name");
    reveal_strlit("node_id");
    reveal_strlit("note_id");
    reveal_strlit("notebook_id");
    reveal_strlit("path");
    reveal_strlit("query");
    reveal_strlit("tag");
    reveal_strlit("title");
    assert("action"@.len() != "name"@.len());
    assert("action"@.len() != "node_id"@.len());
    assert("action"@.len() != "note_id"@.len());
    assert("action"@.len() != "notebook_id"@.len());
    assert("action"@.len() != "path"@.len());
    assert("action"@.len() != "tag"@.len());
    assert("action"@.len() != "title"@.len());
    assert("mode"@.len() != "query"@.len());
    assert("notebook_id"@.len() != "title"@.len());
}

} // verus!
