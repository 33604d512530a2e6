//! The Rasa image editor, over the MCP bridge.
use vstd::prelude::*;

use crate::intent::{outcome, tool_view, Failure, Intent, TranslateError, Translation, TranslationView};
use crate::json::{json_object_insert, json_object_new, no_entries, JsonArg, JsonScalar};
use crate::mcp::{insert_opt, insert_str, mcp_call, with_opt, with_str, wrap, wrap_text};
use crate::security::PermissionLevel;
use crate::text::{opt_view, or_else, or_text, owned, str_eq};

verus! {

/// The requests that `translate_rasa` handles.
pub open spec fn is_rasa_intent(intent: &Intent) -> bool {
    ||| intent is RasaCanvas
    ||| intent is RasaLayers
    ||| intent is RasaTools
    ||| intent is RasaAi
    ||| intent is RasaExport
    ||| intent is RasaBatch
    ||| intent is RasaTemplates
    ||| intent is RasaAdjustments
}

/// The tool call that `translate_rasa` gives for each request it handles.
pub open spec fn translate_rasa_spec(intent: &Intent) -> Result<TranslationView, Failure> {
    match intent {
        Intent::RasaCanvas { action, name, .. } => {
            let entries = with_str(no_entries(), "action"@, action@);
            let entries = with_opt(entries, "name"@, opt_view(*name));
            Ok(
                tool_view(
                    "rasa_canvas"@,
                    entries,
                    "Rasa canvas: "@ + action@ + wrap(opt_view(*name), " '"@, "'"@),
                    if action@ == "info"@ || action@ == "list"@ { PermissionLevel::Safe } else { PermissionLevel::SystemWrite },
                    (if action@ == "create"@ { "Creates"@ } else if action@ == "open"@ { "Opens"@ } else if action@ == "save"@ { "Saves"@ } else if action@ == "close"@ { "Closes"@ } else { "Queries"@ }) + " a Rasa image canvas via MCP bridge"@,
                ),
            )
        },
        Intent::RasaLayers { action, name, kind, .. } => {
            let entries = with_str(no_entries(), "action"@, action@);
            let entries = with_opt(entries, "name"@, opt_view(*name));
            let entries = with_opt(entries, "kind"@, opt_view(*kind));
            Ok(
                tool_view(
                    "rasa_layers"@,
                    entries,
                    "Rasa layers: "@ + action@ + wrap(opt_view(*name), " '"@, "'"@),
                    if action@ == "list"@ { PermissionLevel::Safe } else { PermissionLevel::SystemWrite },
                    (if action@ == "add"@ { "Adds"@ } else if action@ == "remove"@ { "Removes"@ } else if action@ == "reorder"@ { "Reorders"@ } else if action@ == "merge"@ { "Merges"@ } else if action@ == "list"@ { "Lists"@ } else { "Manages"@ }) + " layers in Rasa via MCP bridge"@,
                ),
            )
        },
        Intent::RasaTools { action, params, .. } => {
            let entries = with_str(no_entries(), "action"@, action@);
            let entries = with_opt(entries, "params"@, opt_view(*params));
            Ok(
                tool_view(
                    "rasa_tools"@,
                    entries,
                    "Rasa tools: "@ + action@ + wrap(opt_view(*params), " ("@, ")"@),
                    PermissionLevel::SystemWrite,
                    "Applies "@ + action@ + " tool in Rasa via MCP bridge"@,
                ),
            )
        },
        Intent::RasaAi { action, prompt, .. } => {
            let entries = with_str(no_entries(), "action"@, action@);
            let entries = with_opt(entries, "prompt"@, opt_view(*prompt));
            Ok(
                tool_view(
                    "rasa_ai"@,
                    entries,
                    "Rasa AI: "@ + action@ + wrap(opt_view(*prompt), " '"@, "'"@),
                    PermissionLevel::SystemWrite,
                    "Runs AI "@ + action@ + " on Rasa image via MCP bridge"@,
                ),
            )
        },
        Intent::RasaExport { path, format, .. } => {
            let entries = with_opt(no_entries(), "path"@, opt_view(*path));
            let entries = with_opt(entries, "format"@, opt_view(*format));
            Ok(
                tool_view(
                    "rasa_export"@,
                    entries,
                    "Rasa export"@ + wrap(opt_view(*format), " as "@, ""@),
                    PermissionLevel::SystemWrite,
                    "Exports Rasa image via MCP bridge"@,
                ),
            )
        },
        Intent::RasaBatch { action, path, .. } => {
            let entries = with_str(no_entries(), "action"@, action@);
            let entries = with_opt(entries, "path"@, opt_view(*path));
            Ok(
                tool_view(
                    "rasa_batch"@,
                    entries,
                    "Rasa batch: "@ + action@ + wrap(opt_view(*path), " '"@, "'"@),
                    if action@ == "list"@ { PermissionLevel::Safe } else { PermissionLevel::SystemWrite },
                    "Batch image operations via Rasa"@,
                ),
            )
        },
        Intent::RasaTemplates { action, name, .. } => {
            let entries = with_str(no_entries(), "action"@, action@);
            let entries = with_opt(entries, "name"@, opt_view(*name));
            Ok(
                tool_view(
                    "rasa_templates"@,
                    entries,
                    "Rasa templates: "@ + action@ + wrap(opt_view(*name), " '"@, "'"@),
                    if action@ == "list"@ || action@ == "info"@ { PermissionLevel::Safe } else { PermissionLevel::SystemWrite },
                    "Manages design templates via Rasa"@,
                ),
            )
        },
        Intent::RasaAdjustments { action, adjustment_type, .. } => {
            let entries = with_str(no_entries(), "action"@, action@);
            let entries = with_opt(entries, "type"@, opt_view(*adjustment_type));
            Ok(
                tool_view(
                    "rasa_adjustments"@,
                    entries,
                    "Rasa adjustment: "@ + action@ + wrap(opt_view(*adjustment_type), " ("@, ")"@),
                    if action@ == "list"@ { PermissionLevel::Safe } else { PermissionLevel::SystemWrite },
                    "Manages non-destructive adjustment layers via Rasa"@,
                ),
            )
        },
        _ => Err(Failure::NotForThisTranslator { family: "rasa"@ }),
    }
}

/// Translates a Rasa request into a Rasa tool call.
pub fn translate_rasa(intent: &Intent) -> (r: Result<Translation, TranslateError>)
    requires
        is_rasa_intent(intent),
    ensures
        outcome(r) == translate_rasa_spec(intent),
{
    match intent {
        Intent::RasaCanvas { action, name, .. } => {
            let mut a = json_object_new();
            insert_str(&mut a, "action", action.as_str());
            insert_opt(&mut a, "name", name);
            let mut d = owned("Rasa canvas: ");
            d.append(action.as_str());
            d.append(wrap_text(name, " '", "'").as_str());
            let mut e = owned(if str_eq(action.as_str(), "create") { "Creates" } else if str_eq(action.as_str(), "open") { "Opens" } else if str_eq(action.as_str(), "save") { "Saves" } else if str_eq(action.as_str(), "close") { "Closes" } else { "Queries" });
            e.append(" a Rasa image canvas via MCP bridge");
            Ok(mcp_call("rasa_canvas", a, d, if str_eq(action.as_str(), "info") || str_eq(action.as_str(), "list") { PermissionLevel::Safe } else { PermissionLevel::SystemWrite }, e))
        },
        Intent::RasaLayers { action, name, kind, .. } => {
            let mut a = json_object_new();
            insert_str(&mut a, "action", action.as_str());
            insert_opt(&mut a, "name", name);
            insert_opt(&mut a, "kind", kind);
            let mut d = owned("Rasa layers: ");
            d.append(action.as_str());
            d.append(wrap_text(name, " '", "'").as_str());
            let mut e = owned(if str_eq(action.as_str(), "add") { "Adds" } else if str_eq(action.as_str(), "remove") { "Removes" } else if str_eq(action.as_str(), "reorder") { "Reorders" } else if str_eq(action.as_str(), "merge") { "Merges" } else if str_eq(action.as_str(), "list") { "Lists" } else { "Manages" });
            e.append(" layers in Rasa via MCP bridge");
            Ok(mcp_call("rasa_layers", a, d, if str_eq(action.as_str(), "list") { PermissionLevel::Safe } else { PermissionLevel::SystemWrite }, e))
        },
        Intent::RasaTools { action, params, .. } => {
            let mut a = json_object_new();
            insert_str(&mut a, "action", action.as_str());
            insert_opt(&mut a, "params", params);
            let mut d = owned("Rasa tools: ");
            d.append(action.as_str());
            d.append(wrap_text(params, " (", ")").as_str());
            let mut e = owned("Applies ");
            e.append(action.as_str());
            e.append(" tool in Rasa via MCP bridge");
            Ok(mcp_call("rasa_tools", a, d, PermissionLevel::SystemWrite, e))
        },
        Intent::RasaAi { action, prompt, .. } => {
            let mut a = json_object_new();
            insert_str(&mut a, "action", action.as_str());
            insert_opt(&mut a, "prompt", prompt);
            let mut d = owned("Rasa AI: ");
            d.append(action.as_str());
            d.append(wrap_text(prompt, " '", "'").as_str());
            let mut e = owned("Runs AI ");
            e.append(action.as_str());
            e.append(" on Rasa image via MCP bridge");
            Ok(mcp_call("rasa_ai", a, d, PermissionLevel::SystemWrite, e))
        },
        Intent::RasaExport { path, format, .. } => {
            let mut a = json_object_new();
            insert_opt(&mut a, "path", path);
            insert_opt(&mut a, "format", format);
            let mut d = owned("Rasa export");
            d.append(wrap_text(format, " as ", "").as_str());
            let e = owned("Exports Rasa image via MCP bridge");
            Ok(mcp_call("rasa_export", a, d, PermissionLevel::SystemWrite, e))
        },
        Intent::RasaBatch { action, path, .. } => {
            let mut a = json_object_new();
            insert_str(&mut a, "action", action.as_str());
            insert_opt(&mut a, "path", path);
            let mut d = owned("Rasa batch: ");
            d.append(action.as_str());
            d.append(wrap_text(path, " '", "'").as_str());
            let e = owned("Batch image operations via Rasa");
            Ok(mcp_call("rasa_batch", a, d, if str_eq(action.as_str(), "list") { PermissionLevel::Safe } else { PermissionLevel::SystemWrite }, e))
        },
        Intent::RasaTemplates { action, name, .. } => {
            let mut a = json_object_new();
            insert_str(&mut a, "action", action.as_str());
            insert_opt(&mut a, "name", name);
            let mut d = owned("Rasa templates: ");
            d.append(action.as_str());
            d.append(wrap_text(name, " '", "'").as_str());
            let e = owned("Manages design templates via Rasa");
            Ok(mcp_call("rasa_templates", a, d, if str_eq(action.as_str(), "list") || str_eq(action.as_str(), "info") { PermissionLevel::Safe } else { PermissionLevel::SystemWrite }, e))
        },
        Intent::RasaAdjustments { action, adjustment_type, .. } => {
            let mut a = json_object_new();
            insert_str(&mut a, "action", action.as_str());
            insert_opt(&mut a, "type", adjustment_type);
            let mut d = owned("Rasa adjustment: ");
            d.append(action.as_str());
            d.append(wrap_text(adjustment_type, " (", ")").as_str());
            let e = owned("Manages non-destructive adjustment layers via Rasa");
            Ok(mcp_call("rasa_adjustments", a, d, if str_eq(action.as_str(), "list") { PermissionLevel::Safe } else { PermissionLevel::SystemWrite }, e))
        },
        _ => Err(TranslateError::NotForThisTranslator { family: owned("rasa") }),
    }
}

/// A Rasa request is answered by a tool call alone: the translation runs no shell
/// command and passes no argument to one.
pub proof fn law_rasa_calls_a_tool(intent: &Intent)
    requires
        is_rasa_intent(intent),
    ensures
        translate_rasa_spec(intent) matches Ok(t) && t.command.len() == 0 && t.args.len() == 0
            && t.mcp is Some,
{
}

/// What a Rasa tool call carries: each request calls its own tool, with every field
/// of the request under its key (an absent optional field under none), at the
/// privilege its action needs.
pub proof fn law_rasa_arguments_carry_the_request(intent: &Intent)
    ensures
        intent matches Intent::RasaCanvas { action, name, .. } ==> (translate_rasa_spec(intent) matches Ok(t)
            && t.mcp matches Some(c)
            && c.tool_name == "rasa_canvas"@
            && (if action@ == "info"@ || action@ == "list"@ { t.permission == PermissionLevel::Safe } else { t.permission == PermissionLevel::SystemWrite })
            && c.arguments.contains_key("action"@) && c.arguments["action"@] == JsonScalar::Str(action@)
            && (match opt_view(*name) { Some(x) => c.arguments.contains_key("name"@) && c.arguments["name"@] == JsonScalar::Str(x), None => !c.arguments.contains_key("name"@) })),
        intent matches Intent::RasaLayers { action, name, kind, .. } ==> (translate_rasa_spec(intent) matches Ok(t)
            && t.mcp matches Some(c)
            && c.tool_name == "rasa_layers"@
            && (if action@ == "list"@ { t.permission == PermissionLevel::Safe } else { t.permission == PermissionLevel::SystemWrite })
            && c.arguments.contains_key("action"@) && c.arguments["action"@] == JsonScalar::Str(action@)
            && (match opt_view(*name) { Some(x) => c.arguments.contains_key("name"@) && c.arguments["name"@] == JsonScalar::Str(x), None => !c.arguments.contains_key("name"@) })
            && (match opt_view(*kind) { Some(x) => c.arguments.contains_key("kind"@) && c.arguments["kind"@] == JsonScalar::Str(x), None => !c.arguments.contains_key("kind"@) })),
        intent matches Intent::RasaTools { action, params, .. } ==> (translate_rasa_spec(intent) matches Ok(t)
            && t.mcp matches Some(c)
            && c.tool_name == "rasa_tools"@
            && t.permission == PermissionLevel::SystemWrite
            && c.arguments.contains_key("action"@) && c.arguments["action"@] == JsonScalar::Str(action@)
            && (match opt_view(*params) { Some(x) => c.arguments.contains_key("params"@) && c.arguments["params"@] == JsonScalar::Str(x), None => !c.arguments.contains_key("params"@) })),
        intent matches Intent::RasaAi { action, prompt, .. } ==> (translate_rasa_spec(intent) matches Ok(t)
            && t.mcp matches Some(c)
            && c.tool_name == "rasa_ai"@
            && t.permission == PermissionLevel::SystemWrite
            && c.arguments.contains_key("action"@) && c.arguments["action"@] == JsonScalar::Str(action@)
            && (match opt_view(*prompt) { Some(x) => c.arguments.contains_key("prompt"@) && c.arguments["prompt"@] == JsonScalar::Str(x), None => !c.arguments.contains_key("prompt"@) })),
        intent matches Intent::RasaExport { path, format, .. } ==> (translate_rasa_spec(intent) matches Ok(t)
            && t.mcp matches Some(c)
            && c.tool_name == "rasa_export"@
            && t.permission == PermissionLevel::SystemWrite
            && (match opt_view(*path) { Some(x) => c.arguments.contains_key("path"@) && c.arguments["path"@] == JsonScalar::Str(x), None => !c.arguments.contains_key("path"@) })
            && (match opt_view(*format) { Some(x) => c.arguments.contains_key("format"@) && c.arguments["format"@] == JsonScalar::Str(x), None => !c.arguments.contains_key("format"@) })),
        intent matches Intent::RasaBatch { action, path, .. } ==> (translate_rasa_spec(intent) matches Ok(t)
            && t.mcp matches Some(c)
            && c.tool_name == "rasa_batch"@
            && (if action@ == "list"@ { t.permission == PermissionLevel::Safe } else { t.permission == PermissionLevel::SystemWrite })
            && c.arguments.contains_key("action"@) && c.arguments["action"@] == JsonScalar::Str(action@)
            && (match opt_view(*path) { Some(x) => c.arguments.contains_key("path"@) && c.arguments["path"@] == JsonScalar::Str(x), None => !c.arguments.contains_key("path"@) })),
        intent matches Intent::RasaTemplates { action, name, .. } ==> (translate_rasa_spec(intent) matches Ok(t)
            && t.mcp matches Some(c)
            && c.tool_name == "rasa_templates"@
            && (if action@ == "list"@ || action@ == "info"@ { t.permission == PermissionLevel::Safe } else { t.permission == PermissionLevel::SystemWrite })
            && c.arguments.contains_key("action"@) && c.arguments["action"@] == JsonScalar::Str(action@)
            && (match opt_view(*name) { Some(x) => c.arguments.contains_key("name"@) && c.arguments["name"@] == JsonScalar::Str(x), None => !c.arguments.contains_key("name"@) })),
        intent matches Intent::RasaAdjustments { action, adjustment_type, .. } ==> (translate_rasa_spec(intent) matches Ok(t)
            && t.mcp matches Some(c)
            && c.tool_name == "rasa_adjustments"@
            && (if action@ == "list"@ { t.permission == PermissionLevel::Safe } else { t.permission == PermissionLevel::SystemWrite })
            && c.arguments.contains_key("action"@) && c.arguments["action"@] == JsonScalar::Str(action@)
            && (match opt_view(*adjustment_type) { Some(x) => c.arguments.contains_key("type"@) && c.arguments["type"@] == JsonScalar::Str(x), None => !c.arguments.contains_key("type"@) })),
{
    reveal_strlit("action");
    reveal_strlit("format");
    reveal_strlit("kind");
    reveal_strlit("name");
    reveal_strlit("params");
    reveal_strlit("path");
    reveal_strlit("prompt");
    reveal_strlit("type");
    assert("action"@.len() != "kind"@.len());
    assert("action"@.len() != "name"@.len());
    assert("action"@[0] != "params"@[0]);
    assert("action"@.len() != "path"@.len());
    assert("action"@[0] != "prompt"@[0]);
    assert("action"@.len() != "type"@.len());
    assert("format"@.len() != "path"@.len());
    assert("kind"@[0] != "name"@[0]);
}

} // verus!
