//! The Tazama video editor, over the MCP bridge.
use vstd::prelude::*;

use crate::intent::{outcome, tool_view, Failure, Intent, TranslateError, Translation, TranslationView};
use crate::json::{json_object_insert, json_object_new, no_entries, JsonArg, JsonScalar};
use crate::mcp::{insert_opt, insert_str, mcp_call, with_opt, with_str, wrap, wrap_text};
use crate::security::PermissionLevel;
use crate::text::{opt_view, or_else, or_text, owned, str_eq};

verus! {

/// The requests that `translate_tazama` handles.
pub open spec fn is_tazama_intent(intent: &Intent) -> bool {
    ||| intent is TazamaProject
    ||| intent is TazamaTimeline
    ||| intent is TazamaEffects
    ||| intent is TazamaAi
    ||| intent is TazamaExport
    ||| intent is TazamaMedia
    ||| intent is TazamaSubtitles
}

/// The tool call that `translate_tazama` gives for each request it handles.
pub open spec fn translate_tazama_spec(intent: &Intent) -> Result<TranslationView, Failure> {
    match intent {
        Intent::TazamaProject { action, name, .. } => {
            let entries = with_str(no_entries(), "action"@, action@);
            let entries = with_opt(entries, "name"@, opt_view(*name));
            Ok(
                tool_view(
                    "tazama_project"@,
                    entries,
                    "Tazama project: "@ + action@ + wrap(opt_view(*name), " '"@, "'"@),
                    if action@ == "info"@ || action@ == "list"@ { PermissionLevel::Safe } else { PermissionLevel::SystemWrite },
                    (if action@ == "create"@ { "Creates"@ } else if action@ == "open"@ { "Opens"@ } else if action@ == "save"@ { "Saves"@ } else if action@ == "close"@ { "Closes"@ } else { "Queries"@ }) + " a Tazama video project via MCP bridge"@,
                ),
            )
        },
        Intent::TazamaTimeline { action, clip_id, position, .. } => {
            let entries = with_str(no_entries(), "action"@, action@);
            let entries = with_opt(entries, "clip_id"@, opt_view(*clip_id));
            let entries = with_opt(entries, "position"@, opt_view(*position));
            Ok(
                tool_view(
                    "tazama_timeline"@,
                    entries,
                    "Tazama timeline: "@ + action@ + wrap(opt_view(*clip_id), " clip '"@, "'"@),
                    if action@ == "list"@ { PermissionLevel::Safe } else { PermissionLevel::SystemWrite },
                    (if action@ == "add"@ { "Adds"@ } else if action@ == "remove"@ { "Removes"@ } else if action@ == "split"@ { "Splits"@ } else if action@ == "trim"@ { "Trims"@ } else if action@ == "list"@ { "Lists"@ } else { "Manages"@ }) + " clips on Tazama timeline via MCP bridge"@,
                ),
            )
        },
        Intent::TazamaEffects { action, effect_type, clip_id, .. } => {
            let entries = with_str(no_entries(), "action"@, action@);
            let entries = with_opt(entries, "effect_type"@, opt_view(*effect_type));
            let entries = with_opt(entries, "clip_id"@, opt_view(*clip_id));
            Ok(
                tool_view(
                    "tazama_effects"@,
                    entries,
                    "Tazama effects: "@ + action@ + wrap(opt_view(*effect_type), " '"@, "'"@),
                    if action@ == "list"@ { PermissionLevel::Safe } else { PermissionLevel::SystemWrite },
                    (if action@ == "apply"@ { "Applies"@ } else if action@ == "remove"@ { "Removes"@ } else if action@ == "list"@ { "Lists"@ } else if action@ == "preview"@ { "Previews"@ } else { "Manages"@ }) + " effects in Tazama via MCP bridge"@,
                ),
            )
        },
        Intent::TazamaAi { action, options, .. } => {
            let entries = with_str(no_entries(), "action"@, action@);
            let entries = with_opt(entries, "options"@, opt_view(*options));
            Ok(
                tool_view(
                    "tazama_ai"@,
                    entries,
                    "Tazama AI: "@ + action@,
                    PermissionLevel::SystemWrite,
                    "Runs AI "@ + action@ + " on Tazama video via MCP bridge"@,
                ),
            )
        },
        Intent::TazamaExport { path, format, .. } => {
            let entries = with_opt(no_entries(), "path"@, opt_view(*path));
            let entries = with_opt(entries, "format"@, opt_view(*format));
            Ok(
                tool_view(
                    "tazama_export"@,
                    entries,
                    "Tazama export"@ + wrap(opt_view(*format), " as "@, ""@),
                    PermissionLevel::SystemWrite,
                    "Exports/renders Tazama video project via MCP bridge"@,
                ),
            )
        },
        Intent::TazamaMedia { action, path, .. } => {
            let entries = with_str(no_entries(), "action"@, action@);
            let entries = with_opt(entries, "path"@, opt_view(*path));
            Ok(
                tool_view(
                    "tazama_media"@,
                    entries,
                    "Tazama media: "@ + action@ + wrap(opt_view(*path), " '"@, "'"@),
                    if action@ == "list"@ || action@ == "info"@ { PermissionLevel::Safe } else { PermissionLevel::SystemWrite },
                    "Manages media library via Tazama"@,
                ),
            )
        },
        Intent::TazamaSubtitles { action, language, .. } => {
            let entries = with_str(no_entries(), "action"@, action@);
            let entries = with_opt(entries, "language"@, opt_view(*language));
            Ok(
                tool_view(
                    "tazama_subtitles"@,
                    entries,
                    "Tazama subtitles: "@ + action@ + wrap(opt_view(*language), " ("@, ")"@),
                    if action@ == "list"@ { PermissionLevel::Safe } else { PermissionLevel::SystemWrite },
                    "Manages subtitles via Tazama"@,
                ),
            )
        },
        _ => Err(Failure::NotForThisTranslator { family: "tazama"@ }),
    }
}

/// Translates a Tazama request into a Tazama tool call.
pub fn translate_tazama(intent: &Intent) -> (r: Result<Translation, TranslateError>)
    requires
        is_tazama_intent(intent),
    ensures
        outcome(r) == translate_tazama_spec(intent),
{
    match intent {
        Intent::TazamaProject { action, name, .. } => {
            let mut a = json_object_new();
            insert_str(&mut a, "action", action.as_str());
            insert_opt(&mut a, "name", name);
            let mut d = owned("Tazama project: ");
            d.append(action.as_str());
            d.append(wrap_text(name, " '", "'").as_str());
            let mut e = owned(if str_eq(action.as_str(), "create") { "Creates" } else if str_eq(action.as_str(), "open") { "Opens" } else if str_eq(action.as_str(), "save") { "Saves" } else if str_eq(action.as_str(), "close") { "Closes" } else { "Queries" });
            e.append(" a Tazama video project via MCP bridge");
            Ok(mcp_call("tazama_project", a, d, if str_eq(action.as_str(), "info") || str_eq(action.as_str(), "list") { PermissionLevel::Safe } else { PermissionLevel::SystemWrite }, e))
        },
        Intent::TazamaTimeline { action, clip_id, position, .. } => {
            let mut a = json_object_new();
            insert_str(&mut a, "action", action.as_str());
            insert_opt(&mut a, "clip_id", clip_id);
            insert_opt(&mut a, "position", position);
            let mut d = owned("Tazama timeline: ");
            d.append(action.as_str());
            d.append(wrap_text(clip_id, " clip '", "'").as_str());
            let mut e = owned(if str_eq(action.as_str(), "add") { "Adds" } else if str_eq(action.as_str(), "remove") { "Removes" } else if str_eq(action.as_str(), "split") { "Splits" } else if str_eq(action.as_str(), "trim") { "Trims" } else if str_eq(action.as_str(), "list") { "Lists" } else { "Manages" });
            e.append(" clips on Tazama timeline via MCP bridge");
            Ok(mcp_call("tazama_timeline", a, d, if str_eq(action.as_str(), "list") { PermissionLevel::Safe } else { PermissionLevel::SystemWrite }, e))
        },
        Intent::TazamaEffects { action, effect_type, clip_id, .. } => {
            let mut a = json_object_new();
            insert_str(&mut a, "action", action.as_str());
            insert_opt(&mut a, "effect_type", effect_type);
            insert_opt(&mut a, "clip_id", clip_id);
            let mut d = owned("Tazama effects: ");
            d.append(action.as_str());
            d.append(wrap_text(effect_type, " '", "'").as_str());
            let mut e = owned(if str_eq(action.as_str(), "apply") { "Applies" } else if str_eq(action.as_str(), "remove") { "Removes" } else if str_eq(action.as_str(), "list") { "Lists" } else if str_eq(action.as_str(), "preview") { "Previews" } else { "Manages" });
            e.append(" effects in Tazama via MCP bridge");
            Ok(mcp_call("tazama_effects", a, d, if str_eq(action.as_str(), "list") { PermissionLevel::Safe } else { PermissionLevel::SystemWrite }, e))
        },
        Intent::TazamaAi { action, options, .. } => {
            let mut a = json_object_new();
            insert_str(&mut a, "action", action.as_str());
            insert_opt(&mut a, "options", options);
            let mut d = owned("Tazama AI: ");
            d.append(action.as_str());
            let mut e = owned("Runs AI ");
            e.append(action.as_str());
            e.append(" on Tazama video via MCP bridge");
            Ok(mcp_call("tazama_ai", a, d, PermissionLevel::SystemWrite, e))
        },
        Intent::TazamaExport { path, format, .. } => {
            let mut a = json_object_new();
            insert_opt(&mut a, "path", path);
            insert_opt(&mut a, "format", format);
            let mut d = owned("Tazama export");
            d.append(wrap_text(format, " as ", "").as_str());
            let e = owned("Exports/renders Tazama video project via MCP bridge");
            Ok(mcp_call("tazama_export", a, d, PermissionLevel::SystemWrite, e))
        },
        Intent::TazamaMedia { action, path, .. } => {
            let mut a = json_object_new();
            insert_str(&mut a, "action", action.as_str());
            insert_opt(&mut a, "path", path);
            let mut d = owned("Tazama media: ");
            d.append(action.as_str());
            d.append(wrap_text(path, " '", "'").as_str());
            let e = owned("Manages media library via Tazama");
            Ok(mcp_call("tazama_media", a, d, if str_eq(action.as_str(), "list") || str_eq(action.as_str(), "info") { PermissionLevel::Safe } else { PermissionLevel::SystemWrite }, e))
        },
        Intent::TazamaSubtitles { action, language, .. } => {
            let mut a = json_object_new();
            insert_str(&mut a, "action", action.as_str());
            insert_opt(&mut a, "language", language);
            let mut d = owned("Tazama subtitles: ");
            d.append(action.as_str());
            d.append(wrap_text(language, " (", ")").as_str());
            let e = owned("Manages subtitles via Tazama");
            Ok(mcp_call("tazama_subtitles", a, d, if str_eq(action.as_str(), "list") { PermissionLevel::Safe } else { PermissionLevel::SystemWrite }, e))
        },
        _ => Err(TranslateError::NotForThisTranslator { family: owned("tazama") }),
    }
}

/// A Tazama request is answered by a tool call alone: the translation runs no shell
/// command and passes no argument to one.
pub proof fn law_tazama_calls_a_tool(intent: &Intent)
    requires
        is_tazama_intent(intent),
    ensures
        translate_tazama_spec(intent) matches Ok(t) && t.command.len() == 0 && t.args.len() == 0
            && t.mcp is Some,
{
}

/// What a Tazama tool call carries: each request calls its own tool, with every field
/// of the request under its key (an absent optional field under none), at the
/// privilege its action needs.
pub proof fn law_tazama_arguments_carry_the_request(intent: &Intent)
    ensures
        intent matches Intent::TazamaProject { action, name, .. } ==> (translate_tazama_spec(intent) matches Ok(t)
            && t.mcp matches Some(c)
            && c.tool_name == "tazama_project"@
            && (if action@ == "info"@ || action@ == "list"@ { t.permission == PermissionLevel::Safe } else { t.permission == PermissionLevel::SystemWrite })
            && c.arguments.contains_key("action"@) && c.arguments["action"@] == JsonScalar::Str(action@)
            && (match opt_view(*name) { Some(x) => c.arguments.contains_key("name"@) && c.arguments["name"@] == JsonScalar::Str(x), None => !c.arguments.contains_key("name"@) })),
        intent matches Intent::TazamaTimeline { action, clip_id, position, .. } ==> (translate_tazama_spec(intent) matches Ok(t)
            && t.mcp matches Some(c)
            && c.tool_name == "tazama_timeline"@
            && (if action@ == "list"@ { t.permission == PermissionLevel::Safe } else { t.permission == PermissionLevel::SystemWrite })
            && c.arguments.contains_key("action"@) && c.arguments["action"@] == JsonScalar::Str(action@)
            && (match opt_view(*clip_id) { Some(x) => c.arguments.contains_key("clip_id"@) && c.arguments["clip_id"@] == JsonScalar::Str(x), None => !c.arguments.contains_key("clip_id"@) })
            && (match opt_view(*position) { Some(x) => c.arguments.contains_key("position"@) && c.arguments["position"@] == JsonScalar::Str(x), None => !c.arguments.contains_key("position"@) })),
        intent matches Intent::TazamaEffects { action, effect_type, clip_id, .. } ==> (translate_tazama_spec(intent) matches Ok(t)
            && t.mcp matches Some(c)
            && c.tool_name == "tazama_effects"@
            && (if action@ == "list"@ { t.permission == PermissionLevel::Safe } else { t.permission == PermissionLevel::SystemWrite })
            && c.arguments.contains_key("action"@) && c.arguments["action"@] == JsonScalar::Str(action@)
            && (match opt_view(*effect_type) { Some(x) => c.arguments.contains_key("effect_type"@) && c.arguments["effect_type"@] == JsonScalar::Str(x), None => !c.arguments.contains_key("effect_type"@) })
            && (match opt_view(*clip_id) { Some(x) => c.arguments.contains_key("clip_id"@) && c.arguments["clip_id"@] == JsonScalar::Str(x), None => !c.arguments.contains_key("clip_id"@) })),
        intent matches Intent::TazamaAi { action, options, .. } ==> (translate_tazama_spec(intent) matches Ok(t)
            && t.mcp matches Some(c)
            && c.tool_name == "tazama_ai"@
            && t.permission == PermissionLevel::SystemWrite
            && c.arguments.contains_key("action"@) && c.arguments["action"@] == JsonScalar::Str(action@)
            && (match opt_view(*options) { Some(x) => c.arguments.contains_key("options"@) && c.arguments["options"@] == JsonScalar::Str(x), None => !c.arguments.contains_key("options"@) })),
        intent matches Intent::TazamaExport { path, format, .. } ==> (translate_tazama_spec(intent) matches Ok(t)
            && t.mcp matches Some(c)
            && c.tool_name == "tazama_export"@
            && t.permission == PermissionLevel::SystemWrite
            && (match opt_view(*path) { Some(x) => c.arguments.contains_key("path"@) && c.arguments["path"@] == JsonScalar::Str(x), None => !c.arguments.contains_key("path"@) })
            && (match opt_view(*format) { Some(x) => c.arguments.contains_key("format"@) && c.arguments["format"@] == JsonScalar::Str(x), None => !c.arguments.contains_key("format"@) })),
        intent matches Intent::TazamaMedia { action, path, .. } ==> (translate_tazama_spec(intent) matches Ok(t)
            && t.mcp matches Some(c)
            && c.tool_name == "tazama_media"@
            && (if action@ == "list"@ || action@ == "info"@ { t.permission == PermissionLevel::Safe } else { t.permission == PermissionLevel::SystemWrite })
            && c.arguments.contains_key("action"@) && c.arguments["action"@] == JsonScalar::Str(action@)
            && (match opt_view(*path) { Some(x) => c.arguments.contains_key("path"@) && c.arguments["path"@] == JsonScalar::Str(x), None => !c.arguments.contains_key("path"@) })),
        intent matches Intent::TazamaSubtitles { action, language, .. } ==> (translate_tazama_spec(intent) matches Ok(t)
            && t.mcp matches Some(c)
            && c.tool_name == "tazama_subtitles"@
            && (if action@ == "list"@ { t.permission == PermissionLevel::Safe } else { t.permission == PermissionLevel::SystemWrite })
            && c.arguments.contains_key("action"@) && c.arguments["action"@] == JsonScalar::Str(action@)
            && (match opt_view(*language) { Some(x) => c.arguments.contains_key("language"@) && c.arguments["language"@] == JsonScalar::Str(x), None => !c.arguments.contains_key("language"@) })),
{
    reveal_strlit("action");
    reveal_strlit("clip_id");
    reveal_strlit("effect_type");
    reveal_strlit("format");
    reveal_strlit("language");
    reveal_strlit("name");
    reveal_strlit("options");
    reveal_strlit("path");
    reveal_strlit("position");
    assert("action"@.len() != "clip_id"@.len());
    assert("action"@.len() != "effect_type"@.len());
    assert("action"@.len() != "language"@.len());
    assert("action"@.len() != "name"@.len());
    assert("action"@.len() != "options"@.len());
    assert("action"@.len() != "path"@.len());
    assert("action"@.len() != "position"@.len());
    assert("clip_id"@.len() != "effect_type"@.len());
    assert("clip_id"@.len() != "position"@.len());
    assert("format"@.len() != "path"@.len());
}

} // verus!
