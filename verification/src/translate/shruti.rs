//! The Shruti audio workstation, over the MCP bridge.
use vstd::prelude::*;

use crate::intent::{outcome, tool_view, Failure, Intent, TranslateError, Translation, TranslationView};
use crate::json::{json_object_insert, json_object_new, no_entries, JsonArg, JsonScalar};
use crate::mcp::{insert_opt, insert_str, mcp_call, with_opt, with_str, wrap, wrap_text};
use crate::security::PermissionLevel;
use crate::text::{opt_view, or_else, or_text, owned, str_eq};

verus! {

/// The requests that `translate_shruti` handles.
pub open spec fn is_shruti_intent(intent: &Intent) -> bool {
    ||| intent is ShrutiSession
    ||| intent is ShrutiTrack
    ||| intent is ShrutiMixer
    ||| intent is ShrutiTransport
    ||| intent is ShrutiExport
    ||| intent is ShrutiPlugins
    ||| intent is ShrutiAi
}

/// The tool call that `translate_shruti` gives for each request it handles. A mixer gain is a decimal fraction and is not among the arguments.
pub open spec fn translate_shruti_spec(intent: &Intent) -> Result<TranslationView, Failure> {
    match intent {
        Intent::ShrutiSession { action, name, .. } => {
            let entries = with_str(no_entries(), "action"@, action@);
            let entries = with_opt(entries, "name"@, opt_view(*name));
            Ok(
                tool_view(
                    "shruti_session"@,
                    entries,
                    "Shruti session: "@ + action@ + wrap(opt_view(*name), " '"@, "'"@),
                    if action@ == "info"@ { PermissionLevel::Safe } else { PermissionLevel::SystemWrite },
                    (if action@ == "create"@ { "Creates"@ } else if action@ == "open"@ { "Opens"@ } else if action@ == "save"@ { "Saves"@ } else if action@ == "close"@ { "Closes"@ } else { "Queries"@ }) + " a Shruti DAW session via MCP bridge"@,
                ),
            )
        },
        Intent::ShrutiTrack { action, name, kind, .. } => {
            let entries = with_str(no_entries(), "action"@, action@);
            let entries = with_opt(entries, "name"@, opt_view(*name));
            let entries = with_opt(entries, "kind"@, opt_view(*kind));
            Ok(
                tool_view(
                    "shruti_tracks"@,
                    entries,
                    "Shruti track: "@ + action@ + wrap(opt_view(*name), " '"@, "'"@),
                    if action@ == "list"@ { PermissionLevel::Safe } else { PermissionLevel::SystemWrite },
                    (if action@ == "add"@ { "Adds a"@ } else if action@ == "remove"@ { "Removes a"@ } else if action@ == "list"@ { "Lists"@ } else if action@ == "rename"@ { "Renames a"@ } else { "Manages a"@ }) + " track in Shruti via MCP bridge"@,
                ),
            )
        },
        Intent::ShrutiMixer { track, mute, solo, .. } => {
            let entries = with_str(no_entries(), "track"@, track@);
            let entries = match *mute { Some(x) => entries.insert("mute"@, JsonScalar::Bool(x)), None => entries };
            let entries = match *solo { Some(x) => entries.insert("solo"@, JsonScalar::Bool(x)), None => entries };
            Ok(
                tool_view(
                    "shruti_mixer"@,
                    entries,
                    "Shruti mixer: "@ + track@,
                    PermissionLevel::SystemWrite,
                    "Controls mixer for track '"@ + track@ + "' in Shruti via MCP bridge"@,
                ),
            )
        },
        Intent::ShrutiTransport { action, value, .. } => {
            let entries = with_str(no_entries(), "action"@, action@);
            let entries = with_opt(entries, "value"@, opt_view(*value));
            Ok(
                tool_view(
                    "shruti_transport"@,
                    entries,
                    "Shruti transport: "@ + action@ + wrap(opt_view(*value), " ("@, ")"@),
                    if action@ == "status"@ { PermissionLevel::Safe } else { PermissionLevel::SystemWrite },
                    (if action@ == "play"@ { "Starts playback on"@ } else if action@ == "pause"@ { "Pauses"@ } else if action@ == "stop"@ { "Stops"@ } else if action@ == "seek"@ { "Seeks position on"@ } else if action@ == "set_tempo"@ { "Sets tempo on"@ } else { "Controls"@ }) + " Shruti transport via MCP bridge"@,
                ),
            )
        },
        Intent::ShrutiExport { path, format, .. } => {
            let entries = with_opt(no_entries(), "path"@, opt_view(*path));
            let entries = with_opt(entries, "format"@, opt_view(*format));
            Ok(
                tool_view(
                    "shruti_export"@,
                    entries,
                    "Shruti export"@ + wrap(opt_view(*format), " as "@, ""@),
                    PermissionLevel::SystemWrite,
                    "Exports/bounces Shruti session to audio file via MCP bridge"@,
                ),
            )
        },
        Intent::ShrutiPlugins { action, name, .. } => {
            let entries = with_str(no_entries(), "action"@, action@);
            let entries = with_opt(entries, "name"@, opt_view(*name));
            Ok(
                tool_view(
                    "shruti_plugins"@,
                    entries,
                    "Shruti plugins: "@ + action@ + wrap(opt_view(*name), " '"@, "'"@),
                    if action@ == "list"@ || action@ == "info"@ { PermissionLevel::Safe } else { PermissionLevel::SystemWrite },
                    "Manages audio plugins via Shruti"@,
                ),
            )
        },
        Intent::ShrutiAi { action, track, .. } => {
            let entries = with_str(no_entries(), "action"@, action@);
            let entries = with_opt(entries, "track"@, opt_view(*track));
            Ok(
                tool_view(
                    "shruti_ai"@,
                    entries,
                    "Shruti AI: "@ + action@ + wrap(opt_view(*track), " on '"@, "'"@),
                    PermissionLevel::SystemWrite,
                    "Runs AI audio features via Shruti"@,
                ),
            )
        },
        _ => Err(Failure::NotForThisTranslator { family: "shruti"@ }),
    }
}

/// Translates a Shruti request into a Shruti tool call. A mixer gain is a decimal fraction, and the tool call that comes back does not hold it.
pub fn translate_shruti(intent: &Intent) -> (r: Result<Translation, TranslateError>)
    requires
        is_shruti_intent(intent),
    ensures
        outcome(r) == translate_shruti_spec(intent),
{
    match intent {
        Intent::ShrutiSession { action, name, .. } => {
            let mut a = json_object_new();
            insert_str(&mut a, "action", action.as_str());
            insert_opt(&mut a, "name", name);
            let mut d = owned("Shruti session: ");
            d.append(action.as_str());
            d.append(wrap_text(name, " '", "'").as_str());
            let mut e = owned(if str_eq(action.as_str(), "create") { "Creates" } else if str_eq(action.as_str(), "open") { "Opens" } else if str_eq(action.as_str(), "save") { "Saves" } else if str_eq(action.as_str(), "close") { "Closes" } else { "Queries" });
            e.append(" a Shruti DAW session via MCP bridge");
            Ok(mcp_call("shruti_session", a, d, if str_eq(action.as_str(), "info") { PermissionLevel::Safe } else { PermissionLevel::SystemWrite }, e))
        },
        Intent::ShrutiTrack { action, name, kind, .. } => {
            let mut a = json_object_new();
            insert_str(&mut a, "action", action.as_str());
            insert_opt(&mut a, "name", name);
            insert_opt(&mut a, "kind", kind);
            let mut d = owned("Shruti track: ");
            d.append(action.as_str());
            d.append(wrap_text(name, " '", "'").as_str());
            let mut e = owned(if str_eq(action.as_str(), "add") { "Adds a" } else if str_eq(action.as_str(), "remove") { "Removes a" } else if str_eq(action.as_str(), "list") { "Lists" } else if str_eq(action.as_str(), "rename") { "Renames a" } else { "Manages a" });
            e.append(" track in Shruti via MCP bridge");
            Ok(mcp_call("shruti_tracks", a, d, if str_eq(action.as_str(), "list") { PermissionLevel::Safe } else { PermissionLevel::SystemWrite }, e))
        },
        Intent::ShrutiMixer { track, mute, solo, .. } => {
            let mut a = json_object_new();
            insert_str(&mut a, "track", track.as_str());
            if let Some(x) = mute { json_object_insert(&mut a, "mute", JsonArg::Bool(*x)); }
            if let Some(x) = solo { json_object_insert(&mut a, "solo", JsonArg::Bool(*x)); }
            let mut d = owned("Shruti mixer: ");
            d.append(track.as_str());
            let mut e = owned("Controls mixer for track '");
            e.append(track.as_str());
            e.append("' in Shruti via MCP bridge");
            Ok(mcp_call("shruti_mixer", a, d, PermissionLevel::SystemWrite, e))
        },
        Intent::ShrutiTransport { action, value, .. } => {
            let mut a = json_object_new();
            insert_str(&mut a, "action", action.as_str());
            insert_opt(&mut a, "value", value);
            let mut d = owned("Shruti transport: ");
            d.append(action.as_str());
            d.append(wrap_text(value, " (", ")").as_str());
            let mut e = owned(if str_eq(action.as_str(), "play") { "Starts playback on" } else if str_eq(action.as_str(), "pause") { "Pauses" } else if str_eq(action.as_str(), "stop") { "Stops" } else if str_eq(action.as_str(), "seek") { "Seeks position on" } else if str_eq(action.as_str(), "set_tempo") { "Sets tempo on" } else { "Controls" });
            e.append(" Shruti transport via MCP bridge");
            Ok(mcp_call("shruti_transport", a, d, if str_eq(action.as_str(), "status") { PermissionLevel::Safe } else { PermissionLevel::SystemWrite }, e))
        },
        Intent::ShrutiExport { path, format, .. } => {
            let mut a = json_object_new();
            insert_opt(&mut a, "path", path);
            insert_opt(&mut a, "format", format);
            let mut d = owned("Shruti export");
            d.append(wrap_text(format, " as ", "").as_str());
            let e = owned("Exports/bounces Shruti session to audio file via MCP bridge");
            Ok(mcp_call("shruti_export", a, d, PermissionLevel::SystemWrite, e))
        },
        Intent::ShrutiPlugins { action, name, .. } => {
            let mut a = json_object_new();
            insert_str(&mut a, "action", action.as_str());
            insert_opt(&mut a, "name", name);
            let mut d = owned("Shruti plugins: ");
            d.append(action.as_str());
            d.append(wrap_text(name, " '", "'").as_str());
            let e = owned("Manages audio plugins via Shruti");
            Ok(mcp_call("shruti_plugins", a, d, if str_eq(action.as_str(), "list") || str_eq(action.as_str(), "info") { PermissionLevel::Safe } else { PermissionLevel::SystemWrite }, e))
        },
        Intent::ShrutiAi { action, track, .. } => {
            let mut a = json_object_new();
            insert_str(&mut a, "action", action.as_str());
            insert_opt(&mut a, "track", track);
            let mut d = owned("Shruti AI: ");
            d.append(action.as_str());
            d.append(wrap_text(track, " on '", "'").as_str());
            let e = owned("Runs AI audio features via Shruti");
            Ok(mcp_call("shruti_ai", a, d, PermissionLevel::SystemWrite, e))
        },
        _ => Err(TranslateError::NotForThisTranslator { family: owned("shruti") }),
    }
}

/// A Shruti request is answered by a tool call alone: the translation runs no shell
/// command and passes no argument to one.
pub proof fn law_shruti_calls_a_tool(intent: &Intent)
    requires
        is_shruti_intent(intent),
    ensures
        translate_shruti_spec(intent) matches Ok(t) && t.command.len() == 0 && t.args.len() == 0
            && t.mcp is Some,
{
}

/// What a Shruti tool call carries: each request calls its own tool, with every field
/// of the request under its key (an absent optional field under none), at the
/// privilege its action needs.
pub proof fn law_shruti_arguments_carry_the_request(intent: &Intent)
    ensures
        intent matches Intent::ShrutiSession { action, name, .. } ==> (translate_shruti_spec(intent) matches Ok(t)
            && t.mcp matches Some(c)
            && c.tool_name == "shruti_session"@
            && (if action@ == "info"@ { t.permission == PermissionLevel::Safe } else { t.permission == PermissionLevel::SystemWrite })
            && c.arguments.contains_key("action"@) && c.arguments["action"@] == JsonScalar::Str(action@)
            && (match opt_view(*name) { Some(x) => c.arguments.contains_key("name"@) && c.arguments["name"@] == JsonScalar::Str(x), None => !c.arguments.contains_key("name"@) })),
        intent matches Intent::ShrutiTrack { action, name, kind, .. } ==> (translate_shruti_spec(intent) matches Ok(t)
            && t.mcp matches Some(c)
            && c.tool_name == "shruti_tracks"@
            && (if action@ == "list"@ { t.permission == PermissionLevel::Safe } else { t.permission == PermissionLevel::SystemWrite })
            && c.arguments.contains_key("action"@) && c.arguments["action"@] == JsonScalar::Str(action@)
            && (match opt_view(*name) { Some(x) => c.arguments.contains_key("name"@) && c.arguments["name"@] == JsonScalar::Str(x), None => !c.arguments.contains_key("name"@) })
            && (match opt_view(*kind) { Some(x) => c.arguments.contains_key("kind"@) && c.arguments["kind"@] == JsonScalar::Str(x), None => !c.arguments.contains_key("kind"@) })),
        intent matches Intent::ShrutiMixer { track, mute, solo, .. } ==> (translate_shruti_spec(intent) matches Ok(t)
            && t.mcp matches Some(c)
            && c.tool_name == "shruti_mixer"@
            && t.permission == PermissionLevel::SystemWrite
            && c.arguments.contains_key("track"@) && c.arguments["track"@] == JsonScalar::Str(track@)
            && (match *mute { Some(x) => c.arguments.contains_key("mute"@) && c.arguments["mute"@] == JsonScalar::Bool(x), None => !c.arguments.contains_key("mute"@) })
            && (match *solo { Some(x) => c.arguments.contains_key("solo"@) && c.arguments["solo"@] == JsonScalar::Bool(x), None => !c.arguments.contains_key("solo"@) })),
        intent matches Intent::ShrutiTransport { action, value, .. } ==> (translate_shruti_spec(intent) matches Ok(t)
            && t.mcp matches Some(c)
            && c.tool_name == "shruti_transport"@
            && (if action@ == "status"@ { t.permission == PermissionLevel::Safe } else { t.permission == PermissionLevel::SystemWrite })
            && c.arguments.contains_key("action"@) && c.arguments["action"@] == JsonScalar::Str(action@)
            && (match opt_view(*value) { Some(x) => c.arguments.contains_key("value"@) && c.arguments["value"@] == JsonScalar::Str(x), None => !c.arguments.contains_key("value"@) })),
        intent matches Intent::ShrutiExport { path, format, .. } ==> (translate_shruti_spec(intent) matches Ok(t)
            && t.mcp matches Some(c)
            && c.tool_name == "shruti_export"@
            && t.permission == PermissionLevel::SystemWrite
            && (match opt_view(*path) { Some(x) => c.arguments.contains_key("path"@) && c.arguments["path"@] == JsonScalar::Str(x), None => !c.arguments.contains_key("path"@) })
            && (match opt_view(*format) { Some(x) => c.arguments.contains_key("format"@) && c.arguments["format"@] == JsonScalar::Str(x), None => !c.arguments.contains_key("format"@) })),
        intent matches Intent::ShrutiPlugins { action, name, .. } ==> (translate_shruti_spec(intent) matches Ok(t)
            && t.mcp matches Some(c)
            && c.tool_name == "shruti_plugins"@
            && (if action@ == "list"@ || action@ == "info"@ { t.permission == PermissionLevel::Safe } else { t.permission == PermissionLevel::SystemWrite })
            && c.arguments.contains_key("action"@) && c.arguments["action"@] == JsonScalar::Str(action@)
            && (match opt_view(*name) { Some(x) => c.arguments.contains_key("name"@) && c.arguments["name"@] == JsonScalar::Str(x), None => !c.arguments.contains_key("name"@) })),
        intent matches Intent::ShrutiAi { action, track, .. } ==> (translate_shruti_spec(intent) matches Ok(t)
            && t.mcp matches Some(c)
            && c.tool_name == "shruti_ai"@
            && t.permission == PermissionLevel::SystemWrite
            && c.arguments.contains_key("action"@) && c.arguments["action"@] == JsonScalar::Str(action@)
            && (match opt_view(*track) { Some(x) => c.arguments.contains_key("track"@) && c.arguments["track"@] == JsonScalar::Str(x), None => !c.arguments.contains_key("track"@) })),
{
    reveal_strlit("action");
    reveal_strlit("format");
    reveal_strlit("kind");
    reveal_strlit("mute");
    reveal_strlit("name");
    reveal_strlit("path");
    reveal_strlit("solo");
    reveal_strlit("track");
    reveal_strlit("value");
    assert("action"@.len() != "kind"@.len());
    assert("action"@.len() != "name"@.len());
    assert("action"@.len() != "track"@.len());
    assert("action"@.len() != "value"@.len());
    assert("format"@.len() != "path"@.len());
    assert("kind"@[0] != "name"@[0]);
    assert("mute"@[0] != "solo"@[0]);
    assert("mute"@.len() != "track"@.len());
    assert("solo"@.len() != "track"@.len());
}

} // verus!
