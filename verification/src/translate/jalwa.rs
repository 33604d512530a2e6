//! The Jalwa media player, over the MCP bridge.
use vstd::prelude::*;

use crate::intent::{outcome, tool_view, Failure, Intent, TranslateError, Translation, TranslationView};
use crate::json::{json_object_insert, json_object_new, no_entries, JsonArg, JsonScalar};
use crate::mcp::{insert_opt, insert_str, mcp_call, with_opt, with_str, wrap, wrap_text};
use crate::security::PermissionLevel;
use crate::text::{opt_view, or_else, or_text, owned, str_eq};

verus! {

/// The requests that `translate_jalwa` handles.
pub open spec fn is_jalwa_intent(intent: &Intent) -> bool {
    ||| intent is JalwaPlay
    ||| intent is JalwaPause
    ||| intent is JalwaStatus
    ||| intent is JalwaSearch
    ||| intent is JalwaRecommend
    ||| intent is JalwaQueue
    ||| intent is JalwaLibrary
    ||| intent is JalwaPlaylist
}

/// The tool call that `translate_jalwa` gives for each request it handles.
pub open spec fn translate_jalwa_spec(intent: &Intent) -> Result<TranslationView, Failure> {
    match intent {
        Intent::JalwaPlay { path, .. } => {
            let entries = with_str(no_entries(), "path"@, path@);
            Ok(
                tool_view(
                    "jalwa_play"@,
                    entries,
                    "Play: "@ + path@,
                    PermissionLevel::SystemWrite,
                    "Plays a media file via Jalwa media player"@,
                ),
            )
        },
        Intent::JalwaPause => {
            Ok(
                tool_view(
                    "jalwa_pause"@,
                    no_entries(),
                    "Pause playback"@,
                    PermissionLevel::SystemWrite,
                    "Pauses current playback in Jalwa"@,
                ),
            )
        },
        Intent::JalwaStatus => {
            Ok(
                tool_view(
                    "jalwa_status"@,
                    no_entries(),
                    "Playback status"@,
                    PermissionLevel::Safe,
                    "Gets current playback status from Jalwa"@,
                ),
            )
        },
        Intent::JalwaSearch { query, .. } => {
            let entries = with_str(no_entries(), "query"@, query@);
            Ok(
                tool_view(
                    "jalwa_search"@,
                    entries,
                    "Search library: "@ + query@,
                    PermissionLevel::Safe,
                    "Searches the Jalwa media library"@,
                ),
            )
        },
        Intent::JalwaRecommend { item_id, max, .. } => {
            let entries = with_str(no_entries(), "item_id"@, item_id@);
            let entries = match *max { Some(n) => entries.insert("max"@, JsonScalar::UInt(n as nat)), None => entries };
            Ok(
                tool_view(
                    "jalwa_recommend"@,
                    entries,
                    "Get recommendations"@,
                    PermissionLevel::Safe,
                    "Gets AI-powered media recommendations from Jalwa"@,
                ),
            )
        },
        Intent::JalwaQueue { action, item_id, .. } => {
            let entries = with_str(no_entries(), "action"@, action@);
            let entries = with_opt(entries, "item_id"@, opt_view(*item_id));
            Ok(
                tool_view(
                    "jalwa_queue"@,
                    entries,
                    "Queue: "@ + action@,
                    PermissionLevel::SystemWrite,
                    "Manages the Jalwa play queue"@,
                ),
            )
        },
        Intent::JalwaLibrary { action, path, .. } => {
            let entries = with_str(no_entries(), "action"@, action@);
            let entries = with_opt(entries, "path"@, opt_view(*path));
            Ok(
                tool_view(
                    "jalwa_library"@,
                    entries,
                    "Library: "@ + action@,
                    PermissionLevel::Safe,
                    "Manages the Jalwa media library"@,
                ),
            )
        },
        Intent::JalwaPlaylist { action, name, item_id, .. } => {
            let entries = with_str(no_entries(), "action"@, action@);
            let entries = with_opt(entries, "name"@, opt_view(*name));
            let entries = with_opt(entries, "item_id"@, opt_view(*item_id));
            Ok(
                tool_view(
                    "jalwa_playlist"@,
                    entries,
                    "Playlist: "@ + action@,
                    PermissionLevel::SystemWrite,
                    "Manages Jalwa playlists"@,
                ),
            )
        },
        _ => Err(Failure::NotForThisTranslator { family: "jalwa"@ }),
    }
}

/// Translates a Jalwa request into a Jalwa tool call.
pub fn translate_jalwa(intent: &Intent) -> (r: Result<Translation, TranslateError>)
    requires
        is_jalwa_intent(intent),
    ensures
        outcome(r) == translate_jalwa_spec(intent),
{
    match intent {
        Intent::JalwaPlay { path, .. } => {
            let mut a = json_object_new();
            insert_str(&mut a, "path", path.as_str());
            let mut d = owned("Play: ");
            d.append(path.as_str());
            let e = owned("Plays a media file via Jalwa media player");
            Ok(mcp_call("jalwa_play", a, d, PermissionLevel::SystemWrite, e))
        },
        Intent::JalwaPause => {
            let a = json_object_new();
            let d = owned("Pause playback");
            let e = owned("Pauses current playback in Jalwa");
            Ok(mcp_call("jalwa_pause", a, d, PermissionLevel::SystemWrite, e))
        },
        Intent::JalwaStatus => {
            let a = json_object_new();
            let d = owned("Playback status");
            let e = owned("Gets current playback status from Jalwa");
            Ok(mcp_call("jalwa_status", a, d, PermissionLevel::Safe, e))
        },
        Intent::JalwaSearch { query, .. } => {
            let mut a = json_object_new();
            insert_str(&mut a, "query", query.as_str());
            let mut d = owned("Search library: ");
            d.append(query.as_str());
            let e = owned("Searches the Jalwa media library");
            Ok(mcp_call("jalwa_search", a, d, PermissionLevel::Safe, e))
        },
        Intent::JalwaRecommend { item_id, max, .. } => {
            let mut a = json_object_new();
            insert_str(&mut a, "item_id", item_id.as_str());
            if let Some(n) = max { json_object_insert(&mut a, "max", JsonArg::UInt(*n as u64)); }
            let d = owned("Get recommendations");
            let e = owned("Gets AI-powered media recommendations from Jalwa");
            Ok(mcp_call("jalwa_recommend", a, d, PermissionLevel::Safe, e))
        },
        Intent::JalwaQueue { action, item_id, .. } => {
            let mut a = json_object_new();
            insert_str(&mut a, "action", action.as_str());
            insert_opt(&mut a, "item_id", item_id);
            let mut d = owned("Queue: ");
            d.append(action.as_str());
            let e = owned("Manages the Jalwa play queue");
            Ok(mcp_call("jalwa_queue", a, d, PermissionLevel::SystemWrite, e))
        },
        Intent::JalwaLibrary { action, path, .. } => {
            let mut a = json_object_new();
            insert_str(&mut a, "action", action.as_str());
            insert_opt(&mut a, "path", path);
            let mut d = owned("Library: ");
            d.append(action.as_str());
            let e = owned("Manages the Jalwa media library");
            Ok(mcp_call("jalwa_library", a, d, PermissionLevel::Safe, e))
        },
        Intent::JalwaPlaylist { action, name, item_id, .. } => {
            let mut a = json_object_new();
            insert_str(&mut a, "action", action.as_str());
            insert_opt(&mut a, "name", name);
            insert_opt(&mut a, "item_id", item_id);
            let mut d = owned("Playlist: ");
            d.append(action.as_str());
            let e = owned("Manages Jalwa playlists");
            Ok(mcp_call("jalwa_playlist", a, d, PermissionLevel::SystemWrite, e))
        },
        _ => Err(TranslateError::NotForThisTranslator { family: owned("jalwa") }),
    }
}

/// A Jalwa request is answered by a tool call alone: the translation runs no shell
/// command and passes no argument to one.
pub proof fn law_jalwa_calls_a_tool(intent: &Intent)
    requires
        is_jalwa_intent(intent),
    ensures
        translate_jalwa_spec(intent) matches Ok(t) && t.command.len() == 0 && t.args.len() == 0
            && t.mcp is Some,
{
}

/// What a Jalwa tool call carries: each request calls its own tool, with every field
/// of the request under its key (an absent optional field under none), at the
/// privilege its action needs.
pub proof fn law_jalwa_arguments_carry_the_request(intent: &Intent)
    ensures
        intent matches Intent::JalwaPlay { path, .. } ==> (translate_jalwa_spec(intent) matches Ok(t)
            && t.mcp matches Some(c)
            && c.tool_name == "jalwa_play"@
            && t.permission == PermissionLevel::SystemWrite
            && c.arguments.contains_key("path"@) && c.arguments["path"@] == JsonScalar::Str(path@)),
        intent is JalwaPause ==> (translate_jalwa_spec(intent) matches Ok(t)
            && t.mcp matches Some(c)
            && c.tool_name == "jalwa_pause"@
            && t.permission == PermissionLevel::SystemWrite),
        intent is JalwaStatus ==> (translate_jalwa_spec(intent) matches Ok(t)
            && t.mcp matches Some(c)
            && c.tool_name == "jalwa_status"@
            && t.permission == PermissionLevel::Safe),
        intent matches Intent::JalwaSearch { query, .. } ==> (translate_jalwa_spec(intent) matches Ok(t)
            && t.mcp matches Some(c)
            && c.tool_name == "jalwa_search"@
            && t.permission == PermissionLevel::Safe
            && c.arguments.contains_key("query"@) && c.arguments["query"@] == JsonScalar::Str(query@)),
        intent matches Intent::JalwaRecommend { item_id, max, .. } ==> (translate_jalwa_spec(intent) matches Ok(t)
            && t.mcp matches Some(c)
            && c.tool_name == "jalwa_recommend"@
            && t.permission == PermissionLevel::Safe
            && c.arguments.contains_key("item_id"@) && c.arguments["item_id"@] == JsonScalar::Str(item_id@)
            && (match *max { Some(n) => c.arguments.contains_key("max"@) && c.arguments["max"@] == JsonScalar::UInt(n as nat), None => !c.arguments.contains_key("max"@) })),
        intent matches Intent::JalwaQueue { action, item_id, .. } ==> (translate_jalwa_spec(intent) matches Ok(t)
            && t.mcp matches Some(c)
            && c.tool_name == "jalwa_queue"@
            && t.permission == PermissionLevel::SystemWrite
            && c.arguments.contains_key("action"@) && c.arguments["action"@] == JsonScalar::Str(action@)
            && (match opt_view(*item_id) { Some(x) => c.arguments.contains_key("item_id"@) && c.arguments["item_id"@] == JsonScalar::Str(x), None => !c.arguments.contains_key("item_id"@) })),
        intent matches Intent::JalwaLibrary { action, path, .. } ==> (translate_jalwa_spec(intent) matches Ok(t)
            && t.mcp matches Some(c)
            && c.tool_name == "jalwa_library"@
            && t.permission == PermissionLevel::Safe
            && c.arguments.contains_key("action"@) && c.arguments["action"@] == JsonScalar::Str(action@)
            && (match opt_view(*path) { Some(x) => c.arguments.contains_key("path"@) && c.arguments["path"@] == JsonScalar::Str(x), None => !c.arguments.contains_key("path"@) })),
        intent matches Intent::JalwaPlaylist { action, name, item_id, .. } ==> (translate_jalwa_spec(intent) matches Ok(t)
            && t.mcp matches Some(c)
            && c.tool_name == "jalwa_playlist"@
            && t.permission == PermissionLevel::SystemWrite
            && c.arguments.contains_key("action"@) && c.arguments["action"@] == JsonScalar::Str(action@)
            && (match opt_view(*name) { Some(x) => c.arguments.contains_key("name"@) && c.arguments["name"@] == JsonScalar::Str(x), None => !c.arguments.contains_key("name"@) })
            && (match opt_view(*item_id) { Some(x) => c.arguments.contains_key("item_id"@) && c.arguments["item_id"@] == JsonScalar::Str(x), None => !c.arguments.contains_key("item_id"@) })),
{
    reveal_strlit("action");
    reveal_strlit("item_id");
    reveal_strlit("max");
    reveal_strlit("name");
    reveal_strlit("path");
    reveal_strlit("query");
    assert("action"@.len() != "item_id"@.len());
    assert("action"@.len() != "name"@.len());
    assert("action"@.len() != "path"@.len());
    assert("item_id"@.len() != "max"@.len());
    assert("item_id"@.len() != "name"@.len());
}

} // verus!
