//! Requests for the creative and knowledge applications: Shruti, Tazama, Rasa,
//! Mneme, Tarang, Jalwa and Synapse.
use vstd::prelude::*;

use crate::intent::Intent;
use crate::parse::captures::{
    cap_first, cap_first_spec, cap_number, cap_number_spec, cap_opt, cap_opt_spec, cap_present,
    cap_decimal, cap_decimal_spec, cap_str, cap_str_or, cap_str_or_spec, cap_str_spec, cap_u32,
    cap_u32_spec, cap_word, cap_word_spec, caps, has_group, matched, node, node_spec, period,
    period_spec, receipt_status, receipt_status_spec, Found, PatternMatches,
};
use crate::text::{opt_view, owned};

verus! {

// --- Shruti DAW ---

/// Whether the `shruti_session` pattern matched with what its request needs.
pub open spec fn shruti_session_fires(m: Found) -> bool {
    let c = caps(m, "shruti_session"@);
    &&& matched(m, "shruti_session"@)
    &&& cap_str_spec(c, 2).len() > 0
}

/// The request that the `shruti_session` pattern gives.
pub open spec fn shruti_session_gives(m: Found, r: Intent) -> bool {
    let c = caps(m, "shruti_session"@);
    &&& r matches Intent::ShrutiSession { action, name }
    &&& action@ == cap_str_spec(c, 2)
    &&& opt_view(name) == cap_opt_spec(c, 4)
}

/// Whether the `shruti_track` pattern matched with what its request needs.
pub open spec fn shruti_track_fires(m: Found) -> bool {
    let c = caps(m, "shruti_track"@);
    &&& matched(m, "shruti_track"@)
    &&& cap_str_spec(c, 1).len() > 0
}

/// The request that the `shruti_track` pattern gives.
pub open spec fn shruti_track_gives(m: Found, r: Intent) -> bool {
    let c = caps(m, "shruti_track"@);
    &&& r matches Intent::ShrutiTrack { action, name, kind }
    &&& action@ == cap_str_spec(c, 1)
    &&& opt_view(name) == cap_opt_spec(c, 4)
    &&& opt_view(kind) == cap_opt_spec(c, 6)
}

/// Whether the `shruti_mixer` pattern matched with what its request needs.
pub open spec fn shruti_mixer_fires(m: Found) -> bool {
    let c = caps(m, "shruti_mixer"@);
    &&& matched(m, "shruti_mixer"@)
    &&& cap_str_spec(c, 1).len() > 0
}

/// The request that the `shruti_mixer` pattern gives.
pub open spec fn shruti_mixer_gives(m: Found, r: Intent) -> bool {
    let c = caps(m, "shruti_mixer"@);
    &&& r matches Intent::ShrutiMixer { track, gain, mute, solo }
    &&& track@ == cap_str_spec(c, 1)
    &&& opt_view(gain) == cap_decimal_spec(c, 3)
    &&& mute == (if has_group(c, 4) { Some(true) } else { None })
    &&& solo == (if has_group(c, 5) { Some(true) } else { None })
}

/// Whether the `shruti_transport` pattern matched with what its request needs.
pub open spec fn shruti_transport_fires(m: Found) -> bool {
    let c = caps(m, "shruti_transport"@);
    &&& matched(m, "shruti_transport"@)
    &&& cap_str_spec(c, 1).len() > 0
}

/// The request that the `shruti_transport` pattern gives.
pub open spec fn shruti_transport_gives(m: Found, r: Intent) -> bool {
    let c = caps(m, "shruti_transport"@);
    &&& r matches Intent::ShrutiTransport { action, value }
    &&& action@ == cap_str_spec(c, 1)
    &&& opt_view(value) == cap_opt_spec(c, 3)
}

/// Whether the `shruti_export` pattern matched.
pub open spec fn shruti_export_fires(m: Found) -> bool {
    matched(m, "shruti_export"@)
}

/// The request that the `shruti_export` pattern gives.
pub open spec fn shruti_export_gives(m: Found, r: Intent) -> bool {
    let c = caps(m, "shruti_export"@);
    &&& r matches Intent::ShrutiExport { path, format }
    &&& opt_view(path) == cap_opt_spec(c, 1)
    &&& opt_view(format) == cap_opt_spec(c, 3)
}

/// Whether the `shruti_plugins` pattern matched with what its request needs.
pub open spec fn shruti_plugins_fires(m: Found) -> bool {
    let c = caps(m, "shruti_plugins"@);
    &&& matched(m, "shruti_plugins"@)
    &&& cap_str_spec(c, 2).len() > 0
}

/// The request that the `shruti_plugins` pattern gives.
pub open spec fn shruti_plugins_gives(m: Found, r: Intent) -> bool {
    let c = caps(m, "shruti_plugins"@);
    &&& r matches Intent::ShrutiPlugins { action, name }
    &&& action@ == cap_str_spec(c, 2)
    &&& opt_view(name) == cap_opt_spec(c, 4)
}

/// Whether the `shruti_ai` pattern matched with what its request needs.
pub open spec fn shruti_ai_fires(m: Found) -> bool {
    let c = caps(m, "shruti_ai"@);
    &&& matched(m, "shruti_ai"@)
    &&& cap_word_spec(c, 1).len() > 0
}

/// The request that the `shruti_ai` pattern gives.
pub open spec fn shruti_ai_gives(m: Found, r: Intent) -> bool {
    let c = caps(m, "shruti_ai"@);
    &&& r matches Intent::ShrutiAi { action, track }
    &&& action@ == cap_word_spec(c, 1)
    &&& opt_view(track) == cap_opt_spec(c, 3)
}

/// Whether one of the Shruti DAW patterns gives a request.
pub open spec fn shruti_fires(m: Found) -> bool {
    ||| shruti_session_fires(m)
    ||| shruti_track_fires(m)
    ||| shruti_mixer_fires(m)
    ||| shruti_transport_fires(m)
    ||| shruti_export_fires(m)
    ||| shruti_plugins_fires(m)
    ||| shruti_ai_fires(m)
}

/// The request of the first Shruti DAW pattern that gives one, in the order they
/// are tried; `None` where none does.
pub open spec fn shruti_result(m: Found, r: Option<Intent>) -> bool {
    if shruti_session_fires(m) {
        r matches Some(i) && shruti_session_gives(m, i)
    } else if shruti_track_fires(m) {
        r matches Some(i) && shruti_track_gives(m, i)
    } else if shruti_mixer_fires(m) {
        r matches Some(i) && shruti_mixer_gives(m, i)
    } else if shruti_transport_fires(m) {
        r matches Some(i) && shruti_transport_gives(m, i)
    } else if shruti_export_fires(m) {
        r matches Some(i) && shruti_export_gives(m, i)
    } else if shruti_plugins_fires(m) {
        r matches Some(i) && shruti_plugins_gives(m, i)
    } else if shruti_ai_fires(m) {
        r matches Some(i) && shruti_ai_gives(m, i)
    } else {
        r is None
    }
}

fn parse_shruti(lower: &PatternMatches) -> (r: Option<Intent>)
    ensures
        shruti_result(lower@, r),
        r is Some <==> shruti_fires(lower@),
{
    match lower.try_captures("shruti_session") {
        Some(c) => {
            let action = cap_str(c, 2);
            let name = cap_opt(c, 4);
            if !action.as_str().is_empty() {
                return Some(Intent::ShrutiSession { action, name });
            }
        },
        None => {},
    }
    match lower.try_captures("shruti_track") {
        Some(c) => {
            let action = cap_str(c, 1);
            let name = cap_opt(c, 4);
            let kind = cap_opt(c, 6);
            if !action.as_str().is_empty() {
                return Some(Intent::ShrutiTrack { action, name, kind });
            }
        },
        None => {},
    }
    match lower.try_captures("shruti_mixer") {
        Some(c) => {
            let track = cap_str(c, 1);
            let gain = cap_decimal(c, 3);
            let mute = if cap_present(c, 4) { Some(true) } else { None };
            let solo = if cap_present(c, 5) { Some(true) } else { None };
            if !track.as_str().is_empty() {
                return Some(Intent::ShrutiMixer { track, gain, mute, solo });
            }
        },
        None => {},
    }
    match lower.try_captures("shruti_transport") {
        Some(c) => {
            let action = cap_str(c, 1);
            let value = cap_opt(c, 3);
            if !action.as_str().is_empty() {
                return Some(Intent::ShrutiTransport { action, value });
            }
        },
        None => {},
    }
    match lower.try_captures("shruti_export") {
        Some(c) => {
            let path = cap_opt(c, 1);
            let format = cap_opt(c, 3);
            return Some(Intent::ShrutiExport { path, format });
        },
        None => {},
    }
    match lower.try_captures("shruti_plugins") {
        Some(c) => {
            let action = cap_str(c, 2);
            let name = cap_opt(c, 4);
            if !action.as_str().is_empty() {
                return Some(Intent::ShrutiPlugins { action, name });
            }
        },
        None => {},
    }
    match lower.try_captures("shruti_ai") {
        Some(c) => {
            let action = cap_word(c, 1);
            let track = cap_opt(c, 3);
            if !action.as_str().is_empty() {
                return Some(Intent::ShrutiAi { action, track });
            }
        },
        None => {},
    }
    None
}

proof fn lemma_shruti_requests_accepted(m: Found, r: Option<Intent>)
    requires
        shruti_result(m, r),
    ensures
        r matches Some(i) ==> crate::translate::shruti::is_shruti_intent(&i),
{
}

proof fn lemma_shruti_carries_groups(m: Found, r: Option<Intent>)
    requires
        shruti_result(m, r),
    ensures
        r matches Some(i) ==> (i is ShrutiSession || i is ShrutiTrack || i is ShrutiMixer || i is ShrutiTransport || i is ShrutiExport || i is ShrutiPlugins || i is ShrutiAi),
        r matches Some(Intent::ShrutiSession { action, name }) ==> (({ let c = caps(m, "shruti_session"@); matched(m, "shruti_session"@) && action@ == cap_str_spec(c, 2) && opt_view(name) == cap_opt_spec(c, 4) })),
        r matches Some(Intent::ShrutiTrack { action, name, kind }) ==> (({ let c = caps(m, "shruti_track"@); matched(m, "shruti_track"@) && action@ == cap_str_spec(c, 1) && opt_view(name) == cap_opt_spec(c, 4) && opt_view(kind) == cap_opt_spec(c, 6) })),
        r matches Some(Intent::ShrutiMixer { track, gain, mute, solo }) ==> (({ let c = caps(m, "shruti_mixer"@); matched(m, "shruti_mixer"@) && track@ == cap_str_spec(c, 1) && opt_view(gain) == cap_decimal_spec(c, 3) && mute == (if has_group(c, 4) { Some(true) } else { None }) && solo == (if has_group(c, 5) { Some(true) } else { None }) })),
        r matches Some(Intent::ShrutiTransport { action, value }) ==> (({ let c = caps(m, "shruti_transport"@); matched(m, "shruti_transport"@) && action@ == cap_str_spec(c, 1) && opt_view(value) == cap_opt_spec(c, 3) })),
        r matches Some(Intent::ShrutiExport { path, format }) ==> (({ let c = caps(m, "shruti_export"@); matched(m, "shruti_export"@) && opt_view(path) == cap_opt_spec(c, 1) && opt_view(format) == cap_opt_spec(c, 3) })),
        r matches Some(Intent::ShrutiPlugins { action, name }) ==> (({ let c = caps(m, "shruti_plugins"@); matched(m, "shruti_plugins"@) && action@ == cap_str_spec(c, 2) && opt_view(name) == cap_opt_spec(c, 4) })),
        r matches Some(Intent::ShrutiAi { action, track }) ==> (({ let c = caps(m, "shruti_ai"@); matched(m, "shruti_ai"@) && action@ == cap_word_spec(c, 1) && opt_view(track) == cap_opt_spec(c, 3) })),
{
}

// --- Tazama video editor ---

/// Whether the `tazama_project` pattern matched with what its request needs.
pub open spec fn tazama_project_fires(m: Found) -> bool {
    let c = caps(m, "tazama_project"@);
    &&& matched(m, "tazama_project"@)
    &&& cap_str_spec(c, 2).len() > 0
}

/// The request that the `tazama_project` pattern gives.
pub open spec fn tazama_project_gives(m: Found, r: Intent) -> bool {
    let c = caps(m, "tazama_project"@);
    &&& r matches Intent::TazamaProject { action, name }
    &&& action@ == cap_str_spec(c, 2)
    &&& opt_view(name) == cap_opt_spec(c, 4)
}

/// Whether the `tazama_timeline` pattern matched with what its request needs.
pub open spec fn tazama_timeline_fires(m: Found) -> bool {
    let c = caps(m, "tazama_timeline"@);
    &&& matched(m, "tazama_timeline"@)
    &&& cap_str_spec(c, 1).len() > 0
}

/// The request that the `tazama_timeline` pattern gives.
pub open spec fn tazama_timeline_gives(m: Found, r: Intent) -> bool {
    let c = caps(m, "tazama_timeline"@);
    &&& r matches Intent::TazamaTimeline { action, clip_id, position }
    &&& action@ == cap_str_spec(c, 1)
    &&& opt_view(clip_id) == cap_opt_spec(c, 4)
    &&& opt_view(position) == cap_decimal_spec(c, 6)
}

/// Whether the `tazama_effects` pattern matched with what its request needs.
pub open spec fn tazama_effects_fires(m: Found) -> bool {
    let c = caps(m, "tazama_effects"@);
    &&& matched(m, "tazama_effects"@)
    &&& cap_str_spec(c, 1).len() > 0
}

/// The request that the `tazama_effects` pattern gives.
pub open spec fn tazama_effects_gives(m: Found, r: Intent) -> bool {
    let c = caps(m, "tazama_effects"@);
    &&& r matches Intent::TazamaEffects { action, effect_type, clip_id }
    &&& action@ == cap_str_spec(c, 1)
    &&& opt_view(effect_type) == cap_opt_spec(c, 4)
    &&& opt_view(clip_id) == cap_opt_spec(c, 6)
}

/// Whether the `tazama_ai` pattern matched with what its request needs.
pub open spec fn tazama_ai_fires(m: Found) -> bool {
    let c = caps(m, "tazama_ai"@);
    &&& matched(m, "tazama_ai"@)
    &&& cap_word_spec(c, 1).len() > 0
}

/// The request that the `tazama_ai` pattern gives.
pub open spec fn tazama_ai_gives(m: Found, r: Intent) -> bool {
    let c = caps(m, "tazama_ai"@);
    &&& r matches Intent::TazamaAi { action, options }
    &&& action@ == cap_word_spec(c, 1)
    &&& opt_view(options) == cap_opt_spec(c, 3)
}

/// Whether the `tazama_export` pattern matched.
pub open spec fn tazama_export_fires(m: Found) -> bool {
    matched(m, "tazama_export"@)
}

/// The request that the `tazama_export` pattern gives.
pub open spec fn tazama_export_gives(m: Found, r: Intent) -> bool {
    let c = caps(m, "tazama_export"@);
    &&& r matches Intent::TazamaExport { path, format }
    &&& opt_view(path) == cap_opt_spec(c, 1)
    &&& opt_view(format) == cap_opt_spec(c, 3)
}

/// Whether the `tazama_media` pattern matched with what its request needs.
pub open spec fn tazama_media_fires(m: Found) -> bool {
    let c = caps(m, "tazama_media"@);
    &&& matched(m, "tazama_media"@)
    &&& cap_str_spec(c, 2).len() > 0
}

/// The request that the `tazama_media` pattern gives.
pub open spec fn tazama_media_gives(m: Found, r: Intent) -> bool {
    let c = caps(m, "tazama_media"@);
    &&& r matches Intent::TazamaMedia { action, path }
    &&& action@ == cap_str_spec(c, 2)
    &&& opt_view(path) == cap_opt_spec(c, 4)
}

/// Whether the `tazama_subtitles` pattern matched with what its request needs.
pub open spec fn tazama_subtitles_fires(m: Found) -> bool {
    let c = caps(m, "tazama_subtitles"@);
    &&& matched(m, "tazama_subtitles"@)
    &&& cap_str_spec(c, 2).len() > 0
}

/// The request that the `tazama_subtitles` pattern gives.
pub open spec fn tazama_subtitles_gives(m: Found, r: Intent) -> bool {
    let c = caps(m, "tazama_subtitles"@);
    &&& r matches Intent::TazamaSubtitles { action, language }
    &&& action@ == cap_str_spec(c, 2)
    &&& opt_view(language) == cap_opt_spec(c, 4)
}

/// Whether one of the Tazama video editor patterns gives a request.
pub open spec fn tazama_fires(m: Found) -> bool {
    ||| tazama_project_fires(m)
    ||| tazama_timeline_fires(m)
    ||| tazama_effects_fires(m)
    ||| tazama_ai_fires(m)
    ||| tazama_export_fires(m)
    ||| tazama_media_fires(m)
    ||| tazama_subtitles_fires(m)
}

/// The request of the first Tazama video editor pattern that gives one, in the order they
/// are tried; `None` where none does.
pub open spec fn tazama_result(m: Found, r: Option<Intent>) -> bool {
    if tazama_project_fires(m) {
        r matches Some(i) && tazama_project_gives(m, i)
    } else if tazama_timeline_fires(m) {
        r matches Some(i) && tazama_timeline_gives(m, i)
    } else if tazama_effects_fires(m) {
        r matches Some(i) && tazama_effects_gives(m, i)
    } else if tazama_ai_fires(m) {
        r matches Some(i) && tazama_ai_gives(m, i)
    } else if tazama_export_fires(m) {
        r matches Some(i) && tazama_export_gives(m, i)
    } else if tazama_media_fires(m) {
        r matches Some(i) && tazama_media_gives(m, i)
    } else if tazama_subtitles_fires(m) {
        r matches Some(i) && tazama_subtitles_gives(m, i)
    } else {
        r is None
    }
}

fn parse_tazama(lower: &PatternMatches) -> (r: Option<Intent>)
    ensures
        tazama_result(lower@, r),
        r is Some <==> tazama_fires(lower@),
{
    match lower.try_captures("tazama_project") {
        Some(c) => {
            let action = cap_str(c, 2);
            let name = cap_opt(c, 4);
            if !action.as_str().is_empty() {
                return Some(Intent::TazamaProject { action, name });
            }
        },
        None => {},
    }
    match lower.try_captures("tazama_timeline") {
        Some(c) => {
            let action = cap_str(c, 1);
            let clip_id = cap_opt(c, 4);
            let position = cap_decimal(c, 6);
            if !action.as_str().is_empty() {
                return Some(Intent::TazamaTimeline { action, clip_id, position });
            }
        },
        None => {},
    }
    match lower.try_captures("tazama_effects") {
        Some(c) => {
            let action = cap_str(c, 1);
            let effect_type = cap_opt(c, 4);
            let clip_id = cap_opt(c, 6);
            if !action.as_str().is_empty() {
                return Some(Intent::TazamaEffects { action, effect_type, clip_id });
            }
        },
        None => {},
    }
    match lower.try_captures("tazama_ai") {
        Some(c) => {
            let action = cap_word(c, 1);
            let options = cap_opt(c, 3);
            if !action.as_str().is_empty() {
                return Some(Intent::TazamaAi { action, options });
            }
        },
        None => {},
    }
    match lower.try_captures("tazama_export") {
        Some(c) => {
            let path = cap_opt(c, 1);
            let format = cap_opt(c, 3);
            return Some(Intent::TazamaExport { path, format });
        },
        None => {},
    }
    match lower.try_captures("tazama_media") {
        Some(c) => {
            let action = cap_str(c, 2);
            let path = cap_opt(c, 4);
            if !action.as_str().is_empty() {
                return Some(Intent::TazamaMedia { action, path });
            }
        },
        None => {},
    }
    match lower.try_captures("tazama_subtitles") {
        Some(c) => {
            let action = cap_str(c, 2);
            let language = cap_opt(c, 4);
            if !action.as_str().is_empty() {
                return Some(Intent::TazamaSubtitles { action, language });
            }
        },
        None => {},
    }
    None
}

proof fn lemma_tazama_requests_accepted(m: Found, r: Option<Intent>)
    requires
        tazama_result(m, r),
    ensures
        r matches Some(i) ==> crate::translate::tazama::is_tazama_intent(&i),
{
}

proof fn lemma_tazama_carries_groups(m: Found, r: Option<Intent>)
    requires
        tazama_result(m, r),
    ensures
        r matches Some(i) ==> (i is TazamaProject || i is TazamaTimeline || i is TazamaEffects || i is TazamaAi || i is TazamaExport || i is TazamaMedia || i is TazamaSubtitles),
        r matches Some(Intent::TazamaProject { action, name }) ==> (({ let c = caps(m, "tazama_project"@); matched(m, "tazama_project"@) && action@ == cap_str_spec(c, 2) && opt_view(name) == cap_opt_spec(c, 4) })),
        r matches Some(Intent::TazamaTimeline { action, clip_id, position }) ==> (({ let c = caps(m, "tazama_timeline"@); matched(m, "tazama_timeline"@) && action@ == cap_str_spec(c, 1) && opt_view(clip_id) == cap_opt_spec(c, 4) && opt_view(position) == cap_decimal_spec(c, 6) })),
        r matches Some(Intent::TazamaEffects { action, effect_type, clip_id }) ==> (({ let c = caps(m, "tazama_effects"@); matched(m, "tazama_effects"@) && action@ == cap_str_spec(c, 1) && opt_view(effect_type) == cap_opt_spec(c, 4) && opt_view(clip_id) == cap_opt_spec(c, 6) })),
        r matches Some(Intent::TazamaAi { action, options }) ==> (({ let c = caps(m, "tazama_ai"@); matched(m, "tazama_ai"@) && action@ == cap_word_spec(c, 1) && opt_view(options) == cap_opt_spec(c, 3) })),
        r matches Some(Intent::TazamaExport { path, format }) ==> (({ let c = caps(m, "tazama_export"@); matched(m, "tazama_export"@) && opt_view(path) == cap_opt_spec(c, 1) && opt_view(format) == cap_opt_spec(c, 3) })),
        r matches Some(Intent::TazamaMedia { action, path }) ==> (({ let c = caps(m, "tazama_media"@); matched(m, "tazama_media"@) && action@ == cap_str_spec(c, 2) && opt_view(path) == cap_opt_spec(c, 4) })),
        r matches Some(Intent::TazamaSubtitles { action, language }) ==> (({ let c = caps(m, "tazama_subtitles"@); matched(m, "tazama_subtitles"@) && action@ == cap_str_spec(c, 2) && opt_view(language) == cap_opt_spec(c, 4) })),
{
}

// --- Rasa image editor ---

/// Whether the `rasa_canvas` pattern matched with what its request needs.
pub open spec fn rasa_canvas_fires(m: Found) -> bool {
    let c = caps(m, "rasa_canvas"@);
    &&& matched(m, "rasa_canvas"@)
    &&& cap_str_spec(c, 2).len() > 0
}

/// The request that the `rasa_canvas` pattern gives.
pub open spec fn rasa_canvas_gives(m: Found, r: Intent) -> bool {
    let c = caps(m, "rasa_canvas"@);
    &&& r matches Intent::RasaCanvas { action, name }
    &&& action@ == cap_str_spec(c, 2)
    &&& opt_view(name) == cap_opt_spec(c, 4)
}

/// Whether the `rasa_layers` pattern matched with what its request needs.
pub open spec fn rasa_layers_fires(m: Found) -> bool {
    let c = caps(m, "rasa_layers"@);
    &&& matched(m, "rasa_layers"@)
    &&& cap_str_spec(c, 1).len() > 0
}

/// The request that the `rasa_layers` pattern gives.
pub open spec fn rasa_layers_gives(m: Found, r: Intent) -> bool {
    let c = caps(m, "rasa_layers"@);
    &&& r matches Intent::RasaLayers { action, name, kind }
    &&& action@ == cap_str_spec(c, 1)
    &&& opt_view(name) == cap_opt_spec(c, 4)
    &&& opt_view(kind) == cap_opt_spec(c, 6)
}

/// Whether the `rasa_tools` pattern matched with what its request needs.
pub open spec fn rasa_tools_fires(m: Found) -> bool {
    let c = caps(m, "rasa_tools"@);
    &&& matched(m, "rasa_tools"@)
    &&& cap_str_spec(c, 1).len() > 0
}

/// The request that the `rasa_tools` pattern gives.
pub open spec fn rasa_tools_gives(m: Found, r: Intent) -> bool {
    let c = caps(m, "rasa_tools"@);
    &&& r matches Intent::RasaTools { action, params }
    &&& action@ == cap_str_spec(c, 1)
    &&& opt_view(params) == cap_opt_spec(c, 3)
}

/// Whether the `rasa_ai` pattern matched with what its request needs.
pub open spec fn rasa_ai_fires(m: Found) -> bool {
    let c = caps(m, "rasa_ai"@);
    &&& matched(m, "rasa_ai"@)
    &&& cap_word_spec(c, 1).len() > 0
}

/// The request that the `rasa_ai` pattern gives.
pub open spec fn rasa_ai_gives(m: Found, r: Intent) -> bool {
    let c = caps(m, "rasa_ai"@);
    &&& r matches Intent::RasaAi { action, prompt }
    &&& action@ == cap_word_spec(c, 1)
    &&& opt_view(prompt) == cap_opt_spec(c, 3)
}

/// Whether the `rasa_export` pattern matched.
pub open spec fn rasa_export_fires(m: Found) -> bool {
    matched(m, "rasa_export"@)
}

/// The request that the `rasa_export` pattern gives.
pub open spec fn rasa_export_gives(m: Found, r: Intent) -> bool {
    let c = caps(m, "rasa_export"@);
    &&& r matches Intent::RasaExport { path, format }
    &&& opt_view(path) == cap_opt_spec(c, 1)
    &&& opt_view(format) == cap_opt_spec(c, 3)
}

/// Whether the `rasa_batch` pattern matched with what its request needs.
pub open spec fn rasa_batch_fires(m: Found) -> bool {
    let c = caps(m, "rasa_batch"@);
    &&& matched(m, "rasa_batch"@)
    &&& cap_str_spec(c, 1).len() > 0
}

/// The request that the `rasa_batch` pattern gives.
pub open spec fn rasa_batch_gives(m: Found, r: Intent) -> bool {
    let c = caps(m, "rasa_batch"@);
    &&& r matches Intent::RasaBatch { action, path }
    &&& action@ == cap_str_spec(c, 1)
    &&& opt_view(path) == cap_opt_spec(c, 3)
}

/// Whether the `rasa_templates` pattern matched with what its request needs.
pub open spec fn rasa_templates_fires(m: Found) -> bool {
    let c = caps(m, "rasa_templates"@);
    &&& matched(m, "rasa_templates"@)
    &&& cap_str_spec(c, 2).len() > 0
}

/// The request that the `rasa_templates` pattern gives.
pub open spec fn rasa_templates_gives(m: Found, r: Intent) -> bool {
    let c = caps(m, "rasa_templates"@);
    &&& r matches Intent::RasaTemplates { action, name }
    &&& action@ == cap_str_spec(c, 2)
    &&& opt_view(name) == cap_opt_spec(c, 4)
}

/// Whether the `rasa_adjustments` pattern matched with what its request needs.
pub open spec fn rasa_adjustments_fires(m: Found) -> bool {
    let c = caps(m, "rasa_adjustments"@);
    &&& matched(m, "rasa_adjustments"@)
    &&& cap_str_spec(c, 2).len() > 0
}

/// The request that the `rasa_adjustments` pattern gives.
pub open spec fn rasa_adjustments_gives(m: Found, r: Intent) -> bool {
    let c = caps(m, "rasa_adjustments"@);
    &&& r matches Intent::RasaAdjustments { action, adjustment_type }
    &&& action@ == cap_str_spec(c, 2)
    &&& opt_view(adjustment_type) == cap_opt_spec(c, 4)
}

/// Whether one of the Rasa image editor patterns gives a request.
pub open spec fn rasa_fires(m: Found) -> bool {
    ||| rasa_canvas_fires(m)
    ||| rasa_layers_fires(m)
    ||| rasa_tools_fires(m)
    ||| rasa_ai_fires(m)
    ||| rasa_export_fires(m)
    ||| rasa_batch_fires(m)
    ||| rasa_templates_fires(m)
    ||| rasa_adjustments_fires(m)
}

/// The request of the first Rasa image editor pattern that gives one, in the order they
/// are tried; `None` where none does.
pub open spec fn rasa_result(m: Found, r: Option<Intent>) -> bool {
    if rasa_canvas_fires(m) {
        r matches Some(i) && rasa_canvas_gives(m, i)
    } else if rasa_layers_fires(m) {
        r matches Some(i) && rasa_layers_gives(m, i)
    } else if rasa_tools_fires(m) {
        r matches Some(i) && rasa_tools_gives(m, i)
    } else if rasa_ai_fires(m) {
        r matches Some(i) && rasa_ai_gives(m, i)
    } else if rasa_export_fires(m) {
        r matches Some(i) && rasa_export_gives(m, i)
    } else if rasa_batch_fires(m) {
        r matches Some(i) && rasa_batch_gives(m, i)
    } else if rasa_templates_fires(m) {
        r matches Some(i) && rasa_templates_gives(m, i)
    } else if rasa_adjustments_fires(m) {
        r matches Some(i) && rasa_adjustments_gives(m, i)
    } else {
        r is None
    }
}

fn parse_rasa(lower: &PatternMatches) -> (r: Option<Intent>)
    ensures
        rasa_result(lower@, r),
        r is Some <==> rasa_fires(lower@),
{
    match lower.try_captures("rasa_canvas") {
        Some(c) => {
            let action = cap_str(c, 2);
            let name = cap_opt(c, 4);
            if !action.as_str().is_empty() {
                return Some(Intent::RasaCanvas { action, name });
            }
        },
        None => {},
    }
    match lower.try_captures("rasa_layers") {
        Some(c) => {
            let action = cap_str(c, 1);
            let name = cap_opt(c, 4);
            let kind = cap_opt(c, 6);
            if !action.as_str().is_empty() {
                return Some(Intent::RasaLayers { action, name, kind });
            }
        },
        None => {},
    }
    match lower.try_captures("rasa_tools") {
        Some(c) => {
            let action = cap_str(c, 1);
            let params = cap_opt(c, 3);
            if !action.as_str().is_empty() {
                return Some(Intent::RasaTools { action, params });
            }
        },
        None => {},
    }
    match lower.try_captures("rasa_ai") {
        Some(c) => {
            let action = cap_word(c, 1);
            let prompt = cap_opt(c, 3);
            if !action.as_str().is_empty() {
                return Some(Intent::RasaAi { action, prompt });
            }
        },
        None => {},
    }
    match lower.try_captures("rasa_export") {
        Some(c) => {
            let path = cap_opt(c, 1);
            let format = cap_opt(c, 3);
            return Some(Intent::RasaExport { path, format });
        },
        None => {},
    }
    match lower.try_captures("rasa_batch") {
        Some(c) => {
            let action = cap_str(c, 1);
            let path = cap_opt(c, 3);
            if !action.as_str().is_empty() {
                return Some(Intent::RasaBatch { action, path });
            }
        },
        None => {},
    }
    match lower.try_captures("rasa_templates") {
        Some(c) => {
            let action = cap_str(c, 2);
            let name = cap_opt(c, 4);
            if !action.as_str().is_empty() {
                return Some(Intent::RasaTemplates { action, name });
            }
        },
        None => {},
    }
    match lower.try_captures("rasa_adjustments") {
        Some(c) => {
            let action = cap_str(c, 2);
            let adjustment_type = cap_opt(c, 4);
            if !action.as_str().is_empty() {
                return Some(Intent::RasaAdjustments { action, adjustment_type });
            }
        },
        None => {},
    }
    None
}

proof fn lemma_rasa_requests_accepted(m: Found, r: Option<Intent>)
    requires
        rasa_result(m, r),
    ensures
        r matches Some(i) ==> crate::translate::rasa::is_rasa_intent(&i),
{
}

proof fn lemma_rasa_carries_groups(m: Found, r: Option<Intent>)
    requires
        rasa_result(m, r),
    ensures
        r matches Some(i) ==> (i is RasaCanvas || i is RasaLayers || i is RasaTools || i is RasaAi || i is RasaExport || i is RasaBatch || i is RasaTemplates || i is RasaAdjustments),
        r matches Some(Intent::RasaCanvas { action, name }) ==> (({ let c = caps(m, "rasa_canvas"@); matched(m, "rasa_canvas"@) && action@ == cap_str_spec(c, 2) && opt_view(name) == cap_opt_spec(c, 4) })),
        r matches Some(Intent::RasaLayers { action, name, kind }) ==> (({ let c = caps(m, "rasa_layers"@); matched(m, "rasa_layers"@) && action@ == cap_str_spec(c, 1) && opt_view(name) == cap_opt_spec(c, 4) && opt_view(kind) == cap_opt_spec(c, 6) })),
        r matches Some(Intent::RasaTools { action, params }) ==> (({ let c = caps(m, "rasa_tools"@); matched(m, "rasa_tools"@) && action@ == cap_str_spec(c, 1) && opt_view(params) == cap_opt_spec(c, 3) })),
        r matches Some(Intent::RasaAi { action, prompt }) ==> (({ let c = caps(m, "rasa_ai"@); matched(m, "rasa_ai"@) && action@ == cap_word_spec(c, 1) && opt_view(prompt) == cap_opt_spec(c, 3) })),
        r matches Some(Intent::RasaExport { path, format }) ==> (({ let c = caps(m, "rasa_export"@); matched(m, "rasa_export"@) && opt_view(path) == cap_opt_spec(c, 1) && opt_view(format) == cap_opt_spec(c, 3) })),
        r matches Some(Intent::RasaBatch { action, path }) ==> (({ let c = caps(m, "rasa_batch"@); matched(m, "rasa_batch"@) && action@ == cap_str_spec(c, 1) && opt_view(path) == cap_opt_spec(c, 3) })),
        r matches Some(Intent::RasaTemplates { action, name }) ==> (({ let c = caps(m, "rasa_templates"@); matched(m, "rasa_templates"@) && action@ == cap_str_spec(c, 2) && opt_view(name) == cap_opt_spec(c, 4) })),
        r matches Some(Intent::RasaAdjustments { action, adjustment_type }) ==> (({ let c = caps(m, "rasa_adjustments"@); matched(m, "rasa_adjustments"@) && action@ == cap_str_spec(c, 2) && opt_view(adjustment_type) == cap_opt_spec(c, 4) })),
{
}

// --- Mneme knowledge base ---

/// Whether the `mneme_notebook` pattern matched with what its request needs.
pub open spec fn mneme_notebook_fires(m: Found) -> bool {
    let c = caps(m, "mneme_notebook"@);
    &&& matched(m, "mneme_notebook"@)
    &&& cap_str_spec(c, 2).len() > 0
}

/// The request that the `mneme_notebook` pattern gives.
pub open spec fn mneme_notebook_gives(m: Found, r: Intent) -> bool {
    let c = caps(m, "mneme_notebook"@);
    &&& r matches Intent::MnemeNotebook { action, name }
    &&& action@ == cap_str_spec(c, 2)
    &&& opt_view(name) == cap_opt_spec(c, 4)
}

/// Whether the `mneme_notes` pattern matched with what its request needs.
pub open spec fn mneme_notes_fires(m: Found) -> bool {
    let c = caps(m, "mneme_notes"@);
    &&& matched(m, "mneme_notes"@)
    &&& cap_str_spec(c, 1).len() > 0
}

/// The request that the `mneme_notes` pattern gives.
pub open spec fn mneme_notes_gives(m: Found, r: Intent) -> bool {
    let c = caps(m, "mneme_notes"@);
    &&& r matches Intent::MnemeNotes { action, title, notebook_id }
    &&& action@ == cap_str_spec(c, 1)
    &&& opt_view(title) == cap_opt_spec(c, 4)
    &&& opt_view(notebook_id) == cap_opt_spec(c, 6)
}

/// Whether the `mneme_search` pattern matched with what its request needs.
pub open spec fn mneme_search_fires(m: Found) -> bool {
    let c = caps(m, "mneme_search"@);
    &&& matched(m, "mneme_search"@)
    &&& cap_str_spec(c, 1).len() > 0
}

/// The request that the `mneme_search` pattern gives.
pub open spec fn mneme_search_gives(m: Found, r: Intent) -> bool {
    let c = caps(m, "mneme_search"@);
    &&& r matches Intent::MnemeSearch { query, mode }
    &&& query@ == cap_str_spec(c, 1)
    &&& opt_view(mode) == cap_opt_spec(c, 3)
}

/// Whether the `mneme_ai` pattern matched with what its request needs.
pub open spec fn mneme_ai_fires(m: Found) -> bool {
    let c = caps(m, "mneme_ai"@);
    &&& matched(m, "mneme_ai"@)
    &&& cap_word_spec(c, 1).len() > 0
}

/// The request that the `mneme_ai` pattern gives.
pub open spec fn mneme_ai_gives(m: Found, r: Intent) -> bool {
    let c = caps(m, "mneme_ai"@);
    &&& r matches Intent::MnemeAi { action, note_id }
    &&& action@ == cap_word_spec(c, 1)
    &&& opt_view(note_id) == cap_opt_spec(c, 3)
}

/// Whether the `mneme_graph` pattern matched with what its request needs.
pub open spec fn mneme_graph_fires(m: Found) -> bool {
    let c = caps(m, "mneme_graph"@);
    &&& matched(m, "mneme_graph"@)
    &&& cap_word_spec(c, 1).len() > 0
}

/// The request that the `mneme_graph` pattern gives.
pub open spec fn mneme_graph_gives(m: Found, r: Intent) -> bool {
    let c = caps(m, "mneme_graph"@);
    &&& r matches Intent::MnemeGraph { action, node_id }
    &&& action@ == cap_word_spec(c, 1)
    &&& opt_view(node_id) == cap_opt_spec(c, 3)
}

/// Whether the `mneme_import` pattern matched with what its request needs.
pub open spec fn mneme_import_fires(m: Found) -> bool {
    let c = caps(m, "mneme_import"@);
    &&& matched(m, "mneme_import"@)
    &&& cap_str_spec(c, 1).len() > 0
}

/// The request that the `mneme_import` pattern gives.
pub open spec fn mneme_import_gives(m: Found, r: Intent) -> bool {
    let c = caps(m, "mneme_import"@);
    &&& r matches Intent::MnemeImport { action, path }
    &&& action@ == cap_str_spec(c, 1)
    &&& opt_view(path) == cap_opt_spec(c, 3)
}

/// Whether the `mneme_tags` pattern matched with what its request needs.
pub open spec fn mneme_tags_fires(m: Found) -> bool {
    let c = caps(m, "mneme_tags"@);
    &&& matched(m, "mneme_tags"@)
    &&& cap_str_spec(c, 2).len() > 0
}

/// The request that the `mneme_tags` pattern gives.
pub open spec fn mneme_tags_gives(m: Found, r: Intent) -> bool {
    let c = caps(m, "mneme_tags"@);
    &&& r matches Intent::MnemeTags { action, tag }
    &&& action@ == cap_str_spec(c, 2)
    &&& opt_view(tag) == cap_opt_spec(c, 4)
}

/// Whether one of the Mneme knowledge base patterns gives a request.
pub open spec fn mneme_fires(m: Found) -> bool {
    ||| mneme_notebook_fires(m)
    ||| mneme_notes_fires(m)
    ||| mneme_search_fires(m)
    ||| mneme_ai_fires(m)
    ||| mneme_graph_fires(m)
    ||| mneme_import_fires(m)
    ||| mneme_tags_fires(m)
}

/// The request of the first Mneme knowledge base pattern that gives one, in the order they
/// are tried; `None` where none does.
pub open spec fn mneme_result(m: Found, r: Option<Intent>) -> bool {
    if mneme_notebook_fires(m) {
        r matches Some(i) && mneme_notebook_gives(m, i)
    } else if mneme_notes_fires(m) {
        r matches Some(i) && mneme_notes_gives(m, i)
    } else if mneme_search_fires(m) {
        r matches Some(i) && mneme_search_gives(m, i)
    } else if mneme_ai_fires(m) {
        r matches Some(i) && mneme_ai_gives(m, i)
    } else if mneme_graph_fires(m) {
        r matches Some(i) && mneme_graph_gives(m, i)
    } else if mneme_import_fires(m) {
        r matches Some(i) && mneme_import_gives(m, i)
    } else if mneme_tags_fires(m) {
        r matches Some(i) && mneme_tags_gives(m, i)
    } else {
        r is None
    }
}

fn parse_mneme(lower: &PatternMatches) -> (r: Option<Intent>)
    ensures
        mneme_result(lower@, r),
        r is Some <==> mneme_fires(lower@),
{
    match lower.try_captures("mneme_notebook") {
        Some(c) => {
            let action = cap_str(c, 2);
            let name = cap_opt(c, 4);
            if !action.as_str().is_empty() {
                return Some(Intent::MnemeNotebook { action, name });
            }
        },
        None => {},
    }
    match lower.try_captures("mneme_notes") {
        Some(c) => {
            let action = cap_str(c, 1);
            let title = cap_opt(c, 4);
            let notebook_id = cap_opt(c, 6);
            if !action.as_str().is_empty() {
                return Some(Intent::MnemeNotes { action, title, notebook_id });
            }
        },
        None => {},
    }
    match lower.try_captures("mneme_search") {
        Some(c) => {
            let query = cap_str(c, 1);
            let mode = cap_opt(c, 3);
            if !query.as_str().is_empty() {
                return Some(Intent::MnemeSearch { query, mode });
            }
        },
        None => {},
    }
    match lower.try_captures("mneme_ai") {
        Some(c) => {
            let action = cap_word(c, 1);
            let note_id = cap_opt(c, 3);
            if !action.as_str().is_empty() {
                return Some(Intent::MnemeAi { action, note_id });
            }
        },
        None => {},
    }
    match lower.try_captures("mneme_graph") {
        Some(c) => {
            let action = cap_word(c, 1);
            let node_id = cap_opt(c, 3);
            if !action.as_str().is_empty() {
                return Some(Intent::MnemeGraph { action, node_id });
            }
        },
        None => {},
    }
    match lower.try_captures("mneme_import") {
        Some(c) => {
            let action = cap_str(c, 1);
            let path = cap_opt(c, 3);
            if !action.as_str().is_empty() {
                return Some(Intent::MnemeImport { action, path });
            }
        },
        None => {},
    }
    match lower.try_captures("mneme_tags") {
        Some(c) => {
            let action = cap_str(c, 2);
            let tag = cap_opt(c, 4);
            if !action.as_str().is_empty() {
                return Some(Intent::MnemeTags { action, tag });
            }
        },
        None => {},
    }
    None
}

proof fn lemma_mneme_requests_accepted(m: Found, r: Option<Intent>)
    requires
        mneme_result(m, r),
    ensures
        r matches Some(i) ==> crate::translate::mneme::is_mneme_intent(&i),
{
}

proof fn lemma_mneme_carries_groups(m: Found, r: Option<Intent>)
    requires
        mneme_result(m, r),
    ensures
        r matches Some(i) ==> (i is MnemeNotebook || i is MnemeNotes || i is MnemeSearch || i is MnemeAi || i is MnemeGraph || i is MnemeImport || i is MnemeTags),
        r matches Some(Intent::MnemeNotebook { action, name }) ==> (({ let c = caps(m, "mneme_notebook"@); matched(m, "mneme_notebook"@) && action@ == cap_str_spec(c, 2) && opt_view(name) == cap_opt_spec(c, 4) })),
        r matches Some(Intent::MnemeNotes { action, title, notebook_id }) ==> (({ let c = caps(m, "mneme_notes"@); matched(m, "mneme_notes"@) && action@ == cap_str_spec(c, 1) && opt_view(title) == cap_opt_spec(c, 4) && opt_view(notebook_id) == cap_opt_spec(c, 6) })),
        r matches Some(Intent::MnemeSearch { query, mode }) ==> (({ let c = caps(m, "mneme_search"@); matched(m, "mneme_search"@) && query@ == cap_str_spec(c, 1) && opt_view(mode) == cap_opt_spec(c, 3) })),
        r matches Some(Intent::MnemeAi { action, note_id }) ==> (({ let c = caps(m, "mneme_ai"@); matched(m, "mneme_ai"@) && action@ == cap_word_spec(c, 1) && opt_view(note_id) == cap_opt_spec(c, 3) })),
        r matches Some(Intent::MnemeGraph { action, node_id }) ==> (({ let c = caps(m, "mneme_graph"@); matched(m, "mneme_graph"@) && action@ == cap_word_spec(c, 1) && opt_view(node_id) == cap_opt_spec(c, 3) })),
        r matches Some(Intent::MnemeImport { action, path }) ==> (({ let c = caps(m, "mneme_import"@); matched(m, "mneme_import"@) && action@ == cap_str_spec(c, 1) && opt_view(path) == cap_opt_spec(c, 3) })),
        r matches Some(Intent::MnemeTags { action, tag }) ==> (({ let c = caps(m, "mneme_tags"@); matched(m, "mneme_tags"@) && action@ == cap_str_spec(c, 2) && opt_view(tag) == cap_opt_spec(c, 4) })),
{
}

// --- Tarang media framework ---

/// Whether the `tarang_probe` pattern matched with what its request needs.
pub open spec fn tarang_probe_fires(m: Found) -> bool {
    let c = caps(m, "tarang_probe"@);
    &&& matched(m, "tarang_probe"@)
    &&& cap_str_spec(c, 1).len() > 0
}

/// The request that the `tarang_probe` pattern gives.
pub open spec fn tarang_probe_gives(m: Found, r: Intent) -> bool {
    let c = caps(m, "tarang_probe"@);
    &&& r matches Intent::TarangProbe { path }
    &&& path@ == cap_str_spec(c, 1)
}

/// Whether the `tarang_analyze` pattern matched with what its request needs.
pub open spec fn tarang_analyze_fires(m: Found) -> bool {
    let c = caps(m, "tarang_analyze"@);
    &&& matched(m, "tarang_analyze"@)
    &&& cap_str_spec(c, 1).len() > 0
}

/// The request that the `tarang_analyze` pattern gives.
pub open spec fn tarang_analyze_gives(m: Found, r: Intent) -> bool {
    let c = caps(m, "tarang_analyze"@);
    &&& r matches Intent::TarangAnalyze { path }
    &&& path@ == cap_str_spec(c, 1)
}

/// Whether the `tarang_codecs` pattern matched.
pub open spec fn tarang_codecs_fires(m: Found) -> bool {
    matched(m, "tarang_codecs"@)
}

/// The request that the `tarang_codecs` pattern gives.
pub open spec fn tarang_codecs_gives(m: Found, r: Intent) -> bool {
    r is TarangCodecs
}

/// Whether the `tarang_transcribe` pattern matched with what its request needs.
pub open spec fn tarang_transcribe_fires(m: Found) -> bool {
    let c = caps(m, "tarang_transcribe"@);
    &&& matched(m, "tarang_transcribe"@)
    &&& cap_str_spec(c, 1).len() > 0
}

/// The request that the `tarang_transcribe` pattern gives.
pub open spec fn tarang_transcribe_gives(m: Found, r: Intent) -> bool {
    let c = caps(m, "tarang_transcribe"@);
    &&& r matches Intent::TarangTranscribe { path, language }
    &&& path@ == cap_str_spec(c, 1)
    &&& opt_view(language) == cap_opt_spec(c, 2)
}

/// Whether the `tarang_formats` pattern matched with what its request needs.
pub open spec fn tarang_formats_fires(m: Found) -> bool {
    let c = caps(m, "tarang_formats"@);
    &&& matched(m, "tarang_formats"@)
    &&& cap_str_spec(c, 1).len() > 0
}

/// The request that the `tarang_formats` pattern gives.
pub open spec fn tarang_formats_gives(m: Found, r: Intent) -> bool {
    let c = caps(m, "tarang_formats"@);
    &&& r matches Intent::TarangFormats { path }
    &&& path@ == cap_str_spec(c, 1)
}

/// Whether the `tarang_fingerprint_index` pattern matched with what its request needs.
pub open spec fn tarang_fingerprint_index_fires(m: Found) -> bool {
    let c = caps(m, "tarang_fingerprint_index"@);
    &&& matched(m, "tarang_fingerprint_index"@)
    &&& cap_str_spec(c, 1).len() > 0
}

/// The request that the `tarang_fingerprint_index` pattern gives.
pub open spec fn tarang_fingerprint_index_gives(m: Found, r: Intent) -> bool {
    let c = caps(m, "tarang_fingerprint_index"@);
    &&& r matches Intent::TarangFingerprintIndex { path }
    &&& path@ == cap_str_spec(c, 1)
}

/// Whether the `tarang_search_similar` pattern matched with what its request needs.
pub open spec fn tarang_search_similar_fires(m: Found) -> bool {
    let c = caps(m, "tarang_search_similar"@);
    &&& matched(m, "tarang_search_similar"@)
    &&& cap_str_spec(c, 1).len() > 0
}

/// The request that the `tarang_search_similar` pattern gives.
pub open spec fn tarang_search_similar_gives(m: Found, r: Intent) -> bool {
    let c = caps(m, "tarang_search_similar"@);
    &&& r matches Intent::TarangSearchSimilar { path, top_k }
    &&& path@ == cap_str_spec(c, 1)
    &&& top_k is None
}

/// Whether the `tarang_describe` pattern matched with what its request needs.
pub open spec fn tarang_describe_fires(m: Found) -> bool {
    let c = caps(m, "tarang_describe"@);
    &&& matched(m, "tarang_describe"@)
    &&& cap_str_spec(c, 1).len() > 0
}

/// The request that the `tarang_describe` pattern gives.
pub open spec fn tarang_describe_gives(m: Found, r: Intent) -> bool {
    let c = caps(m, "tarang_describe"@);
    &&& r matches Intent::TarangDescribe { path }
    &&& path@ == cap_str_spec(c, 1)
}

/// Whether one of the Tarang media framework patterns gives a request.
pub open spec fn tarang_fires(m: Found) -> bool {
    ||| tarang_probe_fires(m)
    ||| tarang_analyze_fires(m)
    ||| tarang_codecs_fires(m)
    ||| tarang_transcribe_fires(m)
    ||| tarang_formats_fires(m)
    ||| tarang_fingerprint_index_fires(m)
    ||| tarang_search_similar_fires(m)
    ||| tarang_describe_fires(m)
}

/// The request of the first Tarang media framework pattern that gives one, in the order they
/// are tried; `None` where none does.
pub open spec fn tarang_result(m: Found, r: Option<Intent>) -> bool {
    if tarang_probe_fires(m) {
        r matches Some(i) && tarang_probe_gives(m, i)
    } else if tarang_analyze_fires(m) {
        r matches Some(i) && tarang_analyze_gives(m, i)
    } else if tarang_codecs_fires(m) {
        r matches Some(i) && tarang_codecs_gives(m, i)
    } else if tarang_transcribe_fires(m) {
        r matches Some(i) && tarang_transcribe_gives(m, i)
    } else if tarang_formats_fires(m) {
        r matches Some(i) && tarang_formats_gives(m, i)
    } else if tarang_fingerprint_index_fires(m) {
        r matches Some(i) && tarang_fingerprint_index_gives(m, i)
    } else if tarang_search_similar_fires(m) {
        r matches Some(i) && tarang_search_similar_gives(m, i)
    } else if tarang_describe_fires(m) {
        r matches Some(i) && tarang_describe_gives(m, i)
    } else {
        r is None
    }
}

fn parse_tarang(lower: &PatternMatches) -> (r: Option<Intent>)
    ensures
        tarang_result(lower@, r),
        r is Some <==> tarang_fires(lower@),
{
    match lower.try_captures("tarang_probe") {
        Some(c) => {
            let path = cap_str(c, 1);
            if !path.as_str().is_empty() {
                return Some(Intent::TarangProbe { path });
            }
        },
        None => {},
    }
    match lower.try_captures("tarang_analyze") {
        Some(c) => {
            let path = cap_str(c, 1);
            if !path.as_str().is_empty() {
                return Some(Intent::TarangAnalyze { path });
            }
        },
        None => {},
    }
    match lower.try_captures("tarang_codecs") {
        Some(_) => {
            return Some(Intent::TarangCodecs);
        },
        None => {},
    }
    match lower.try_captures("tarang_transcribe") {
        Some(c) => {
            let path = cap_str(c, 1);
            let language = cap_opt(c, 2);
            if !path.as_str().is_empty() {
                return Some(Intent::TarangTranscribe { path, language });
            }
        },
        None => {},
    }
    match lower.try_captures("tarang_formats") {
        Some(c) => {
            let path = cap_str(c, 1);
            if !path.as_str().is_empty() {
                return Some(Intent::TarangFormats { path });
            }
        },
        None => {},
    }
    match lower.try_captures("tarang_fingerprint_index") {
        Some(c) => {
            let path = cap_str(c, 1);
            if !path.as_str().is_empty() {
                return Some(Intent::TarangFingerprintIndex { path });
            }
        },
        None => {},
    }
    match lower.try_captures("tarang_search_similar") {
        Some(c) => {
            let path = cap_str(c, 1);
            let top_k = None;
            if !path.as_str().is_empty() {
                return Some(Intent::TarangSearchSimilar { path, top_k });
            }
        },
        None => {},
    }
    match lower.try_captures("tarang_describe") {
        Some(c) => {
            let path = cap_str(c, 1);
            if !path.as_str().is_empty() {
                return Some(Intent::TarangDescribe { path });
            }
        },
        None => {},
    }
    None
}

/// Whether `i` is a Tarang media framework request.
pub open spec fn is_tarang_request(i: Intent) -> bool {
    ||| i is TarangProbe
    ||| i is TarangAnalyze
    ||| i is TarangCodecs
    ||| i is TarangTranscribe
    ||| i is TarangFormats
    ||| i is TarangFingerprintIndex
    ||| i is TarangSearchSimilar
    ||| i is TarangDescribe
}

proof fn lemma_tarang_requests_accepted(m: Found, r: Option<Intent>)
    requires
        tarang_result(m, r),
    ensures
        r matches Some(i) ==> is_tarang_request(i),
{
}

proof fn lemma_tarang_carries_groups(m: Found, r: Option<Intent>)
    requires
        tarang_result(m, r),
    ensures
        r matches Some(i) ==> (i is TarangProbe || i is TarangAnalyze || i is TarangCodecs || i is TarangTranscribe || i is TarangFormats || i is TarangFingerprintIndex || i is TarangSearchSimilar || i is TarangDescribe),
        r matches Some(Intent::TarangProbe { path }) ==> (({ let c = caps(m, "tarang_probe"@); matched(m, "tarang_probe"@) && path@ == cap_str_spec(c, 1) })),
        r matches Some(Intent::TarangAnalyze { path }) ==> (({ let c = caps(m, "tarang_analyze"@); matched(m, "tarang_analyze"@) && path@ == cap_str_spec(c, 1) })),
        r matches Some(Intent::TarangCodecs) ==> (({ let c = caps(m, "tarang_codecs"@); matched(m, "tarang_codecs"@) })),
        r matches Some(Intent::TarangTranscribe { path, language }) ==> (({ let c = caps(m, "tarang_transcribe"@); matched(m, "tarang_transcribe"@) && path@ == cap_str_spec(c, 1) && opt_view(language) == cap_opt_spec(c, 2) })),
        r matches Some(Intent::TarangFormats { path }) ==> (({ let c = caps(m, "tarang_formats"@); matched(m, "tarang_formats"@) && path@ == cap_str_spec(c, 1) })),
        r matches Some(Intent::TarangFingerprintIndex { path }) ==> (({ let c = caps(m, "tarang_fingerprint_index"@); matched(m, "tarang_fingerprint_index"@) && path@ == cap_str_spec(c, 1) })),
        r matches Some(Intent::TarangSearchSimilar { path, top_k }) ==> (({ let c = caps(m, "tarang_search_similar"@); matched(m, "tarang_search_similar"@) && path@ == cap_str_spec(c, 1) && top_k is None })),
        r matches Some(Intent::TarangDescribe { path }) ==> (({ let c = caps(m, "tarang_describe"@); matched(m, "tarang_describe"@) && path@ == cap_str_spec(c, 1) })),
{
}

// --- Jalwa media player ---

/// Whether the `jalwa_play` pattern matched with what its request needs.
pub open spec fn jalwa_play_fires(m: Found) -> bool {
    let c = caps(m, "jalwa_play"@);
    &&& matched(m, "jalwa_play"@)
    &&& cap_str_spec(c, 1).len() > 0
}

/// The request that the `jalwa_play` pattern gives.
pub open spec fn jalwa_play_gives(m: Found, r: Intent) -> bool {
    let c = caps(m, "jalwa_play"@);
    &&& r matches Intent::JalwaPlay { path }
    &&& path@ == cap_str_spec(c, 1)
}

/// Whether the `jalwa_pause` pattern matched.
pub open spec fn jalwa_pause_fires(m: Found) -> bool {
    matched(m, "jalwa_pause"@)
}

/// The request that the `jalwa_pause` pattern gives.
pub open spec fn jalwa_pause_gives(m: Found, r: Intent) -> bool {
    r is JalwaPause
}

/// Whether the `jalwa_status` pattern matched.
pub open spec fn jalwa_status_fires(m: Found) -> bool {
    matched(m, "jalwa_status"@)
}

/// The request that the `jalwa_status` pattern gives.
pub open spec fn jalwa_status_gives(m: Found, r: Intent) -> bool {
    r is JalwaStatus
}

/// Whether the `jalwa_search` pattern matched with what its request needs.
pub open spec fn jalwa_search_fires(m: Found) -> bool {
    let c = caps(m, "jalwa_search"@);
    &&& matched(m, "jalwa_search"@)
    &&& cap_str_spec(c, 1).len() > 0
}

/// The request that the `jalwa_search` pattern gives.
pub open spec fn jalwa_search_gives(m: Found, r: Intent) -> bool {
    let c = caps(m, "jalwa_search"@);
    &&& r matches Intent::JalwaSearch { query }
    &&& query@ == cap_str_spec(c, 1)
}

/// Whether the `jalwa_recommend` pattern matched with what its request needs.
pub open spec fn jalwa_recommend_fires(m: Found) -> bool {
    let c = caps(m, "jalwa_recommend"@);
    &&& matched(m, "jalwa_recommend"@)
    &&& cap_str_spec(c, 1).len() > 0
}

/// The request that the `jalwa_recommend` pattern gives.
pub open spec fn jalwa_recommend_gives(m: Found, r: Intent) -> bool {
    let c = caps(m, "jalwa_recommend"@);
    &&& r matches Intent::JalwaRecommend { item_id, max }
    &&& item_id@ == cap_str_spec(c, 1)
    &&& max == cap_u32_spec(c, 2)
}

/// Whether the `jalwa_queue` pattern matched with what its request needs.
pub open spec fn jalwa_queue_fires(m: Found) -> bool {
    let c = caps(m, "jalwa_queue"@);
    &&& matched(m, "jalwa_queue"@)
    &&& cap_str_spec(c, 1).len() > 0
}

/// The request that the `jalwa_queue` pattern gives.
pub open spec fn jalwa_queue_gives(m: Found, r: Intent) -> bool {
    let c = caps(m, "jalwa_queue"@);
    &&& r matches Intent::JalwaQueue { action, item_id }
    &&& action@ == cap_str_spec(c, 1)
    &&& opt_view(item_id) == cap_opt_spec(c, 2)
}

/// Whether the `jalwa_library` pattern matched with what its request needs.
pub open spec fn jalwa_library_fires(m: Found) -> bool {
    let c = caps(m, "jalwa_library"@);
    &&& matched(m, "jalwa_library"@)
    &&& cap_str_spec(c, 1).len() > 0
}

/// The request that the `jalwa_library` pattern gives.
pub open spec fn jalwa_library_gives(m: Found, r: Intent) -> bool {
    let c = caps(m, "jalwa_library"@);
    &&& r matches Intent::JalwaLibrary { action, path }
    &&& action@ == cap_str_spec(c, 1)
    &&& opt_view(path) == cap_opt_spec(c, 2)
}

/// Whether the `jalwa_playlist` pattern matched with what its request needs.
pub open spec fn jalwa_playlist_fires(m: Found) -> bool {
    let c = caps(m, "jalwa_playlist"@);
    &&& matched(m, "jalwa_playlist"@)
    &&& cap_str_spec(c, 1).len() > 0
}

/// The request that the `jalwa_playlist` pattern gives.
pub open spec fn jalwa_playlist_gives(m: Found, r: Intent) -> bool {
    let c = caps(m, "jalwa_playlist"@);
    &&& r matches Intent::JalwaPlaylist { action, name, item_id }
    &&& action@ == cap_str_spec(c, 1)
    &&& opt_view(name) == cap_opt_spec(c, 2)
    &&& opt_view(item_id) == cap_opt_spec(c, 3)
}

/// Whether one of the Jalwa media player patterns gives a request.
pub open spec fn jalwa_fires(m: Found) -> bool {
    ||| jalwa_play_fires(m)
    ||| jalwa_pause_fires(m)
    ||| jalwa_status_fires(m)
    ||| jalwa_search_fires(m)
    ||| jalwa_recommend_fires(m)
    ||| jalwa_queue_fires(m)
    ||| jalwa_library_fires(m)
    ||| jalwa_playlist_fires(m)
}

/// The request of the first Jalwa media player pattern that gives one, in the order they
/// are tried; `None` where none does.
pub open spec fn jalwa_result(m: Found, r: Option<Intent>) -> bool {
    if jalwa_play_fires(m) {
        r matches Some(i) && jalwa_play_gives(m, i)
    } else if jalwa_pause_fires(m) {
        r matches Some(i) && jalwa_pause_gives(m, i)
    } else if jalwa_status_fires(m) {
        r matches Some(i) && jalwa_status_gives(m, i)
    } else if jalwa_search_fires(m) {
        r matches Some(i) && jalwa_search_gives(m, i)
    } else if jalwa_recommend_fires(m) {
        r matches Some(i) && jalwa_recommend_gives(m, i)
    } else if jalwa_queue_fires(m) {
        r matches Some(i) && jalwa_queue_gives(m, i)
    } else if jalwa_library_fires(m) {
        r matches Some(i) && jalwa_library_gives(m, i)
    } else if jalwa_playlist_fires(m) {
        r matches Some(i) && jalwa_playlist_gives(m, i)
    } else {
        r is None
    }
}

fn parse_jalwa(lower: &PatternMatches) -> (r: Option<Intent>)
    ensures
        jalwa_result(lower@, r),
        r is Some <==> jalwa_fires(lower@),
{
    match lower.try_captures("jalwa_play") {
        Some(c) => {
            let path = cap_str(c, 1);
            if !path.as_str().is_empty() {
                return Some(Intent::JalwaPlay { path });
            }
        },
        None => {},
    }
    match lower.try_captures("jalwa_pause") {
        Some(_) => {
            return Some(Intent::JalwaPause);
        },
        None => {},
    }
    match lower.try_captures("jalwa_status") {
        Some(_) => {
            return Some(Intent::JalwaStatus);
        },
        None => {},
    }
    match lower.try_captures("jalwa_search") {
        Some(c) => {
            let query = cap_str(c, 1);
            if !query.as_str().is_empty() {
                return Some(Intent::JalwaSearch { query });
            }
        },
        None => {},
    }
    match lower.try_captures("jalwa_recommend") {
        Some(c) => {
            let item_id = cap_str(c, 1);
            let max = cap_u32(c, 2);
            if !item_id.as_str().is_empty() {
                return Some(Intent::JalwaRecommend { item_id, max });
            }
        },
        None => {},
    }
    match lower.try_captures("jalwa_queue") {
        Some(c) => {
            let action = cap_str(c, 1);
            let item_id = cap_opt(c, 2);
            if !action.as_str().is_empty() {
                return Some(Intent::JalwaQueue { action, item_id });
            }
        },
        None => {},
    }
    match lower.try_captures("jalwa_library") {
        Some(c) => {
            let action = cap_str(c, 1);
            let path = cap_opt(c, 2);
            if !action.as_str().is_empty() {
                return Some(Intent::JalwaLibrary { action, path });
            }
        },
        None => {},
    }
    match lower.try_captures("jalwa_playlist") {
        Some(c) => {
            let action = cap_str(c, 1);
            let name = cap_opt(c, 2);
            let item_id = cap_opt(c, 3);
            if !action.as_str().is_empty() {
                return Some(Intent::JalwaPlaylist { action, name, item_id });
            }
        },
        None => {},
    }
    None
}

proof fn lemma_jalwa_requests_accepted(m: Found, r: Option<Intent>)
    requires
        jalwa_result(m, r),
    ensures
        r matches Some(i) ==> crate::translate::jalwa::is_jalwa_intent(&i),
{
}

proof fn lemma_jalwa_carries_groups(m: Found, r: Option<Intent>)
    requires
        jalwa_result(m, r),
    ensures
        r matches Some(i) ==> (i is JalwaPlay || i is JalwaPause || i is JalwaStatus || i is JalwaSearch || i is JalwaRecommend || i is JalwaQueue || i is JalwaLibrary || i is JalwaPlaylist),
        r matches Some(Intent::JalwaPlay { path }) ==> (({ let c = caps(m, "jalwa_play"@); matched(m, "jalwa_play"@) && path@ == cap_str_spec(c, 1) })),
        r matches Some(Intent::JalwaPause) ==> (({ let c = caps(m, "jalwa_pause"@); matched(m, "jalwa_pause"@) })),
        r matches Some(Intent::JalwaStatus) ==> (({ let c = caps(m, "jalwa_status"@); matched(m, "jalwa_status"@) })),
        r matches Some(Intent::JalwaSearch { query }) ==> (({ let c = caps(m, "jalwa_search"@); matched(m, "jalwa_search"@) && query@ == cap_str_spec(c, 1) })),
        r matches Some(Intent::JalwaRecommend { item_id, max }) ==> (({ let c = caps(m, "jalwa_recommend"@); matched(m, "jalwa_recommend"@) && item_id@ == cap_str_spec(c, 1) && max == cap_u32_spec(c, 2) })),
        r matches Some(Intent::JalwaQueue { action, item_id }) ==> (({ let c = caps(m, "jalwa_queue"@); matched(m, "jalwa_queue"@) && action@ == cap_str_spec(c, 1) && opt_view(item_id) == cap_opt_spec(c, 2) })),
        r matches Some(Intent::JalwaLibrary { action, path }) ==> (({ let c = caps(m, "jalwa_library"@); matched(m, "jalwa_library"@) && action@ == cap_str_spec(c, 1) && opt_view(path) == cap_opt_spec(c, 2) })),
        r matches Some(Intent::JalwaPlaylist { action, name, item_id }) ==> (({ let c = caps(m, "jalwa_playlist"@); matched(m, "jalwa_playlist"@) && action@ == cap_str_spec(c, 1) && opt_view(name) == cap_opt_spec(c, 2) && opt_view(item_id) == cap_opt_spec(c, 3) })),
{
}

// --- Synapse LLM management ---

/// Whether the `synapse_models` pattern matched with what its request needs.
pub open spec fn synapse_models_fires(m: Found) -> bool {
    let c = caps(m, "synapse_models"@);
    &&& matched(m, "synapse_models"@)
    &&& cap_str_spec(c, 2).len() > 0
}

/// The request that the `synapse_models` pattern gives.
pub open spec fn synapse_models_gives(m: Found, r: Intent) -> bool {
    let c = caps(m, "synapse_models"@);
    &&& r matches Intent::SynapseModels { action, name, source }
    &&& action@ == cap_str_spec(c, 2)
    &&& opt_view(name) == cap_opt_spec(c, 4)
    &&& opt_view(source) == cap_opt_spec(c, 6)
}

/// Whether the `synapse_serve` pattern matched with what its request needs.
pub open spec fn synapse_serve_fires(m: Found) -> bool {
    let c = caps(m, "synapse_serve"@);
    &&& matched(m, "synapse_serve"@)
    &&& cap_str_spec(c, 2).len() > 0
}

/// The request that the `synapse_serve` pattern gives.
pub open spec fn synapse_serve_gives(m: Found, r: Intent) -> bool {
    let c = caps(m, "synapse_serve"@);
    &&& r matches Intent::SynapseServe { action, model }
    &&& action@ == cap_str_spec(c, 2)
    &&& opt_view(model) == cap_opt_spec(c, 4)
}

/// Whether the `synapse_finetune` pattern matched with what its request needs.
pub open spec fn synapse_finetune_fires(m: Found) -> bool {
    let c = caps(m, "synapse_finetune"@);
    &&& matched(m, "synapse_finetune"@)
    &&& cap_str_spec(c, 2).len() > 0
}

/// The request that the `synapse_finetune` pattern gives.
pub open spec fn synapse_finetune_gives(m: Found, r: Intent) -> bool {
    let c = caps(m, "synapse_finetune"@);
    &&& r matches Intent::SynapseFinetune { action, model, method }
    &&& action@ == cap_str_spec(c, 2)
    &&& opt_view(model) == cap_opt_spec(c, 4)
    &&& opt_view(method) == cap_opt_spec(c, 6)
}

/// Whether the `synapse_chat` pattern matched with what its request needs.
pub open spec fn synapse_chat_fires(m: Found) -> bool {
    let c = caps(m, "synapse_chat"@);
    &&& matched(m, "synapse_chat"@)
    &&& cap_str_spec(c, 2).len() > 0
}

/// The request that the `synapse_chat` pattern gives.
pub open spec fn synapse_chat_gives(m: Found, r: Intent) -> bool {
    let c = caps(m, "synapse_chat"@);
    &&& r matches Intent::SynapseChat { model, prompt }
    &&& model@ == cap_str_spec(c, 2)
    &&& opt_view(prompt) == cap_opt_spec(c, 4)
}

/// Whether the `synapse_status` pattern matched.
pub open spec fn synapse_status_fires(m: Found) -> bool {
    matched(m, "synapse_status"@)
}

/// The request that the `synapse_status` pattern gives.
pub open spec fn synapse_status_gives(m: Found, r: Intent) -> bool {
    r is SynapseStatus
}

/// Whether the `synapse_benchmark` pattern matched with what its request needs.
pub open spec fn synapse_benchmark_fires(m: Found) -> bool {
    let c = caps(m, "synapse_benchmark"@);
    &&& matched(m, "synapse_benchmark"@)
    &&& cap_str_spec(c, 2).len() > 0
}

/// The request that the `synapse_benchmark` pattern gives.
pub open spec fn synapse_benchmark_gives(m: Found, r: Intent) -> bool {
    let c = caps(m, "synapse_benchmark"@);
    &&& r matches Intent::SynapseBenchmark { action, models }
    &&& action@ == cap_str_spec(c, 2)
    &&& opt_view(models) == cap_opt_spec(c, 4)
}

/// Whether the `synapse_quantize` pattern matched with what its request needs.
pub open spec fn synapse_quantize_fires(m: Found) -> bool {
    let c = caps(m, "synapse_quantize"@);
    &&& matched(m, "synapse_quantize"@)
    &&& cap_str_spec(c, 2).len() > 0
}

/// The request that the `synapse_quantize` pattern gives.
pub open spec fn synapse_quantize_gives(m: Found, r: Intent) -> bool {
    let c = caps(m, "synapse_quantize"@);
    &&& r matches Intent::SynapseQuantize { action, model, format }
    &&& action@ == cap_str_spec(c, 2)
    &&& opt_view(model) == cap_opt_spec(c, 4)
    &&& opt_view(format) == cap_opt_spec(c, 6)
}

/// Whether one of the Synapse LLM management patterns gives a request.
pub open spec fn synapse_fires(m: Found) -> bool {
    ||| synapse_models_fires(m)
    ||| synapse_serve_fires(m)
    ||| synapse_finetune_fires(m)
    ||| synapse_chat_fires(m)
    ||| synapse_status_fires(m)
    ||| synapse_benchmark_fires(m)
    ||| synapse_quantize_fires(m)
}

/// The request of the first Synapse LLM management pattern that gives one, in the order they
/// are tried; `None` where none does.
pub open spec fn synapse_result(m: Found, r: Option<Intent>) -> bool {
    if synapse_models_fires(m) {
        r matches Some(i) && synapse_models_gives(m, i)
    } else if synapse_serve_fires(m) {
        r matches Some(i) && synapse_serve_gives(m, i)
    } else if synapse_finetune_fires(m) {
        r matches Some(i) && synapse_finetune_gives(m, i)
    } else if synapse_chat_fires(m) {
        r matches Some(i) && synapse_chat_gives(m, i)
    } else if synapse_status_fires(m) {
        r matches Some(i) && synapse_status_gives(m, i)
    } else if synapse_benchmark_fires(m) {
        r matches Some(i) && synapse_benchmark_gives(m, i)
    } else if synapse_quantize_fires(m) {
        r matches Some(i) && synapse_quantize_gives(m, i)
    } else {
        r is None
    }
}

fn parse_synapse(lower: &PatternMatches) -> (r: Option<Intent>)
    ensures
        synapse_result(lower@, r),
        r is Some <==> synapse_fires(lower@),
{
    match lower.try_captures("synapse_models") {
        Some(c) => {
            let action = cap_str(c, 2);
            let name = cap_opt(c, 4);
            let source = cap_opt(c, 6);
            if !action.as_str().is_empty() {
                return Some(Intent::SynapseModels { action, name, source });
            }
        },
        None => {},
    }
    match lower.try_captures("synapse_serve") {
        Some(c) => {
            let action = cap_str(c, 2);
            let model = cap_opt(c, 4);
            if !action.as_str().is_empty() {
                return Some(Intent::SynapseServe { action, model });
            }
        },
        None => {},
    }
    match lower.try_captures("synapse_finetune") {
        Some(c) => {
            let action = cap_str(c, 2);
            let model = cap_opt(c, 4);
            let method = cap_opt(c, 6);
            if !action.as_str().is_empty() {
                return Some(Intent::SynapseFinetune { action, model, method });
            }
        },
        None => {},
    }
    match lower.try_captures("synapse_chat") {
        Some(c) => {
            let model = cap_str(c, 2);
            let prompt = cap_opt(c, 4);
            if !model.as_str().is_empty() {
                return Some(Intent::SynapseChat { model, prompt });
            }
        },
        None => {},
    }
    match lower.try_captures("synapse_status") {
        Some(_) => {
            return Some(Intent::SynapseStatus);
        },
        None => {},
    }
    match lower.try_captures("synapse_benchmark") {
        Some(c) => {
            let action = cap_str(c, 2);
            let models = cap_opt(c, 4);
            if !action.as_str().is_empty() {
                return Some(Intent::SynapseBenchmark { action, models });
            }
        },
        None => {},
    }
    match lower.try_captures("synapse_quantize") {
        Some(c) => {
            let action = cap_str(c, 2);
            let model = cap_opt(c, 4);
            let format = cap_opt(c, 6);
            if !action.as_str().is_empty() {
                return Some(Intent::SynapseQuantize { action, model, format });
            }
        },
        None => {},
    }
    None
}

proof fn lemma_synapse_requests_accepted(m: Found, r: Option<Intent>)
    requires
        synapse_result(m, r),
    ensures
        r matches Some(i) ==> crate::translate::synapse::is_synapse_intent(&i),
{
}

proof fn lemma_synapse_carries_groups(m: Found, r: Option<Intent>)
    requires
        synapse_result(m, r),
    ensures
        r matches Some(i) ==> (i is SynapseModels || i is SynapseServe || i is SynapseFinetune || i is SynapseChat || i is SynapseStatus || i is SynapseBenchmark || i is SynapseQuantize),
        r matches Some(Intent::SynapseModels { action, name, source }) ==> (({ let c = caps(m, "synapse_models"@); matched(m, "synapse_models"@) && action@ == cap_str_spec(c, 2) && opt_view(name) == cap_opt_spec(c, 4) && opt_view(source) == cap_opt_spec(c, 6) })),
        r matches Some(Intent::SynapseServe { action, model }) ==> (({ let c = caps(m, "synapse_serve"@); matched(m, "synapse_serve"@) && action@ == cap_str_spec(c, 2) && opt_view(model) == cap_opt_spec(c, 4) })),
        r matches Some(Intent::SynapseFinetune { action, model, method }) ==> (({ let c = caps(m, "synapse_finetune"@); matched(m, "synapse_finetune"@) && action@ == cap_str_spec(c, 2) && opt_view(model) == cap_opt_spec(c, 4) && opt_view(method) == cap_opt_spec(c, 6) })),
        r matches Some(Intent::SynapseChat { model, prompt }) ==> (({ let c = caps(m, "synapse_chat"@); matched(m, "synapse_chat"@) && model@ == cap_str_spec(c, 2) && opt_view(prompt) == cap_opt_spec(c, 4) })),
        r matches Some(Intent::SynapseStatus) ==> (({ let c = caps(m, "synapse_status"@); matched(m, "synapse_status"@) })),
        r matches Some(Intent::SynapseBenchmark { action, models }) ==> (({ let c = caps(m, "synapse_benchmark"@); matched(m, "synapse_benchmark"@) && action@ == cap_str_spec(c, 2) && opt_view(models) == cap_opt_spec(c, 4) })),
        r matches Some(Intent::SynapseQuantize { action, model, format }) ==> (({ let c = caps(m, "synapse_quantize"@); matched(m, "synapse_quantize"@) && action@ == cap_str_spec(c, 2) && opt_view(model) == cap_opt_spec(c, 4) && opt_view(format) == cap_opt_spec(c, 6) })),
{
}

/// The request read from one line of input by the creative patterns: the first
/// application, in the order they are tried, whose patterns give one.
pub open spec fn parse_creative_result(lower: Found, r: Option<Intent>) -> bool {
    if shruti_fires(lower) {
        shruti_result(lower, r)
    } else if tazama_fires(lower) {
        tazama_result(lower, r)
    } else if rasa_fires(lower) {
        rasa_result(lower, r)
    } else if mneme_fires(lower) {
        mneme_result(lower, r)
    } else if tarang_fires(lower) {
        tarang_result(lower, r)
    } else if jalwa_fires(lower) {
        jalwa_result(lower, r)
    } else if synapse_fires(lower) {
        synapse_result(lower, r)
    } else {
        r is None
    }
}

/// Each field of a creative request comes from the capture group it belongs to: the
/// request is of a kind only where one of its patterns matched, and each of its fields
/// is what that pattern captured in the field's own group.
pub proof fn law_creative_requests_carry_their_groups(lower: Found, r: Option<Intent>)
    requires
        parse_creative_result(lower, r),
    ensures
        r matches Some(Intent::ShrutiSession { action, name }) ==> (({ let c = caps(lower, "shruti_session"@); matched(lower, "shruti_session"@) && action@ == cap_str_spec(c, 2) && opt_view(name) == cap_opt_spec(c, 4) })),
        r matches Some(Intent::ShrutiTrack { action, name, kind }) ==> (({ let c = caps(lower, "shruti_track"@); matched(lower, "shruti_track"@) && action@ == cap_str_spec(c, 1) && opt_view(name) == cap_opt_spec(c, 4) && opt_view(kind) == cap_opt_spec(c, 6) })),
        r matches Some(Intent::ShrutiMixer { track, gain, mute, solo }) ==> (({ let c = caps(lower, "shruti_mixer"@); matched(lower, "shruti_mixer"@) && track@ == cap_str_spec(c, 1) && opt_view(gain) == cap_decimal_spec(c, 3) && mute == (if has_group(c, 4) { Some(true) } else { None }) && solo == (if has_group(c, 5) { Some(true) } else { None }) })),
        r matches Some(Intent::ShrutiTransport { action, value }) ==> (({ let c = caps(lower, "shruti_transport"@); matched(lower, "shruti_transport"@) && action@ == cap_str_spec(c, 1) && opt_view(value) == cap_opt_spec(c, 3) })),
        r matches Some(Intent::ShrutiExport { path, format }) ==> (({ let c = caps(lower, "shruti_export"@); matched(lower, "shruti_export"@) && opt_view(path) == cap_opt_spec(c, 1) && opt_view(format) == cap_opt_spec(c, 3) })),
        r matches Some(Intent::ShrutiPlugins { action, name }) ==> (({ let c = caps(lower, "shruti_plugins"@); matched(lower, "shruti_plugins"@) && action@ == cap_str_spec(c, 2) && opt_view(name) == cap_opt_spec(c, 4) })),
        r matches Some(Intent::ShrutiAi { action, track }) ==> (({ let c = caps(lower, "shruti_ai"@); matched(lower, "shruti_ai"@) && action@ == cap_word_spec(c, 1) && opt_view(track) == cap_opt_spec(c, 3) })),
        r matches Some(Intent::TazamaProject { action, name }) ==> (({ let c = caps(lower, "tazama_project"@); matched(lower, "tazama_project"@) && action@ == cap_str_spec(c, 2) && opt_view(name) == cap_opt_spec(c, 4) })),
        r matches Some(Intent::TazamaTimeline { action, clip_id, position }) ==> (({ let c = caps(lower, "tazama_timeline"@); matched(lower, "tazama_timeline"@) && action@ == cap_str_spec(c, 1) && opt_view(clip_id) == cap_opt_spec(c, 4) && opt_view(position) == cap_decimal_spec(c, 6) })),
        r matches Some(Intent::TazamaEffects { action, effect_type, clip_id }) ==> (({ let c = caps(lower, "tazama_effects"@); matched(lower, "tazama_effects"@) && action@ == cap_str_spec(c, 1) && opt_view(effect_type) == cap_opt_spec(c, 4) && opt_view(clip_id) == cap_opt_spec(c, 6) })),
        r matches Some(Intent::TazamaAi { action, options }) ==> (({ let c = caps(lower, "tazama_ai"@); matched(lower, "tazama_ai"@) && action@ == cap_word_spec(c, 1) && opt_view(options) == cap_opt_spec(c, 3) })),
        r matches Some(Intent::TazamaExport { path, format }) ==> (({ let c = caps(lower, "tazama_export"@); matched(lower, "tazama_export"@) && opt_view(path) == cap_opt_spec(c, 1) && opt_view(format) == cap_opt_spec(c, 3) })),
        r matches Some(Intent::TazamaMedia { action, path }) ==> (({ let c = caps(lower, "tazama_media"@); matched(lower, "tazama_media"@) && action@ == cap_str_spec(c, 2) && opt_view(path) == cap_opt_spec(c, 4) })),
        r matches Some(Intent::TazamaSubtitles { action, language }) ==> (({ let c = caps(lower, "tazama_subtitles"@); matched(lower, "tazama_subtitles"@) && action@ == cap_str_spec(c, 2) && opt_view(language) == cap_opt_spec(c, 4) })),
        r matches Some(Intent::RasaCanvas { action, name }) ==> (({ let c = caps(lower, "rasa_canvas"@); matched(lower, "rasa_canvas"@) && action@ == cap_str_spec(c, 2) && opt_view(name) == cap_opt_spec(c, 4) })),
        r matches Some(Intent::RasaLayers { action, name, kind }) ==> (({ let c = caps(lower, "rasa_layers"@); matched(lower, "rasa_layers"@) && action@ == cap_str_spec(c, 1) && opt_view(name) == cap_opt_spec(c, 4) && opt_view(kind) == cap_opt_spec(c, 6) })),
        r matches Some(Intent::RasaTools { action, params }) ==> (({ let c = caps(lower, "rasa_tools"@); matched(lower, "rasa_tools"@) && action@ == cap_str_spec(c, 1) && opt_view(params) == cap_opt_spec(c, 3) })),
        r matches Some(Intent::RasaAi { action, prompt }) ==> (({ let c = caps(lower, "rasa_ai"@); matched(lower, "rasa_ai"@) && action@ == cap_word_spec(c, 1) && opt_view(prompt) == cap_opt_spec(c, 3) })),
        r matches Some(Intent::RasaExport { path, format }) ==> (({ let c = caps(lower, "rasa_export"@); matched(lower, "rasa_export"@) && opt_view(path) == cap_opt_spec(c, 1) && opt_view(format) == cap_opt_spec(c, 3) })),
        r matches Some(Intent::RasaBatch { action, path }) ==> (({ let c = caps(lower, "rasa_batch"@); matched(lower, "rasa_batch"@) && action@ == cap_str_spec(c, 1) && opt_view(path) == cap_opt_spec(c, 3) })),
        r matches Some(Intent::RasaTemplates { action, name }) ==> (({ let c = caps(lower, "rasa_templates"@); matched(lower, "rasa_templates"@) && action@ == cap_str_spec(c, 2) && opt_view(name) == cap_opt_spec(c, 4) })),
        r matches Some(Intent::RasaAdjustments { action, adjustment_type }) ==> (({ let c = caps(lower, "rasa_adjustments"@); matched(lower, "rasa_adjustments"@) && action@ == cap_str_spec(c, 2) && opt_view(adjustment_type) == cap_opt_spec(c, 4) })),
        r matches Some(Intent::MnemeNotebook { action, name }) ==> (({ let c = caps(lower, "mneme_notebook"@); matched(lower, "mneme_notebook"@) && action@ == cap_str_spec(c, 2) && opt_view(name) == cap_opt_spec(c, 4) })),
        r matches Some(Intent::MnemeNotes { action, title, notebook_id }) ==> (({ let c = caps(lower, "mneme_notes"@); matched(lower, "mneme_notes"@) && action@ == cap_str_spec(c, 1) && opt_view(title) == cap_opt_spec(c, 4) && opt_view(notebook_id) == cap_opt_spec(c, 6) })),
        r matches Some(Intent::MnemeSearch { query, mode }) ==> (({ let c = caps(lower, "mneme_search"@); matched(lower, "mneme_search"@) && query@ == cap_str_spec(c, 1) && opt_view(mode) == cap_opt_spec(c, 3) })),
        r matches Some(Intent::MnemeAi { action, note_id }) ==> (({ let c = caps(lower, "mneme_ai"@); matched(lower, "mneme_ai"@) && action@ == cap_word_spec(c, 1) && opt_view(note_id) == cap_opt_spec(c, 3) })),
        r matches Some(Intent::MnemeGraph { action, node_id }) ==> (({ let c = caps(lower, "mneme_graph"@); matched(lower, "mneme_graph"@) && action@ == cap_word_spec(c, 1) && opt_view(node_id) == cap_opt_spec(c, 3) })),
        r matches Some(Intent::MnemeImport { action, path }) ==> (({ let c = caps(lower, "mneme_import"@); matched(lower, "mneme_import"@) && action@ == cap_str_spec(c, 1) && opt_view(path) == cap_opt_spec(c, 3) })),
        r matches Some(Intent::MnemeTags { action, tag }) ==> (({ let c = caps(lower, "mneme_tags"@); matched(lower, "mneme_tags"@) && action@ == cap_str_spec(c, 2) && opt_view(tag) == cap_opt_spec(c, 4) })),
        r matches Some(Intent::TarangProbe { path }) ==> (({ let c = caps(lower, "tarang_probe"@); matched(lower, "tarang_probe"@) && path@ == cap_str_spec(c, 1) })),
        r matches Some(Intent::TarangAnalyze { path }) ==> (({ let c = caps(lower, "tarang_analyze"@); matched(lower, "tarang_analyze"@) && path@ == cap_str_spec(c, 1) })),
        r matches Some(Intent::TarangCodecs) ==> (({ let c = caps(lower, "tarang_codecs"@); matched(lower, "tarang_codecs"@) })),
        r matches Some(Intent::TarangTranscribe { path, language }) ==> (({ let c = caps(lower, "tarang_transcribe"@); matched(lower, "tarang_transcribe"@) && path@ == cap_str_spec(c, 1) && opt_view(language) == cap_opt_spec(c, 2) })),
        r matches Some(Intent::TarangFormats { path }) ==> (({ let c = caps(lower, "tarang_formats"@); matched(lower, "tarang_formats"@) && path@ == cap_str_spec(c, 1) })),
        r matches Some(Intent::TarangFingerprintIndex { path }) ==> (({ let c = caps(lower, "tarang_fingerprint_index"@); matched(lower, "tarang_fingerprint_index"@) && path@ == cap_str_spec(c, 1) })),
        r matches Some(Intent::TarangSearchSimilar { path, top_k }) ==> (({ let c = caps(lower, "tarang_search_similar"@); matched(lower, "tarang_search_similar"@) && path@ == cap_str_spec(c, 1) && top_k is None })),
        r matches Some(Intent::TarangDescribe { path }) ==> (({ let c = caps(lower, "tarang_describe"@); matched(lower, "tarang_describe"@) && path@ == cap_str_spec(c, 1) })),
        r matches Some(Intent::JalwaPlay { path }) ==> (({ let c = caps(lower, "jalwa_play"@); matched(lower, "jalwa_play"@) && path@ == cap_str_spec(c, 1) })),
        r matches Some(Intent::JalwaPause) ==> (({ let c = caps(lower, "jalwa_pause"@); matched(lower, "jalwa_pause"@) })),
        r matches Some(Intent::JalwaStatus) ==> (({ let c = caps(lower, "jalwa_status"@); matched(lower, "jalwa_status"@) })),
        r matches Some(Intent::JalwaSearch { query }) ==> (({ let c = caps(lower, "jalwa_search"@); matched(lower, "jalwa_search"@) && query@ == cap_str_spec(c, 1) })),
        r matches Some(Intent::JalwaRecommend { item_id, max }) ==> (({ let c = caps(lower, "jalwa_recommend"@); matched(lower, "jalwa_recommend"@) && item_id@ == cap_str_spec(c, 1) && max == cap_u32_spec(c, 2) })),
        r matches Some(Intent::JalwaQueue { action, item_id }) ==> (({ let c = caps(lower, "jalwa_queue"@); matched(lower, "jalwa_queue"@) && action@ == cap_str_spec(c, 1) && opt_view(item_id) == cap_opt_spec(c, 2) })),
        r matches Some(Intent::JalwaLibrary { action, path }) ==> (({ let c = caps(lower, "jalwa_library"@); matched(lower, "jalwa_library"@) && action@ == cap_str_spec(c, 1) && opt_view(path) == cap_opt_spec(c, 2) })),
        r matches Some(Intent::JalwaPlaylist { action, name, item_id }) ==> (({ let c = caps(lower, "jalwa_playlist"@); matched(lower, "jalwa_playlist"@) && action@ == cap_str_spec(c, 1) && opt_view(name) == cap_opt_spec(c, 2) && opt_view(item_id) == cap_opt_spec(c, 3) })),
        r matches Some(Intent::SynapseModels { action, name, source }) ==> (({ let c = caps(lower, "synapse_models"@); matched(lower, "synapse_models"@) && action@ == cap_str_spec(c, 2) && opt_view(name) == cap_opt_spec(c, 4) && opt_view(source) == cap_opt_spec(c, 6) })),
        r matches Some(Intent::SynapseServe { action, model }) ==> (({ let c = caps(lower, "synapse_serve"@); matched(lower, "synapse_serve"@) && action@ == cap_str_spec(c, 2) && opt_view(model) == cap_opt_spec(c, 4) })),
        r matches Some(Intent::SynapseFinetune { action, model, method }) ==> (({ let c = caps(lower, "synapse_finetune"@); matched(lower, "synapse_finetune"@) && action@ == cap_str_spec(c, 2) && opt_view(model) == cap_opt_spec(c, 4) && opt_view(method) == cap_opt_spec(c, 6) })),
        r matches Some(Intent::SynapseChat { model, prompt }) ==> (({ let c = caps(lower, "synapse_chat"@); matched(lower, "synapse_chat"@) && model@ == cap_str_spec(c, 2) && opt_view(prompt) == cap_opt_spec(c, 4) })),
        r matches Some(Intent::SynapseStatus) ==> (({ let c = caps(lower, "synapse_status"@); matched(lower, "synapse_status"@) })),
        r matches Some(Intent::SynapseBenchmark { action, models }) ==> (({ let c = caps(lower, "synapse_benchmark"@); matched(lower, "synapse_benchmark"@) && action@ == cap_str_spec(c, 2) && opt_view(models) == cap_opt_spec(c, 4) })),
        r matches Some(Intent::SynapseQuantize { action, model, format }) ==> (({ let c = caps(lower, "synapse_quantize"@); matched(lower, "synapse_quantize"@) && action@ == cap_str_spec(c, 2) && opt_view(model) == cap_opt_spec(c, 4) && opt_view(format) == cap_opt_spec(c, 6) })),
{
    if shruti_fires(lower) {
        lemma_shruti_carries_groups(lower, r);
    } else if tazama_fires(lower) {
        lemma_tazama_carries_groups(lower, r);
    } else if rasa_fires(lower) {
        lemma_rasa_carries_groups(lower, r);
    } else if mneme_fires(lower) {
        lemma_mneme_carries_groups(lower, r);
    } else if tarang_fires(lower) {
        lemma_tarang_carries_groups(lower, r);
    } else if jalwa_fires(lower) {
        lemma_jalwa_carries_groups(lower, r);
    } else if synapse_fires(lower) {
        lemma_synapse_carries_groups(lower, r);
    }
}

/// Every request that the creative patterns read is one that its application's
/// translator takes (Tarang, which has no translator here, gives media framework
/// requests only).
pub proof fn law_creative_requests_are_translatable(lower: Found, r: Option<Intent>)
    requires
        parse_creative_result(lower, r),
    ensures
        r matches Some(i) ==> {
            ||| crate::translate::shruti::is_shruti_intent(&i)
            ||| crate::translate::tazama::is_tazama_intent(&i)
            ||| crate::translate::rasa::is_rasa_intent(&i)
            ||| crate::translate::mneme::is_mneme_intent(&i)
            ||| is_tarang_request(i)
            ||| crate::translate::jalwa::is_jalwa_intent(&i)
            ||| crate::translate::synapse::is_synapse_intent(&i)
        },
{
    if shruti_fires(lower) {
        lemma_shruti_requests_accepted(lower, r);
    } else if tazama_fires(lower) {
        lemma_tazama_requests_accepted(lower, r);
    } else if rasa_fires(lower) {
        lemma_rasa_requests_accepted(lower, r);
    } else if mneme_fires(lower) {
        lemma_mneme_requests_accepted(lower, r);
    } else if tarang_fires(lower) {
        lemma_tarang_requests_accepted(lower, r);
    } else if jalwa_fires(lower) {
        lemma_jalwa_requests_accepted(lower, r);
    } else if synapse_fires(lower) {
        lemma_synapse_requests_accepted(lower, r);
    }
}

/// Reads a creative or knowledge request from the patterns that matched the
/// lower-cased line.
pub fn parse_creative(lower: &PatternMatches) -> (r: Option<Intent>)
    ensures
        parse_creative_result(lower@, r),
{
    let r = parse_shruti(lower);
    if r.is_some() {
        return r;
    }
    let r = parse_tazama(lower);
    if r.is_some() {
        return r;
    }
    let r = parse_rasa(lower);
    if r.is_some() {
        return r;
    }
    let r = parse_mneme(lower);
    if r.is_some() {
        return r;
    }
    let r = parse_tarang(lower);
    if r.is_some() {
        return r;
    }
    let r = parse_jalwa(lower);
    if r.is_some() {
        return r;
    }
    let r = parse_synapse(lower);
    if r.is_some() {
        return r;
    }
    None
}

} // verus!
