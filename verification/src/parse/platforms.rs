//! Requests for the consumer platforms: Agnostic, Edge, SecureYeoman, Delta, Aequi,
//! Photis Nadi, Phylax and T-Ron.
use vstd::prelude::*;

use crate::intent::Intent;
use crate::parse::captures::{
    cap_first, cap_first_spec, cap_number, cap_number_spec, cap_opt, cap_opt_spec, cap_present,
    cap_decimal, cap_decimal_spec, cap_str, cap_str_or, cap_str_or_spec, cap_str_spec, cap_u32,
    cap_u32_spec, cap_word, cap_word_spec, caps, has_group, matched, node, node_spec, period,
    period_spec, receipt_status, receipt_status_spec, Found, PatternMatches,
};
use crate::text::{opt_view, owned};

verus! {

// --- Agnostic QA platform ---

/// Whether the `agnostic_run` pattern matched with what its request needs.
pub open spec fn agnostic_run_fires(m: Found) -> bool {
    let c = caps(m, "agnostic_run"@);
    &&& matched(m, "agnostic_run"@)
    &&& cap_str_spec(c, 1).len() > 0
}

/// The request that the `agnostic_run` pattern gives.
pub open spec fn agnostic_run_gives(m: Found, r: Intent) -> bool {
    let c = caps(m, "agnostic_run"@);
    &&& r matches Intent::AgnosticSubmitTask { title, description, target_url }
    &&& title@ == cap_str_spec(c, 1)
    &&& opt_view(description) == Some(cap_str_spec(c, 1))
    &&& opt_view(target_url) == cap_opt_spec(c, 3)
}

/// Whether the `agnostic_status` pattern matched with what its request needs.
pub open spec fn agnostic_status_fires(m: Found) -> bool {
    let c = caps(m, "agnostic_status"@);
    &&& matched(m, "agnostic_status"@)
    &&& cap_str_spec(c, 1).len() > 0
}

/// The request that the `agnostic_status` pattern gives.
pub open spec fn agnostic_status_gives(m: Found, r: Intent) -> bool {
    let c = caps(m, "agnostic_status"@);
    &&& r matches Intent::AgnosticTaskStatus { task_id }
    &&& task_id@ == cap_str_spec(c, 1)
}

/// Whether the `agnostic_report` pattern matched with what its request needs.
pub open spec fn agnostic_report_fires(m: Found) -> bool {
    let c = caps(m, "agnostic_report"@);
    &&& matched(m, "agnostic_report"@)
    &&& cap_str_spec(c, 1).len() > 0
}

/// The request that the `agnostic_report` pattern gives.
pub open spec fn agnostic_report_gives(m: Found, r: Intent) -> bool {
    let c = caps(m, "agnostic_report"@);
    &&& r matches Intent::AgnosticStructuredResults { session_id, result_type }
    &&& session_id@ == cap_str_spec(c, 1)
    &&& opt_view(result_type) == cap_opt_spec(c, 3)
}

/// Whether the `agnostic_list_suites` pattern matched.
pub open spec fn agnostic_list_suites_fires(m: Found) -> bool {
    matched(m, "agnostic_list_suites"@)
}

/// The request that the `agnostic_list_suites` pattern gives.
pub open spec fn agnostic_list_suites_gives(m: Found, r: Intent) -> bool {
    let c = caps(m, "agnostic_list_suites"@);
    &&& r matches Intent::AgnosticListPresets { domain }
    &&& opt_view(domain) == cap_opt_spec(c, 2)
}

/// Whether the `agnostic_agents` pattern matched.
pub open spec fn agnostic_agents_fires(m: Found) -> bool {
    matched(m, "agnostic_agents"@)
}

/// The request that the `agnostic_agents` pattern gives.
pub open spec fn agnostic_agents_gives(m: Found, r: Intent) -> bool {
    r is AgnosticAgentStatus
}

/// Whether the `agnostic_dashboard` pattern matched.
pub open spec fn agnostic_dashboard_fires(m: Found) -> bool {
    matched(m, "agnostic_dashboard"@)
}

/// The request that the `agnostic_dashboard` pattern gives.
pub open spec fn agnostic_dashboard_gives(m: Found, r: Intent) -> bool {
    let c = caps(m, "agnostic_dashboard"@);
    &&& r matches Intent::AgnosticDashboard { section }
    &&& opt_view(section) == cap_opt_spec(c, 3)
}

/// Whether the `agnostic_trends` pattern matched.
pub open spec fn agnostic_trends_fires(m: Found) -> bool {
    matched(m, "agnostic_trends"@)
}

/// The request that the `agnostic_trends` pattern gives.
pub open spec fn agnostic_trends_gives(m: Found, r: Intent) -> bool {
    r is AgnosticTrends
}

/// Whether the `agnostic_compare` pattern matched with what its request needs.
pub open spec fn agnostic_compare_fires(m: Found) -> bool {
    let c = caps(m, "agnostic_compare"@);
    &&& matched(m, "agnostic_compare"@)
    &&& cap_str_spec(c, 1).len() > 0
    &&& cap_str_spec(c, 2).len() > 0
}

/// The request that the `agnostic_compare` pattern gives.
pub open spec fn agnostic_compare_gives(m: Found, r: Intent) -> bool {
    let c = caps(m, "agnostic_compare"@);
    &&& r matches Intent::AgnosticCompare { session_a, session_b }
    &&& session_a@ == cap_str_spec(c, 1)
    &&& session_b@ == cap_str_spec(c, 2)
}

/// Whether the `agnostic_run_crew` pattern matched with what its request needs.
pub open spec fn agnostic_run_crew_fires(m: Found) -> bool {
    let c = caps(m, "agnostic_run_crew"@);
    &&& matched(m, "agnostic_run_crew"@)
    &&& cap_str_spec(c, 2).len() > 0
}

/// The request that the `agnostic_run_crew` pattern gives.
pub open spec fn agnostic_run_crew_gives(m: Found, r: Intent) -> bool {
    let c = caps(m, "agnostic_run_crew"@);
    &&& r matches Intent::AgnosticRunCrew { title, preset, gpu_required }
    &&& title@ == cap_str_spec(c, 2)
    &&& opt_view(preset) == cap_opt_spec(c, 4)
    &&& gpu_required == has_group(c, 5)
}

/// Whether the `agnostic_crew_status` pattern matched with what its request needs.
pub open spec fn agnostic_crew_status_fires(m: Found) -> bool {
    let c = caps(m, "agnostic_crew_status"@);
    &&& matched(m, "agnostic_crew_status"@)
    &&& cap_str_spec(c, 2).len() > 0
}

/// The request that the `agnostic_crew_status` pattern gives.
pub open spec fn agnostic_crew_status_gives(m: Found, r: Intent) -> bool {
    let c = caps(m, "agnostic_crew_status"@);
    &&& r matches Intent::AgnosticCrewStatus { crew_id }
    &&& crew_id@ == cap_str_spec(c, 2)
}

/// Whether the `agnostic_list_crews` pattern matched.
pub open spec fn agnostic_list_crews_fires(m: Found) -> bool {
    matched(m, "agnostic_list_crews"@)
}

/// The request that the `agnostic_list_crews` pattern gives.
pub open spec fn agnostic_list_crews_gives(m: Found, r: Intent) -> bool {
    let c = caps(m, "agnostic_list_crews"@);
    &&& r matches Intent::AgnosticListCrews { status }
    &&& opt_view(status) == cap_opt_spec(c, 3)
}

/// Whether the `agnostic_cancel_crew` pattern matched with what its request needs.
pub open spec fn agnostic_cancel_crew_fires(m: Found) -> bool {
    let c = caps(m, "agnostic_cancel_crew"@);
    &&& matched(m, "agnostic_cancel_crew"@)
    &&& cap_str_spec(c, 2).len() > 0
}

/// The request that the `agnostic_cancel_crew` pattern gives.
pub open spec fn agnostic_cancel_crew_gives(m: Found, r: Intent) -> bool {
    let c = caps(m, "agnostic_cancel_crew"@);
    &&& r matches Intent::AgnosticCancelCrew { crew_id }
    &&& crew_id@ == cap_str_spec(c, 2)
}

/// Whether the `agnostic_list_presets` pattern matched.
pub open spec fn agnostic_list_presets_fires(m: Found) -> bool {
    matched(m, "agnostic_list_presets"@)
}

/// The request that the `agnostic_list_presets` pattern gives.
pub open spec fn agnostic_list_presets_gives(m: Found, r: Intent) -> bool {
    let c = caps(m, "agnostic_list_presets"@);
    &&& r matches Intent::AgnosticListPresets { domain }
    &&& opt_view(domain) == cap_opt_spec(c, 3)
}

/// Whether the `agnostic_list_definitions` pattern matched.
pub open spec fn agnostic_list_definitions_fires(m: Found) -> bool {
    matched(m, "agnostic_list_definitions"@)
}

/// The request that the `agnostic_list_definitions` pattern gives.
pub open spec fn agnostic_list_definitions_gives(m: Found, r: Intent) -> bool {
    let c = caps(m, "agnostic_list_definitions"@);
    &&& r matches Intent::AgnosticListDefinitions { domain }
    &&& opt_view(domain) == cap_opt_spec(c, 4)
}

/// Whether the `agnostic_create_agent` pattern matched with what its request needs.
pub open spec fn agnostic_create_agent_fires(m: Found) -> bool {
    let c = caps(m, "agnostic_create_agent"@);
    &&& matched(m, "agnostic_create_agent"@)
    &&& cap_str_spec(c, 1).len() > 0
    &&& cap_str_spec(c, 2).len() > 0
}

/// The request that the `agnostic_create_agent` pattern gives.
pub open spec fn agnostic_create_agent_gives(m: Found, r: Intent) -> bool {
    let c = caps(m, "agnostic_create_agent"@);
    &&& r matches Intent::AgnosticCreateAgent { agent_key, name, role }
    &&& agent_key@ == cap_str_spec(c, 1)
    &&& name@ == cap_str_spec(c, 2)
    &&& role@ == cap_str_spec(c, 3)
}

/// Whether the `agnostic_gpu_status` pattern matched.
pub open spec fn agnostic_gpu_status_fires(m: Found) -> bool {
    matched(m, "agnostic_gpu_status"@)
}

/// The request that the `agnostic_gpu_status` pattern gives.
pub open spec fn agnostic_gpu_status_gives(m: Found, r: Intent) -> bool {
    r is AgnosticGpuStatus
}

/// Whether the `agnostic_gpu_memory` pattern matched.
pub open spec fn agnostic_gpu_memory_fires(m: Found) -> bool {
    matched(m, "agnostic_gpu_memory"@)
}

/// The request that the `agnostic_gpu_memory` pattern gives.
pub open spec fn agnostic_gpu_memory_gives(m: Found, r: Intent) -> bool {
    r is AgnosticGpuMemory
}

/// Whether one of the Agnostic QA platform patterns gives a request.
pub open spec fn agnostic_fires(m: Found) -> bool {
    ||| agnostic_run_fires(m)
    ||| agnostic_status_fires(m)
    ||| agnostic_report_fires(m)
    ||| agnostic_list_suites_fires(m)
    ||| agnostic_agents_fires(m)
    ||| agnostic_dashboard_fires(m)
    ||| agnostic_trends_fires(m)
    ||| agnostic_compare_fires(m)
    ||| agnostic_run_crew_fires(m)
    ||| agnostic_crew_status_fires(m)
    ||| agnostic_list_crews_fires(m)
    ||| agnostic_cancel_crew_fires(m)
    ||| agnostic_list_presets_fires(m)
    ||| agnostic_list_definitions_fires(m)
    ||| agnostic_create_agent_fires(m)
    ||| agnostic_gpu_status_fires(m)
    ||| agnostic_gpu_memory_fires(m)
}

/// The request of the first Agnostic QA platform pattern that gives one, in the order they
/// are tried; `None` where none does.
pub open spec fn agnostic_result(m: Found, r: Option<Intent>) -> bool {
    if agnostic_run_fires(m) {
        r matches Some(i) && agnostic_run_gives(m, i)
    } else if agnostic_status_fires(m) {
        r matches Some(i) && agnostic_status_gives(m, i)
    } else if agnostic_report_fires(m) {
        r matches Some(i) && agnostic_report_gives(m, i)
    } else if agnostic_list_suites_fires(m) {
        r matches Some(i) && agnostic_list_suites_gives(m, i)
    } else if agnostic_agents_fires(m) {
        r matches Some(i) && agnostic_agents_gives(m, i)
    } else if agnostic_dashboard_fires(m) {
        r matches Some(i) && agnostic_dashboard_gives(m, i)
    } else if agnostic_trends_fires(m) {
        r matches Some(i) && agnostic_trends_gives(m, i)
    } else if agnostic_compare_fires(m) {
        r matches Some(i) && agnostic_compare_gives(m, i)
    } else if agnostic_run_crew_fires(m) {
        r matches Some(i) && agnostic_run_crew_gives(m, i)
    } else if agnostic_crew_status_fires(m) {
        r matches Some(i) && agnostic_crew_status_gives(m, i)
    } else if agnostic_list_crews_fires(m) {
        r matches Some(i) && agnostic_list_crews_gives(m, i)
    } else if agnostic_cancel_crew_fires(m) {
        r matches Some(i) && agnostic_cancel_crew_gives(m, i)
    } else if agnostic_list_presets_fires(m) {
        r matches Some(i) && agnostic_list_presets_gives(m, i)
    } else if agnostic_list_definitions_fires(m) {
        r matches Some(i) && agnostic_list_definitions_gives(m, i)
    } else if agnostic_create_agent_fires(m) {
        r matches Some(i) && agnostic_create_agent_gives(m, i)
    } else if agnostic_gpu_status_fires(m) {
        r matches Some(i) && agnostic_gpu_status_gives(m, i)
    } else if agnostic_gpu_memory_fires(m) {
        r matches Some(i) && agnostic_gpu_memory_gives(m, i)
    } else {
        r is None
    }
}

fn parse_agnostic(lower: &PatternMatches) -> (r: Option<Intent>)
    ensures
        agnostic_result(lower@, r),
        r is Some <==> agnostic_fires(lower@),
{
    match lower.try_captures("agnostic_run") {
        Some(c) => {
            let title = cap_str(c, 1);
            let description = Some(cap_str(c, 1));
            let target_url = cap_opt(c, 3);
            if !title.as_str().is_empty() {
                return Some(Intent::AgnosticSubmitTask { title, description, target_url });
            }
        },
        None => {},
    }
    match lower.try_captures("agnostic_status") {
        Some(c) => {
            let task_id = cap_str(c, 1);
            if !task_id.as_str().is_empty() {
                return Some(Intent::AgnosticTaskStatus { task_id });
            }
        },
        None => {},
    }
    match lower.try_captures("agnostic_report") {
        Some(c) => {
            let session_id = cap_str(c, 1);
            let result_type = cap_opt(c, 3);
            if !session_id.as_str().is_empty() {
                return Some(Intent::AgnosticStructuredResults { session_id, result_type });
            }
        },
        None => {},
    }
    match lower.try_captures("agnostic_list_suites") {
        Some(c) => {
            let domain = cap_opt(c, 2);
            return Some(Intent::AgnosticListPresets { domain });
        },
        None => {},
    }
    match lower.try_captures("agnostic_agents") {
        Some(_) => {
            return Some(Intent::AgnosticAgentStatus);
        },
        None => {},
    }
    match lower.try_captures("agnostic_dashboard") {
        Some(c) => {
            let section = cap_opt(c, 3);
            return Some(Intent::AgnosticDashboard { section });
        },
        None => {},
    }
    match lower.try_captures("agnostic_trends") {
        Some(_) => {
            return Some(Intent::AgnosticTrends);
        },
        None => {},
    }
    match lower.try_captures("agnostic_compare") {
        Some(c) => {
            let session_a = cap_str(c, 1);
            let session_b = cap_str(c, 2);
            if !session_a.as_str().is_empty() && !session_b.as_str().is_empty() {
                return Some(Intent::AgnosticCompare { session_a, session_b });
            }
        },
        None => {},
    }
    match lower.try_captures("agnostic_run_crew") {
        Some(c) => {
            let title = cap_str(c, 2);
            let preset = cap_opt(c, 4);
            let gpu_required = cap_present(c, 5);
            if !title.as_str().is_empty() {
                return Some(Intent::AgnosticRunCrew { title, preset, gpu_required });
            }
        },
        None => {},
    }
    match lower.try_captures("agnostic_crew_status") {
        Some(c) => {
            let crew_id = cap_str(c, 2);
            if !crew_id.as_str().is_empty() {
                return Some(Intent::AgnosticCrewStatus { crew_id });
            }
        },
        None => {},
    }
    match lower.try_captures("agnostic_list_crews") {
        Some(c) => {
            let status = cap_opt(c, 3);
            return Some(Intent::AgnosticListCrews { status });
        },
        None => {},
    }
    match lower.try_captures("agnostic_cancel_crew") {
        Some(c) => {
            let crew_id = cap_str(c, 2);
            if !crew_id.as_str().is_empty() {
                return Some(Intent::AgnosticCancelCrew { crew_id });
            }
        },
        None => {},
    }
    match lower.try_captures("agnostic_list_presets") {
        Some(c) => {
            let domain = cap_opt(c, 3);
            return Some(Intent::AgnosticListPresets { domain });
        },
        None => {},
    }
    match lower.try_captures("agnostic_list_definitions") {
        Some(c) => {
            let domain = cap_opt(c, 4);
            return Some(Intent::AgnosticListDefinitions { domain });
        },
        None => {},
    }
    match lower.try_captures("agnostic_create_agent") {
        Some(c) => {
            let agent_key = cap_str(c, 1);
            let name = cap_str(c, 2);
            let role = cap_str(c, 3);
            if !agent_key.as_str().is_empty() && !name.as_str().is_empty() {
                return Some(Intent::AgnosticCreateAgent { agent_key, name, role });
            }
        },
        None => {},
    }
    match lower.try_captures("agnostic_gpu_status") {
        Some(_) => {
            return Some(Intent::AgnosticGpuStatus);
        },
        None => {},
    }
    match lower.try_captures("agnostic_gpu_memory") {
        Some(_) => {
            return Some(Intent::AgnosticGpuMemory);
        },
        None => {},
    }
    None
}

proof fn lemma_agnostic_requests_accepted(m: Found, r: Option<Intent>)
    requires
        agnostic_result(m, r),
    ensures
        r matches Some(i) ==> crate::translate::agnostic::is_agnostic_intent(&i),
{
}

proof fn lemma_agnostic_carries_groups(m: Found, r: Option<Intent>)
    requires
        agnostic_result(m, r),
    ensures
        r matches Some(i) ==> (i is AgnosticSubmitTask || i is AgnosticTaskStatus || i is AgnosticStructuredResults || i is AgnosticListPresets || i is AgnosticAgentStatus || i is AgnosticDashboard || i is AgnosticTrends || i is AgnosticCompare || i is AgnosticRunCrew || i is AgnosticCrewStatus || i is AgnosticListCrews || i is AgnosticCancelCrew || i is AgnosticListDefinitions || i is AgnosticCreateAgent || i is AgnosticGpuStatus || i is AgnosticGpuMemory),
        r matches Some(Intent::AgnosticSubmitTask { title, description, target_url }) ==> (({ let c = caps(m, "agnostic_run"@); matched(m, "agnostic_run"@) && title@ == cap_str_spec(c, 1) && opt_view(description) == Some(cap_str_spec(c, 1)) && opt_view(target_url) == cap_opt_spec(c, 3) })),
        r matches Some(Intent::AgnosticTaskStatus { task_id }) ==> (({ let c = caps(m, "agnostic_status"@); matched(m, "agnostic_status"@) && task_id@ == cap_str_spec(c, 1) })),
        r matches Some(Intent::AgnosticStructuredResults { session_id, result_type }) ==> (({ let c = caps(m, "agnostic_report"@); matched(m, "agnostic_report"@) && session_id@ == cap_str_spec(c, 1) && opt_view(result_type) == cap_opt_spec(c, 3) })),
        r matches Some(Intent::AgnosticListPresets { domain }) ==> (({ let c = caps(m, "agnostic_list_suites"@); matched(m, "agnostic_list_suites"@) && opt_view(domain) == cap_opt_spec(c, 2) }) || ({ let c = caps(m, "agnostic_list_presets"@); matched(m, "agnostic_list_presets"@) && opt_view(domain) == cap_opt_spec(c, 3) })),
        r matches Some(Intent::AgnosticAgentStatus) ==> (({ let c = caps(m, "agnostic_agents"@); matched(m, "agnostic_agents"@) })),
        r matches Some(Intent::AgnosticDashboard { section }) ==> (({ let c = caps(m, "agnostic_dashboard"@); matched(m, "agnostic_dashboard"@) && opt_view(section) == cap_opt_spec(c, 3) })),
        r matches Some(Intent::AgnosticTrends) ==> (({ let c = caps(m, "agnostic_trends"@); matched(m, "agnostic_trends"@) })),
        r matches Some(Intent::AgnosticCompare { session_a, session_b }) ==> (({ let c = caps(m, "agnostic_compare"@); matched(m, "agnostic_compare"@) && session_a@ == cap_str_spec(c, 1) && session_b@ == cap_str_spec(c, 2) })),
        r matches Some(Intent::AgnosticRunCrew { title, preset, gpu_required }) ==> (({ let c = caps(m, "agnostic_run_crew"@); matched(m, "agnostic_run_crew"@) && title@ == cap_str_spec(c, 2) && opt_view(preset) == cap_opt_spec(c, 4) && gpu_required == has_group(c, 5) })),
        r matches Some(Intent::AgnosticCrewStatus { crew_id }) ==> (({ let c = caps(m, "agnostic_crew_status"@); matched(m, "agnostic_crew_status"@) && crew_id@ == cap_str_spec(c, 2) })),
        r matches Some(Intent::AgnosticListCrews { status }) ==> (({ let c = caps(m, "agnostic_list_crews"@); matched(m, "agnostic_list_crews"@) && opt_view(status) == cap_opt_spec(c, 3) })),
        r matches Some(Intent::AgnosticCancelCrew { crew_id }) ==> (({ let c = caps(m, "agnostic_cancel_crew"@); matched(m, "agnostic_cancel_crew"@) && crew_id@ == cap_str_spec(c, 2) })),
        r matches Some(Intent::AgnosticListDefinitions { domain }) ==> (({ let c = caps(m, "agnostic_list_definitions"@); matched(m, "agnostic_list_definitions"@) && opt_view(domain) == cap_opt_spec(c, 4) })),
        r matches Some(Intent::AgnosticCreateAgent { agent_key, name, role }) ==> (({ let c = caps(m, "agnostic_create_agent"@); matched(m, "agnostic_create_agent"@) && agent_key@ == cap_str_spec(c, 1) && name@ == cap_str_spec(c, 2) && role@ == cap_str_spec(c, 3) })),
        r matches Some(Intent::AgnosticGpuStatus) ==> (({ let c = caps(m, "agnostic_gpu_status"@); matched(m, "agnostic_gpu_status"@) })),
        r matches Some(Intent::AgnosticGpuMemory) ==> (({ let c = caps(m, "agnostic_gpu_memory"@); matched(m, "agnostic_gpu_memory"@) })),
{
}

// --- Edge fleet management ---

/// Whether the `edge_list` pattern matched.
pub open spec fn edge_list_fires(m: Found) -> bool {
    matched(m, "edge_list"@)
}

/// The request that the `edge_list` pattern gives.
pub open spec fn edge_list_gives(m: Found, r: Intent) -> bool {
    let c = caps(m, "edge_list"@);
    &&& r matches Intent::EdgeListNodes { status }
    &&& opt_view(status) == cap_opt_spec(c, 3)
}

/// Whether the `edge_deploy` pattern matched with what its request needs.
pub open spec fn edge_deploy_fires(m: Found) -> bool {
    let c = caps(m, "edge_deploy"@);
    &&& matched(m, "edge_deploy"@)
    &&& cap_str_spec(c, 1).len() > 0
}

/// The request that the `edge_deploy` pattern gives.
pub open spec fn edge_deploy_gives(m: Found, r: Intent) -> bool {
    let c = caps(m, "edge_deploy"@);
    &&& r matches Intent::EdgeDeploy { task, node }
    &&& task@ == cap_str_spec(c, 1)
    &&& opt_view(node) == cap_opt_spec(c, 2)
}

/// Whether the `edge_update` pattern matched with what its request needs.
pub open spec fn edge_update_fires(m: Found) -> bool {
    let c = caps(m, "edge_update"@);
    &&& matched(m, "edge_update"@)
    &&& cap_first_spec(c, 1, 2).len() > 0
}

/// The request that the `edge_update` pattern gives.
pub open spec fn edge_update_gives(m: Found, r: Intent) -> bool {
    let c = caps(m, "edge_update"@);
    &&& r matches Intent::EdgeUpdate { node, version }
    &&& node@ == cap_first_spec(c, 1, 2)
    &&& opt_view(version) == cap_opt_spec(c, 3)
}

/// Whether the `edge_health` pattern matched.
pub open spec fn edge_health_fires(m: Found) -> bool {
    matched(m, "edge_health"@)
}

/// The request that the `edge_health` pattern gives.
pub open spec fn edge_health_gives(m: Found, r: Intent) -> bool {
    let c = caps(m, "edge_health"@);
    &&& r matches Intent::EdgeHealth { node }
    &&& opt_view(node) == node_spec(c, 2)
}

/// Whether the `edge_decommission` pattern matched with what its request needs.
pub open spec fn edge_decommission_fires(m: Found) -> bool {
    let c = caps(m, "edge_decommission"@);
    &&& matched(m, "edge_decommission"@)
    &&& cap_str_spec(c, 1).len() > 0
}

/// The request that the `edge_decommission` pattern gives.
pub open spec fn edge_decommission_gives(m: Found, r: Intent) -> bool {
    let c = caps(m, "edge_decommission"@);
    &&& r matches Intent::EdgeDecommission { node }
    &&& node@ == cap_str_spec(c, 1)
}

/// Whether the `edge_logs` pattern matched with what its request needs.
pub open spec fn edge_logs_fires(m: Found) -> bool {
    let c = caps(m, "edge_logs"@);
    &&& matched(m, "edge_logs"@)
    &&& cap_str_spec(c, 2).len() > 0
}

/// The request that the `edge_logs` pattern gives.
pub open spec fn edge_logs_gives(m: Found, r: Intent) -> bool {
    let c = caps(m, "edge_logs"@);
    &&& r matches Intent::EdgeLogs { action, node }
    &&& action@ == cap_str_spec(c, 2)
    &&& opt_view(node) == cap_opt_spec(c, 4)
}

/// Whether the `edge_config` pattern matched with what its request needs.
pub open spec fn edge_config_fires(m: Found) -> bool {
    let c = caps(m, "edge_config"@);
    &&& matched(m, "edge_config"@)
    &&& cap_str_spec(c, 2).len() > 0
}

/// The request that the `edge_config` pattern gives.
pub open spec fn edge_config_gives(m: Found, r: Intent) -> bool {
    let c = caps(m, "edge_config"@);
    &&& r matches Intent::EdgeConfig { action, node, key }
    &&& action@ == cap_str_spec(c, 2)
    &&& opt_view(node) == cap_opt_spec(c, 4)
    &&& key is None
}

/// Whether one of the Edge fleet management patterns gives a request.
pub open spec fn edge_fires(m: Found) -> bool {
    ||| edge_list_fires(m)
    ||| edge_deploy_fires(m)
    ||| edge_update_fires(m)
    ||| edge_health_fires(m)
    ||| edge_decommission_fires(m)
    ||| edge_logs_fires(m)
    ||| edge_config_fires(m)
}

/// The request of the first Edge fleet management pattern that gives one, in the order they
/// are tried; `None` where none does.
pub open spec fn edge_result(m: Found, r: Option<Intent>) -> bool {
    if edge_list_fires(m) {
        r matches Some(i) && edge_list_gives(m, i)
    } else if edge_deploy_fires(m) {
        r matches Some(i) && edge_deploy_gives(m, i)
    } else if edge_update_fires(m) {
        r matches Some(i) && edge_update_gives(m, i)
    } else if edge_health_fires(m) {
        r matches Some(i) && edge_health_gives(m, i)
    } else if edge_decommission_fires(m) {
        r matches Some(i) && edge_decommission_gives(m, i)
    } else if edge_logs_fires(m) {
        r matches Some(i) && edge_logs_gives(m, i)
    } else if edge_config_fires(m) {
        r matches Some(i) && edge_config_gives(m, i)
    } else {
        r is None
    }
}

fn parse_edge(lower: &PatternMatches) -> (r: Option<Intent>)
    ensures
        edge_result(lower@, r),
        r is Some <==> edge_fires(lower@),
{
    match lower.try_captures("edge_list") {
        Some(c) => {
            let status = cap_opt(c, 3);
            return Some(Intent::EdgeListNodes { status });
        },
        None => {},
    }
    match lower.try_captures("edge_deploy") {
        Some(c) => {
            let task = cap_str(c, 1);
            let node = cap_opt(c, 2);
            if !task.as_str().is_empty() {
                return Some(Intent::EdgeDeploy { task, node });
            }
        },
        None => {},
    }
    match lower.try_captures("edge_update") {
        Some(c) => {
            let node = cap_first(c, 1, 2);
            let version = cap_opt(c, 3);
            if !node.as_str().is_empty() {
                return Some(Intent::EdgeUpdate { node, version });
            }
        },
        None => {},
    }
    match lower.try_captures("edge_health") {
        Some(c) => {
            let node = node(c, 2);
            return Some(Intent::EdgeHealth { node });
        },
        None => {},
    }
    match lower.try_captures("edge_decommission") {
        Some(c) => {
            let node = cap_str(c, 1);
            if !node.as_str().is_empty() {
                return Some(Intent::EdgeDecommission { node });
            }
        },
        None => {},
    }
    match lower.try_captures("edge_logs") {
        Some(c) => {
            let action = cap_str(c, 2);
            let node = cap_opt(c, 4);
            if !action.as_str().is_empty() {
                return Some(Intent::EdgeLogs { action, node });
            }
        },
        None => {},
    }
    match lower.try_captures("edge_config") {
        Some(c) => {
            let action = cap_str(c, 2);
            let node = cap_opt(c, 4);
            let key = None;
            if !action.as_str().is_empty() {
                return Some(Intent::EdgeConfig { action, node, key });
            }
        },
        None => {},
    }
    None
}

proof fn lemma_edge_requests_accepted(m: Found, r: Option<Intent>)
    requires
        edge_result(m, r),
    ensures
        r matches Some(i) ==> crate::translate::edge::is_edge_intent(&i),
{
}

proof fn lemma_edge_carries_groups(m: Found, r: Option<Intent>)
    requires
        edge_result(m, r),
    ensures
        r matches Some(i) ==> (i is EdgeListNodes || i is EdgeDeploy || i is EdgeUpdate || i is EdgeHealth || i is EdgeDecommission || i is EdgeLogs || i is EdgeConfig),
        r matches Some(Intent::EdgeListNodes { status }) ==> (({ let c = caps(m, "edge_list"@); matched(m, "edge_list"@) && opt_view(status) == cap_opt_spec(c, 3) })),
        r matches Some(Intent::EdgeDeploy { task, node }) ==> (({ let c = caps(m, "edge_deploy"@); matched(m, "edge_deploy"@) && task@ == cap_str_spec(c, 1) && opt_view(node) == cap_opt_spec(c, 2) })),
        r matches Some(Intent::EdgeUpdate { node, version }) ==> (({ let c = caps(m, "edge_update"@); matched(m, "edge_update"@) && node@ == cap_first_spec(c, 1, 2) && opt_view(version) == cap_opt_spec(c, 3) })),
        r matches Some(Intent::EdgeHealth { node }) ==> (({ let c = caps(m, "edge_health"@); matched(m, "edge_health"@) && opt_view(node) == node_spec(c, 2) })),
        r matches Some(Intent::EdgeDecommission { node }) ==> (({ let c = caps(m, "edge_decommission"@); matched(m, "edge_decommission"@) && node@ == cap_str_spec(c, 1) })),
        r matches Some(Intent::EdgeLogs { action, node }) ==> (({ let c = caps(m, "edge_logs"@); matched(m, "edge_logs"@) && action@ == cap_str_spec(c, 2) && opt_view(node) == cap_opt_spec(c, 4) })),
        r matches Some(Intent::EdgeConfig { action, node, key }) ==> (({ let c = caps(m, "edge_config"@); matched(m, "edge_config"@) && action@ == cap_str_spec(c, 2) && opt_view(node) == cap_opt_spec(c, 4) && key is None })),
{
}

// --- SecureYeoman AI platform ---

/// Whether the `yeoman_agents` pattern matched with what its request needs.
pub open spec fn yeoman_agents_fires(m: Found) -> bool {
    let c = caps(m, "yeoman_agents"@);
    &&& matched(m, "yeoman_agents"@)
    &&& cap_str_spec(c, 2).len() > 0
}

/// The request that the `yeoman_agents` pattern gives.
pub open spec fn yeoman_agents_gives(m: Found, r: Intent) -> bool {
    let c = caps(m, "yeoman_agents"@);
    &&& r matches Intent::YeomanAgents { action, agent_id, name }
    &&& action@ == cap_str_spec(c, 2)
    &&& opt_view(agent_id) == cap_opt_spec(c, 4)
    &&& opt_view(name) == cap_opt_spec(c, 4)
}

/// Whether the `yeoman_tasks` pattern matched with what its request needs.
pub open spec fn yeoman_tasks_fires(m: Found) -> bool {
    let c = caps(m, "yeoman_tasks"@);
    &&& matched(m, "yeoman_tasks"@)
    &&& cap_str_spec(c, 2).len() > 0
}

/// The request that the `yeoman_tasks` pattern gives.
pub open spec fn yeoman_tasks_gives(m: Found, r: Intent) -> bool {
    let c = caps(m, "yeoman_tasks"@);
    &&& r matches Intent::YeomanTasks { action, description, task_id }
    &&& action@ == cap_str_spec(c, 2)
    &&& opt_view(description) == cap_opt_spec(c, 4)
    &&& opt_view(task_id) == cap_opt_spec(c, 4)
}

/// Whether the `yeoman_tools` pattern matched with what its request needs.
pub open spec fn yeoman_tools_fires(m: Found) -> bool {
    let c = caps(m, "yeoman_tools"@);
    &&& matched(m, "yeoman_tools"@)
    &&& cap_str_spec(c, 2).len() > 0
}

/// The request that the `yeoman_tools` pattern gives.
pub open spec fn yeoman_tools_gives(m: Found, r: Intent) -> bool {
    let c = caps(m, "yeoman_tools"@);
    &&& r matches Intent::YeomanTools { action, query }
    &&& action@ == cap_str_spec(c, 2)
    &&& opt_view(query) == cap_opt_spec(c, 4)
}

/// Whether the `yeoman_integrations` pattern matched with what its request needs.
pub open spec fn yeoman_integrations_fires(m: Found) -> bool {
    let c = caps(m, "yeoman_integrations"@);
    &&& matched(m, "yeoman_integrations"@)
    &&& cap_str_spec(c, 2).len() > 0
}

/// The request that the `yeoman_integrations` pattern gives.
pub open spec fn yeoman_integrations_gives(m: Found, r: Intent) -> bool {
    let c = caps(m, "yeoman_integrations"@);
    &&& r matches Intent::YeomanIntegrations { action, name }
    &&& action@ == cap_str_spec(c, 2)
    &&& opt_view(name) == cap_opt_spec(c, 4)
}

/// Whether the `yeoman_status` pattern matched.
pub open spec fn yeoman_status_fires(m: Found) -> bool {
    matched(m, "yeoman_status"@)
}

/// The request that the `yeoman_status` pattern gives.
pub open spec fn yeoman_status_gives(m: Found, r: Intent) -> bool {
    r is YeomanStatus
}

/// Whether the `yeoman_logs` pattern matched with what its request needs.
pub open spec fn yeoman_logs_fires(m: Found) -> bool {
    let c = caps(m, "yeoman_logs"@);
    &&& matched(m, "yeoman_logs"@)
    &&& cap_str_spec(c, 2).len() > 0
}

/// The request that the `yeoman_logs` pattern gives.
pub open spec fn yeoman_logs_gives(m: Found, r: Intent) -> bool {
    let c = caps(m, "yeoman_logs"@);
    &&& r matches Intent::YeomanLogs { action, agent_id }
    &&& action@ == cap_str_spec(c, 2)
    &&& opt_view(agent_id) == cap_opt_spec(c, 4)
}

/// Whether the `yeoman_workflows` pattern matched with what its request needs.
pub open spec fn yeoman_workflows_fires(m: Found) -> bool {
    let c = caps(m, "yeoman_workflows"@);
    &&& matched(m, "yeoman_workflows"@)
    &&& cap_str_spec(c, 2).len() > 0
}

/// The request that the `yeoman_workflows` pattern gives.
pub open spec fn yeoman_workflows_gives(m: Found, r: Intent) -> bool {
    let c = caps(m, "yeoman_workflows"@);
    &&& r matches Intent::YeomanWorkflows { action, name }
    &&& action@ == cap_str_spec(c, 2)
    &&& opt_view(name) == cap_opt_spec(c, 4)
}

/// Whether the `yeoman_register_tools` pattern matched.
pub open spec fn yeoman_register_tools_fires(m: Found) -> bool {
    matched(m, "yeoman_register_tools"@)
}

/// The request that the `yeoman_register_tools` pattern gives.
pub open spec fn yeoman_register_tools_gives(m: Found, r: Intent) -> bool {
    let c = caps(m, "yeoman_register_tools"@);
    &&& r matches Intent::YeomanRegisterTools { action }
    &&& action@ == "register"@
}

/// Whether the `yeoman_tool_execute` pattern matched with what its request needs.
pub open spec fn yeoman_tool_execute_fires(m: Found) -> bool {
    let c = caps(m, "yeoman_tool_execute"@);
    &&& matched(m, "yeoman_tool_execute"@)
    &&& cap_str_spec(c, 1).len() > 0
}

/// The request that the `yeoman_tool_execute` pattern gives.
pub open spec fn yeoman_tool_execute_gives(m: Found, r: Intent) -> bool {
    let c = caps(m, "yeoman_tool_execute"@);
    &&& r matches Intent::YeomanToolExecute { tool_name, args }
    &&& tool_name@ == cap_str_spec(c, 1)
    &&& opt_view(args) == cap_opt_spec(c, 2)
}

/// Whether the `yeoman_brain_query` pattern matched with what its request needs.
pub open spec fn yeoman_brain_query_fires(m: Found) -> bool {
    let c = caps(m, "yeoman_brain_query"@);
    &&& matched(m, "yeoman_brain_query"@)
    &&& cap_str_spec(c, 1).len() > 0
}

/// The request that the `yeoman_brain_query` pattern gives.
pub open spec fn yeoman_brain_query_gives(m: Found, r: Intent) -> bool {
    let c = caps(m, "yeoman_brain_query"@);
    &&& r matches Intent::YeomanBrainQuery { query, limit }
    &&& query@ == cap_str_spec(c, 1)
    &&& limit is None
}

/// Whether the `yeoman_brain_sync` pattern matched with what its request needs.
pub open spec fn yeoman_brain_sync_fires(m: Found) -> bool {
    let c = caps(m, "yeoman_brain_sync"@);
    &&& matched(m, "yeoman_brain_sync"@)
    &&& cap_str_spec(c, 1).len() > 0
}

/// The request that the `yeoman_brain_sync` pattern gives.
pub open spec fn yeoman_brain_sync_gives(m: Found, r: Intent) -> bool {
    let c = caps(m, "yeoman_brain_sync"@);
    &&& r matches Intent::YeomanBrainSync { action, topic }
    &&& action@ == cap_str_spec(c, 1)
    &&& topic is None
}

/// Whether the `yeoman_token_budget` pattern matched with what its request needs.
pub open spec fn yeoman_token_budget_fires(m: Found) -> bool {
    let c = caps(m, "yeoman_token_budget"@);
    &&& matched(m, "yeoman_token_budget"@)
    &&& cap_str_spec(c, 1).len() > 0
}

/// The request that the `yeoman_token_budget` pattern gives.
pub open spec fn yeoman_token_budget_gives(m: Found, r: Intent) -> bool {
    let c = caps(m, "yeoman_token_budget"@);
    &&& r matches Intent::YeomanTokenBudget { action, pool, amount }
    &&& action@ == cap_str_spec(c, 1)
    &&& opt_view(pool) == cap_opt_spec(c, 2)
    &&& amount is None
}

/// Whether the `yeoman_events` pattern matched with what its request needs.
pub open spec fn yeoman_events_fires(m: Found) -> bool {
    let c = caps(m, "yeoman_events"@);
    &&& matched(m, "yeoman_events"@)
    &&& cap_str_spec(c, 1).len() > 0
}

/// The request that the `yeoman_events` pattern gives.
pub open spec fn yeoman_events_gives(m: Found, r: Intent) -> bool {
    let c = caps(m, "yeoman_events"@);
    &&& r matches Intent::YeomanEvents { action, limit }
    &&& action@ == cap_str_spec(c, 1)
    &&& opt_view(limit) == cap_opt_spec(c, 2)
}

/// Whether the `yeoman_swarm` pattern matched with what its request needs.
pub open spec fn yeoman_swarm_fires(m: Found) -> bool {
    let c = caps(m, "yeoman_swarm"@);
    &&& matched(m, "yeoman_swarm"@)
    &&& cap_str_spec(c, 1).len() > 0
}

/// The request that the `yeoman_swarm` pattern gives.
pub open spec fn yeoman_swarm_gives(m: Found, r: Intent) -> bool {
    let c = caps(m, "yeoman_swarm"@);
    &&& r matches Intent::YeomanSwarm { action, swarm_id, capability }
    &&& action@ == cap_str_spec(c, 1)
    &&& opt_view(swarm_id) == cap_opt_spec(c, 2)
    &&& opt_view(capability) == cap_opt_spec(c, 2)
}

/// Whether one of the SecureYeoman AI platform patterns gives a request.
pub open spec fn yeoman_fires(m: Found) -> bool {
    ||| yeoman_agents_fires(m)
    ||| yeoman_tasks_fires(m)
    ||| yeoman_tools_fires(m)
    ||| yeoman_integrations_fires(m)
    ||| yeoman_status_fires(m)
    ||| yeoman_logs_fires(m)
    ||| yeoman_workflows_fires(m)
    ||| yeoman_register_tools_fires(m)
    ||| yeoman_tool_execute_fires(m)
    ||| yeoman_brain_query_fires(m)
    ||| yeoman_brain_sync_fires(m)
    ||| yeoman_token_budget_fires(m)
    ||| yeoman_events_fires(m)
    ||| yeoman_swarm_fires(m)
}

/// The request of the first SecureYeoman AI platform pattern that gives one, in the order they
/// are tried; `None` where none does.
pub open spec fn yeoman_result(m: Found, r: Option<Intent>) -> bool {
    if yeoman_agents_fires(m) {
        r matches Some(i) && yeoman_agents_gives(m, i)
    } else if yeoman_tasks_fires(m) {
        r matches Some(i) && yeoman_tasks_gives(m, i)
    } else if yeoman_tools_fires(m) {
        r matches Some(i) && yeoman_tools_gives(m, i)
    } else if yeoman_integrations_fires(m) {
        r matches Some(i) && yeoman_integrations_gives(m, i)
    } else if yeoman_status_fires(m) {
        r matches Some(i) && yeoman_status_gives(m, i)
    } else if yeoman_logs_fires(m) {
        r matches Some(i) && yeoman_logs_gives(m, i)
    } else if yeoman_workflows_fires(m) {
        r matches Some(i) && yeoman_workflows_gives(m, i)
    } else if yeoman_register_tools_fires(m) {
        r matches Some(i) && yeoman_register_tools_gives(m, i)
    } else if yeoman_tool_execute_fires(m) {
        r matches Some(i) && yeoman_tool_execute_gives(m, i)
    } else if yeoman_brain_query_fires(m) {
        r matches Some(i) && yeoman_brain_query_gives(m, i)
    } else if yeoman_brain_sync_fires(m) {
        r matches Some(i) && yeoman_brain_sync_gives(m, i)
    } else if yeoman_token_budget_fires(m) {
        r matches Some(i) && yeoman_token_budget_gives(m, i)
    } else if yeoman_events_fires(m) {
        r matches Some(i) && yeoman_events_gives(m, i)
    } else if yeoman_swarm_fires(m) {
        r matches Some(i) && yeoman_swarm_gives(m, i)
    } else {
        r is None
    }
}

fn parse_yeoman(lower: &PatternMatches) -> (r: Option<Intent>)
    ensures
        yeoman_result(lower@, r),
        r is Some <==> yeoman_fires(lower@),
{
    match lower.try_captures("yeoman_agents") {
        Some(c) => {
            let action = cap_str(c, 2);
            let agent_id = cap_opt(c, 4);
            let name = cap_opt(c, 4);
            if !action.as_str().is_empty() {
                return Some(Intent::YeomanAgents { action, agent_id, name });
            }
        },
        None => {},
    }
    match lower.try_captures("yeoman_tasks") {
        Some(c) => {
            let action = cap_str(c, 2);
            let description = cap_opt(c, 4);
            let task_id = cap_opt(c, 4);
            if !action.as_str().is_empty() {
                return Some(Intent::YeomanTasks { action, description, task_id });
            }
        },
        None => {},
    }
    match lower.try_captures("yeoman_tools") {
        Some(c) => {
            let action = cap_str(c, 2);
            let query = cap_opt(c, 4);
            if !action.as_str().is_empty() {
                return Some(Intent::YeomanTools { action, query });
            }
        },
        None => {},
    }
    match lower.try_captures("yeoman_integrations") {
        Some(c) => {
            let action = cap_str(c, 2);
            let name = cap_opt(c, 4);
            if !action.as_str().is_empty() {
                return Some(Intent::YeomanIntegrations { action, name });
            }
        },
        None => {},
    }
    match lower.try_captures("yeoman_status") {
        Some(_) => {
            return Some(Intent::YeomanStatus);
        },
        None => {},
    }
    match lower.try_captures("yeoman_logs") {
        Some(c) => {
            let action = cap_str(c, 2);
            let agent_id = cap_opt(c, 4);
            if !action.as_str().is_empty() {
                return Some(Intent::YeomanLogs { action, agent_id });
            }
        },
        None => {},
    }
    match lower.try_captures("yeoman_workflows") {
        Some(c) => {
            let action = cap_str(c, 2);
            let name = cap_opt(c, 4);
            if !action.as_str().is_empty() {
                return Some(Intent::YeomanWorkflows { action, name });
            }
        },
        None => {},
    }
    match lower.try_captures("yeoman_register_tools") {
        Some(c) => {
            let action = owned("register");
            return Some(Intent::YeomanRegisterTools { action });
        },
        None => {},
    }
    match lower.try_captures("yeoman_tool_execute") {
        Some(c) => {
            let tool_name = cap_str(c, 1);
            let args = cap_opt(c, 2);
            if !tool_name.as_str().is_empty() {
                return Some(Intent::YeomanToolExecute { tool_name, args });
            }
        },
        None => {},
    }
    match lower.try_captures("yeoman_brain_query") {
        Some(c) => {
            let query = cap_str(c, 1);
            let limit = None;
            if !query.as_str().is_empty() {
                return Some(Intent::YeomanBrainQuery { query, limit });
            }
        },
        None => {},
    }
    match lower.try_captures("yeoman_brain_sync") {
        Some(c) => {
            let action = cap_str(c, 1);
            let topic = None;
            if !action.as_str().is_empty() {
                return Some(Intent::YeomanBrainSync { action, topic });
            }
        },
        None => {},
    }
    match lower.try_captures("yeoman_token_budget") {
        Some(c) => {
            let action = cap_str(c, 1);
            let pool = cap_opt(c, 2);
            let amount = None;
            if !action.as_str().is_empty() {
                return Some(Intent::YeomanTokenBudget { action, pool, amount });
            }
        },
        None => {},
    }
    match lower.try_captures("yeoman_events") {
        Some(c) => {
            let action = cap_str(c, 1);
            let limit = cap_opt(c, 2);
            if !action.as_str().is_empty() {
                return Some(Intent::YeomanEvents { action, limit });
            }
        },
        None => {},
    }
    match lower.try_captures("yeoman_swarm") {
        Some(c) => {
            let action = cap_str(c, 1);
            let swarm_id = cap_opt(c, 2);
            let capability = cap_opt(c, 2);
            if !action.as_str().is_empty() {
                return Some(Intent::YeomanSwarm { action, swarm_id, capability });
            }
        },
        None => {},
    }
    None
}

proof fn lemma_yeoman_requests_accepted(m: Found, r: Option<Intent>)
    requires
        yeoman_result(m, r),
    ensures
        r matches Some(i) ==> crate::translate::yeoman::is_yeoman_intent(&i),
{
}

proof fn lemma_yeoman_carries_groups(m: Found, r: Option<Intent>)
    requires
        yeoman_result(m, r),
    ensures
        r matches Some(i) ==> (i is YeomanAgents || i is YeomanTasks || i is YeomanTools || i is YeomanIntegrations || i is YeomanStatus || i is YeomanLogs || i is YeomanWorkflows || i is YeomanRegisterTools || i is YeomanToolExecute || i is YeomanBrainQuery || i is YeomanBrainSync || i is YeomanTokenBudget || i is YeomanEvents || i is YeomanSwarm),
        r matches Some(Intent::YeomanAgents { action, agent_id, name }) ==> (({ let c = caps(m, "yeoman_agents"@); matched(m, "yeoman_agents"@) && action@ == cap_str_spec(c, 2) && opt_view(agent_id) == cap_opt_spec(c, 4) && opt_view(name) == cap_opt_spec(c, 4) })),
        r matches Some(Intent::YeomanTasks { action, description, task_id }) ==> (({ let c = caps(m, "yeoman_tasks"@); matched(m, "yeoman_tasks"@) && action@ == cap_str_spec(c, 2) && opt_view(description) == cap_opt_spec(c, 4) && opt_view(task_id) == cap_opt_spec(c, 4) })),
        r matches Some(Intent::YeomanTools { action, query }) ==> (({ let c = caps(m, "yeoman_tools"@); matched(m, "yeoman_tools"@) && action@ == cap_str_spec(c, 2) && opt_view(query) == cap_opt_spec(c, 4) })),
        r matches Some(Intent::YeomanIntegrations { action, name }) ==> (({ let c = caps(m, "yeoman_integrations"@); matched(m, "yeoman_integrations"@) && action@ == cap_str_spec(c, 2) && opt_view(name) == cap_opt_spec(c, 4) })),
        r matches Some(Intent::YeomanStatus) ==> (({ let c = caps(m, "yeoman_status"@); matched(m, "yeoman_status"@) })),
        r matches Some(Intent::YeomanLogs { action, agent_id }) ==> (({ let c = caps(m, "yeoman_logs"@); matched(m, "yeoman_logs"@) && action@ == cap_str_spec(c, 2) && opt_view(agent_id) == cap_opt_spec(c, 4) })),
        r matches Some(Intent::YeomanWorkflows { action, name }) ==> (({ let c = caps(m, "yeoman_workflows"@); matched(m, "yeoman_workflows"@) && action@ == cap_str_spec(c, 2) && opt_view(name) == cap_opt_spec(c, 4) })),
        r matches Some(Intent::YeomanRegisterTools { action }) ==> (({ let c = caps(m, "yeoman_register_tools"@); matched(m, "yeoman_register_tools"@) && action@ == "register"@ })),
        r matches Some(Intent::YeomanToolExecute { tool_name, args }) ==> (({ let c = caps(m, "yeoman_tool_execute"@); matched(m, "yeoman_tool_execute"@) && tool_name@ == cap_str_spec(c, 1) && opt_view(args) == cap_opt_spec(c, 2) })),
        r matches Some(Intent::YeomanBrainQuery { query, limit }) ==> (({ let c = caps(m, "yeoman_brain_query"@); matched(m, "yeoman_brain_query"@) && query@ == cap_str_spec(c, 1) && limit is None })),
        r matches Some(Intent::YeomanBrainSync { action, topic }) ==> (({ let c = caps(m, "yeoman_brain_sync"@); matched(m, "yeoman_brain_sync"@) && action@ == cap_str_spec(c, 1) && topic is None })),
        r matches Some(Intent::YeomanTokenBudget { action, pool, amount }) ==> (({ let c = caps(m, "yeoman_token_budget"@); matched(m, "yeoman_token_budget"@) && action@ == cap_str_spec(c, 1) && opt_view(pool) == cap_opt_spec(c, 2) && amount is None })),
        r matches Some(Intent::YeomanEvents { action, limit }) ==> (({ let c = caps(m, "yeoman_events"@); matched(m, "yeoman_events"@) && action@ == cap_str_spec(c, 1) && opt_view(limit) == cap_opt_spec(c, 2) })),
        r matches Some(Intent::YeomanSwarm { action, swarm_id, capability }) ==> (({ let c = caps(m, "yeoman_swarm"@); matched(m, "yeoman_swarm"@) && action@ == cap_str_spec(c, 1) && opt_view(swarm_id) == cap_opt_spec(c, 2) && opt_view(capability) == cap_opt_spec(c, 2) })),
{
}

// --- Delta code hosting ---

/// Whether the `delta_create_repo` pattern matched with what its request needs.
pub open spec fn delta_create_repo_fires(m: Found) -> bool {
    let c = caps(m, "delta_create_repo"@);
    &&& matched(m, "delta_create_repo"@)
    &&& cap_str_spec(c, 2).len() > 0
}

/// The request that the `delta_create_repo` pattern gives.
pub open spec fn delta_create_repo_gives(m: Found, r: Intent) -> bool {
    let c = caps(m, "delta_create_repo"@);
    &&& r matches Intent::DeltaCreateRepo { name, description }
    &&& name@ == cap_str_spec(c, 2)
    &&& opt_view(description) == cap_opt_spec(c, 4)
}

/// Whether the `delta_list_repos` pattern matched.
pub open spec fn delta_list_repos_fires(m: Found) -> bool {
    matched(m, "delta_list_repos"@)
}

/// The request that the `delta_list_repos` pattern gives.
pub open spec fn delta_list_repos_gives(m: Found, r: Intent) -> bool {
    r is DeltaListRepos
}

/// Whether the `delta_pr` pattern matched.
pub open spec fn delta_pr_fires(m: Found) -> bool {
    matched(m, "delta_pr"@)
}

/// The request that the `delta_pr` pattern gives.
pub open spec fn delta_pr_gives(m: Found, r: Intent) -> bool {
    let c = caps(m, "delta_pr"@);
    &&& r matches Intent::DeltaPr { action, repo, title }
    &&& action@ == cap_str_or_spec(c, 2, "list"@)
    &&& opt_view(repo) == cap_opt_spec(c, 4)
    &&& opt_view(title) == cap_opt_spec(c, 6)
}

/// Whether the `delta_push` pattern matched.
pub open spec fn delta_push_fires(m: Found) -> bool {
    matched(m, "delta_push"@)
}

/// The request that the `delta_push` pattern gives.
pub open spec fn delta_push_gives(m: Found, r: Intent) -> bool {
    let c = caps(m, "delta_push"@);
    &&& r matches Intent::DeltaPush { repo, branch }
    &&& opt_view(repo) == cap_opt_spec(c, 2)
    &&& opt_view(branch) == cap_opt_spec(c, 4)
}

/// Whether the `delta_ci` pattern matched.
pub open spec fn delta_ci_fires(m: Found) -> bool {
    matched(m, "delta_ci"@)
}

/// The request that the `delta_ci` pattern gives.
pub open spec fn delta_ci_gives(m: Found, r: Intent) -> bool {
    let c = caps(m, "delta_ci"@);
    &&& r matches Intent::DeltaCiStatus { repo }
    &&& opt_view(repo) == cap_opt_spec(c, 4)
}

/// Whether the `delta_branches` pattern matched with what its request needs.
pub open spec fn delta_branches_fires(m: Found) -> bool {
    let c = caps(m, "delta_branches"@);
    &&& matched(m, "delta_branches"@)
    &&& cap_str_spec(c, 2).len() > 0
}

/// The request that the `delta_branches` pattern gives.
pub open spec fn delta_branches_gives(m: Found, r: Intent) -> bool {
    let c = caps(m, "delta_branches"@);
    &&& r matches Intent::DeltaBranches { action, repo, name }
    &&& action@ == cap_str_spec(c, 2)
    &&& repo is None
    &&& opt_view(name) == cap_opt_spec(c, 4)
}

/// Whether the `delta_review` pattern matched with what its request needs.
pub open spec fn delta_review_fires(m: Found) -> bool {
    let c = caps(m, "delta_review"@);
    &&& matched(m, "delta_review"@)
    &&& cap_str_spec(c, 2).len() > 0
}

/// The request that the `delta_review` pattern gives.
pub open spec fn delta_review_gives(m: Found, r: Intent) -> bool {
    let c = caps(m, "delta_review"@);
    &&& r matches Intent::DeltaReview { action, pr_id }
    &&& action@ == cap_str_spec(c, 2)
    &&& opt_view(pr_id) == cap_opt_spec(c, 4)
}

/// Whether one of the Delta code hosting patterns gives a request.
pub open spec fn delta_fires(m: Found) -> bool {
    ||| delta_create_repo_fires(m)
    ||| delta_list_repos_fires(m)
    ||| delta_pr_fires(m)
    ||| delta_push_fires(m)
    ||| delta_ci_fires(m)
    ||| delta_branches_fires(m)
    ||| delta_review_fires(m)
}

/// The request of the first Delta code hosting pattern that gives one, in the order they
/// are tried; `None` where none does.
pub open spec fn delta_result(m: Found, r: Option<Intent>) -> bool {
    if delta_create_repo_fires(m) {
        r matches Some(i) && delta_create_repo_gives(m, i)
    } else if delta_list_repos_fires(m) {
        r matches Some(i) && delta_list_repos_gives(m, i)
    } else if delta_pr_fires(m) {
        r matches Some(i) && delta_pr_gives(m, i)
    } else if delta_push_fires(m) {
        r matches Some(i) && delta_push_gives(m, i)
    } else if delta_ci_fires(m) {
        r matches Some(i) && delta_ci_gives(m, i)
    } else if delta_branches_fires(m) {
        r matches Some(i) && delta_branches_gives(m, i)
    } else if delta_review_fires(m) {
        r matches Some(i) && delta_review_gives(m, i)
    } else {
        r is None
    }
}

fn parse_delta(lower: &PatternMatches) -> (r: Option<Intent>)
    ensures
        delta_result(lower@, r),
        r is Some <==> delta_fires(lower@),
{
    match lower.try_captures("delta_create_repo") {
        Some(c) => {
            let name = cap_str(c, 2);
            let description = cap_opt(c, 4);
            if !name.as_str().is_empty() {
                return Some(Intent::DeltaCreateRepo { name, description });
            }
        },
        None => {},
    }
    match lower.try_captures("delta_list_repos") {
        Some(_) => {
            return Some(Intent::DeltaListRepos);
        },
        None => {},
    }
    match lower.try_captures("delta_pr") {
        Some(c) => {
            let action = cap_str_or(c, 2, "list");
            let repo = cap_opt(c, 4);
            let title = cap_opt(c, 6);
            return Some(Intent::DeltaPr { action, repo, title });
        },
        None => {},
    }
    match lower.try_captures("delta_push") {
        Some(c) => {
            let repo = cap_opt(c, 2);
            let branch = cap_opt(c, 4);
            return Some(Intent::DeltaPush { repo, branch });
        },
        None => {},
    }
    match lower.try_captures("delta_ci") {
        Some(c) => {
            let repo = cap_opt(c, 4);
            return Some(Intent::DeltaCiStatus { repo });
        },
        None => {},
    }
    match lower.try_captures("delta_branches") {
        Some(c) => {
            let action = cap_str(c, 2);
            let repo = None;
            let name = cap_opt(c, 4);
            if !action.as_str().is_empty() {
                return Some(Intent::DeltaBranches { action, repo, name });
            }
        },
        None => {},
    }
    match lower.try_captures("delta_review") {
        Some(c) => {
            let action = cap_str(c, 2);
            let pr_id = cap_opt(c, 4);
            if !action.as_str().is_empty() {
                return Some(Intent::DeltaReview { action, pr_id });
            }
        },
        None => {},
    }
    None
}

proof fn lemma_delta_requests_accepted(m: Found, r: Option<Intent>)
    requires
        delta_result(m, r),
    ensures
        r matches Some(i) ==> crate::translate::delta::is_delta_intent(&i),
{
}

proof fn lemma_delta_carries_groups(m: Found, r: Option<Intent>)
    requires
        delta_result(m, r),
    ensures
        r matches Some(i) ==> (i is DeltaCreateRepo || i is DeltaListRepos || i is DeltaPr || i is DeltaPush || i is DeltaCiStatus || i is DeltaBranches || i is DeltaReview),
        r matches Some(Intent::DeltaCreateRepo { name, description }) ==> (({ let c = caps(m, "delta_create_repo"@); matched(m, "delta_create_repo"@) && name@ == cap_str_spec(c, 2) && opt_view(description) == cap_opt_spec(c, 4) })),
        r matches Some(Intent::DeltaListRepos) ==> (({ let c = caps(m, "delta_list_repos"@); matched(m, "delta_list_repos"@) })),
        r matches Some(Intent::DeltaPr { action, repo, title }) ==> (({ let c = caps(m, "delta_pr"@); matched(m, "delta_pr"@) && action@ == cap_str_or_spec(c, 2, "list"@) && opt_view(repo) == cap_opt_spec(c, 4) && opt_view(title) == cap_opt_spec(c, 6) })),
        r matches Some(Intent::DeltaPush { repo, branch }) ==> (({ let c = caps(m, "delta_push"@); matched(m, "delta_push"@) && opt_view(repo) == cap_opt_spec(c, 2) && opt_view(branch) == cap_opt_spec(c, 4) })),
        r matches Some(Intent::DeltaCiStatus { repo }) ==> (({ let c = caps(m, "delta_ci"@); matched(m, "delta_ci"@) && opt_view(repo) == cap_opt_spec(c, 4) })),
        r matches Some(Intent::DeltaBranches { action, repo, name }) ==> (({ let c = caps(m, "delta_branches"@); matched(m, "delta_branches"@) && action@ == cap_str_spec(c, 2) && repo is None && opt_view(name) == cap_opt_spec(c, 4) })),
        r matches Some(Intent::DeltaReview { action, pr_id }) ==> (({ let c = caps(m, "delta_review"@); matched(m, "delta_review"@) && action@ == cap_str_spec(c, 2) && opt_view(pr_id) == cap_opt_spec(c, 4) })),
{
}

// --- Aequi accounting ---

/// Whether the `aequi_tax` pattern matched.
pub open spec fn aequi_tax_fires(m: Found) -> bool {
    matched(m, "aequi_tax"@)
}

/// The request that the `aequi_tax` pattern gives.
pub open spec fn aequi_tax_gives(m: Found, r: Intent) -> bool {
    let c = caps(m, "aequi_tax"@);
    &&& r matches Intent::AequiTaxEstimate { quarter }
    &&& opt_view(quarter) == cap_opt_spec(c, 6)
}

/// Whether the `aequi_schedule_c` pattern matched.
pub open spec fn aequi_schedule_c_fires(m: Found) -> bool {
    matched(m, "aequi_schedule_c"@)
}

/// The request that the `aequi_schedule_c` pattern gives.
pub open spec fn aequi_schedule_c_gives(m: Found, r: Intent) -> bool {
    let c = caps(m, "aequi_schedule_c"@);
    &&& r matches Intent::AequiScheduleC { year }
    &&& opt_view(year) == cap_opt_spec(c, 4)
}

/// Whether the `aequi_import` pattern matched with what its request needs.
pub open spec fn aequi_import_fires(m: Found) -> bool {
    let c = caps(m, "aequi_import"@);
    &&& matched(m, "aequi_import"@)
    &&& cap_str_spec(c, 4).len() > 0
}

/// The request that the `aequi_import` pattern gives.
pub open spec fn aequi_import_gives(m: Found, r: Intent) -> bool {
    let c = caps(m, "aequi_import"@);
    &&& r matches Intent::AequiImportBank { file_path }
    &&& file_path@ == cap_str_spec(c, 4)
}

/// Whether the `aequi_balance` pattern matched.
pub open spec fn aequi_balance_fires(m: Found) -> bool {
    matched(m, "aequi_balance"@)
}

/// The request that the `aequi_balance` pattern gives.
pub open spec fn aequi_balance_gives(m: Found, r: Intent) -> bool {
    r is AequiBalance
}

/// Whether the `aequi_receipts` pattern matched.
pub open spec fn aequi_receipts_fires(m: Found) -> bool {
    matched(m, "aequi_receipts"@)
}

/// The request that the `aequi_receipts` pattern gives.
pub open spec fn aequi_receipts_gives(m: Found, r: Intent) -> bool {
    let c = caps(m, "aequi_receipts"@);
    &&& r matches Intent::AequiReceipts { status }
    &&& opt_view(status) == receipt_status_spec(c, 3)
}

/// Whether the `aequi_invoices` pattern matched with what its request needs.
pub open spec fn aequi_invoices_fires(m: Found) -> bool {
    let c = caps(m, "aequi_invoices"@);
    &&& matched(m, "aequi_invoices"@)
    &&& cap_str_spec(c, 2).len() > 0
}

/// The request that the `aequi_invoices` pattern gives.
pub open spec fn aequi_invoices_gives(m: Found, r: Intent) -> bool {
    let c = caps(m, "aequi_invoices"@);
    &&& r matches Intent::AequiInvoices { action, client }
    &&& action@ == cap_str_spec(c, 2)
    &&& opt_view(client) == cap_opt_spec(c, 4)
}

/// Whether the `aequi_reports` pattern matched with what its request needs.
pub open spec fn aequi_reports_fires(m: Found) -> bool {
    let c = caps(m, "aequi_reports"@);
    &&& matched(m, "aequi_reports"@)
    &&& cap_word_spec(c, 2).len() > 0
}

/// The request that the `aequi_reports` pattern gives.
pub open spec fn aequi_reports_gives(m: Found, r: Intent) -> bool {
    let c = caps(m, "aequi_reports"@);
    &&& r matches Intent::AequiReports { action, period }
    &&& action@ == cap_word_spec(c, 2)
    &&& opt_view(period) == cap_opt_spec(c, 4)
}

/// Whether one of the Aequi accounting patterns gives a request.
pub open spec fn aequi_fires(m: Found) -> bool {
    ||| aequi_tax_fires(m)
    ||| aequi_schedule_c_fires(m)
    ||| aequi_import_fires(m)
    ||| aequi_balance_fires(m)
    ||| aequi_receipts_fires(m)
    ||| aequi_invoices_fires(m)
    ||| aequi_reports_fires(m)
}

/// The request of the first Aequi accounting pattern that gives one, in the order they
/// are tried; `None` where none does.
pub open spec fn aequi_result(m: Found, r: Option<Intent>) -> bool {
    if aequi_tax_fires(m) {
        r matches Some(i) && aequi_tax_gives(m, i)
    } else if aequi_schedule_c_fires(m) {
        r matches Some(i) && aequi_schedule_c_gives(m, i)
    } else if aequi_import_fires(m) {
        r matches Some(i) && aequi_import_gives(m, i)
    } else if aequi_balance_fires(m) {
        r matches Some(i) && aequi_balance_gives(m, i)
    } else if aequi_receipts_fires(m) {
        r matches Some(i) && aequi_receipts_gives(m, i)
    } else if aequi_invoices_fires(m) {
        r matches Some(i) && aequi_invoices_gives(m, i)
    } else if aequi_reports_fires(m) {
        r matches Some(i) && aequi_reports_gives(m, i)
    } else {
        r is None
    }
}

fn parse_aequi(lower: &PatternMatches) -> (r: Option<Intent>)
    ensures
        aequi_result(lower@, r),
        r is Some <==> aequi_fires(lower@),
{
    match lower.try_captures("aequi_tax") {
        Some(c) => {
            let quarter = cap_opt(c, 6);
            return Some(Intent::AequiTaxEstimate { quarter });
        },
        None => {},
    }
    match lower.try_captures("aequi_schedule_c") {
        Some(c) => {
            let year = cap_opt(c, 4);
            return Some(Intent::AequiScheduleC { year });
        },
        None => {},
    }
    match lower.try_captures("aequi_import") {
        Some(c) => {
            let file_path = cap_str(c, 4);
            if !file_path.as_str().is_empty() {
                return Some(Intent::AequiImportBank { file_path });
            }
        },
        None => {},
    }
    match lower.try_captures("aequi_balance") {
        Some(_) => {
            return Some(Intent::AequiBalance);
        },
        None => {},
    }
    match lower.try_captures("aequi_receipts") {
        Some(c) => {
            let status = receipt_status(c, 3);
            return Some(Intent::AequiReceipts { status });
        },
        None => {},
    }
    match lower.try_captures("aequi_invoices") {
        Some(c) => {
            let action = cap_str(c, 2);
            let client = cap_opt(c, 4);
            if !action.as_str().is_empty() {
                return Some(Intent::AequiInvoices { action, client });
            }
        },
        None => {},
    }
    match lower.try_captures("aequi_reports") {
        Some(c) => {
            let action = cap_word(c, 2);
            let period = cap_opt(c, 4);
            if !action.as_str().is_empty() {
                return Some(Intent::AequiReports { action, period });
            }
        },
        None => {},
    }
    None
}

/// Whether `i` is a Aequi accounting request.
pub open spec fn is_aequi_request(i: Intent) -> bool {
    ||| i is AequiTaxEstimate
    ||| i is AequiScheduleC
    ||| i is AequiImportBank
    ||| i is AequiBalance
    ||| i is AequiReceipts
    ||| i is AequiInvoices
    ||| i is AequiReports
}

proof fn lemma_aequi_requests_accepted(m: Found, r: Option<Intent>)
    requires
        aequi_result(m, r),
    ensures
        r matches Some(i) ==> is_aequi_request(i),
{
}

proof fn lemma_aequi_carries_groups(m: Found, r: Option<Intent>)
    requires
        aequi_result(m, r),
    ensures
        r matches Some(i) ==> (i is AequiTaxEstimate || i is AequiScheduleC || i is AequiImportBank || i is AequiBalance || i is AequiReceipts || i is AequiInvoices || i is AequiReports),
        r matches Some(Intent::AequiTaxEstimate { quarter }) ==> (({ let c = caps(m, "aequi_tax"@); matched(m, "aequi_tax"@) && opt_view(quarter) == cap_opt_spec(c, 6) })),
        r matches Some(Intent::AequiScheduleC { year }) ==> (({ let c = caps(m, "aequi_schedule_c"@); matched(m, "aequi_schedule_c"@) && opt_view(year) == cap_opt_spec(c, 4) })),
        r matches Some(Intent::AequiImportBank { file_path }) ==> (({ let c = caps(m, "aequi_import"@); matched(m, "aequi_import"@) && file_path@ == cap_str_spec(c, 4) })),
        r matches Some(Intent::AequiBalance) ==> (({ let c = caps(m, "aequi_balance"@); matched(m, "aequi_balance"@) })),
        r matches Some(Intent::AequiReceipts { status }) ==> (({ let c = caps(m, "aequi_receipts"@); matched(m, "aequi_receipts"@) && opt_view(status) == receipt_status_spec(c, 3) })),
        r matches Some(Intent::AequiInvoices { action, client }) ==> (({ let c = caps(m, "aequi_invoices"@); matched(m, "aequi_invoices"@) && action@ == cap_str_spec(c, 2) && opt_view(client) == cap_opt_spec(c, 4) })),
        r matches Some(Intent::AequiReports { action, period }) ==> (({ let c = caps(m, "aequi_reports"@); matched(m, "aequi_reports"@) && action@ == cap_word_spec(c, 2) && opt_view(period) == cap_opt_spec(c, 4) })),
{
}

// --- Photis Nadi task management ---

/// Whether the `task_list` pattern matched.
pub open spec fn task_list_fires(m: Found) -> bool {
    matched(m, "task_list"@)
}

/// The request that the `task_list` pattern gives.
pub open spec fn task_list_gives(m: Found, r: Intent) -> bool {
    let c = caps(m, "task_list"@);
    &&& r matches Intent::TaskList { status }
    &&& opt_view(status) == cap_opt_spec(c, 4)
}

/// Whether the `task_create` pattern matched with what its request needs.
pub open spec fn task_create_fires(m: Found, o: Found) -> bool {
    let c = caps(o, "task_create"@);
    &&& matched(o, "task_create"@)
    &&& cap_str_spec(c, 2).len() > 0
}

/// The request that the `task_create` pattern gives.
pub open spec fn task_create_gives(m: Found, o: Found, r: Intent) -> bool {
    let c = caps(o, "task_create"@);
    &&& r matches Intent::TaskCreate { title, priority }
    &&& title@ == cap_str_spec(c, 2)
    &&& opt_view(priority) == cap_opt_spec(c, 4)
}

/// Whether the `task_update` pattern matched with what its request needs.
pub open spec fn task_update_fires(m: Found) -> bool {
    let c = caps(m, "task_update"@);
    &&& matched(m, "task_update"@)
    &&& cap_str_spec(c, 2).len() > 0
}

/// The request that the `task_update` pattern gives.
pub open spec fn task_update_gives(m: Found, r: Intent) -> bool {
    let c = caps(m, "task_update"@);
    &&& r matches Intent::TaskUpdate { task_id, status }
    &&& task_id@ == cap_str_spec(c, 2)
    &&& opt_view(status) == cap_opt_spec(c, 3)
}

/// Whether the `ritual_check` pattern matched.
pub open spec fn ritual_check_fires(m: Found) -> bool {
    matched(m, "ritual_check"@)
}

/// The request that the `ritual_check` pattern gives.
pub open spec fn ritual_check_gives(m: Found, r: Intent) -> bool {
    let c = caps(m, "ritual_check"@);
    &&& r matches Intent::RitualCheck { date }
    &&& opt_view(date) == cap_opt_spec(c, 2)
}

/// Whether the `productivity_stats` pattern matched.
pub open spec fn productivity_stats_fires(m: Found) -> bool {
    matched(m, "productivity_stats"@)
}

/// The request that the `productivity_stats` pattern gives.
pub open spec fn productivity_stats_gives(m: Found, r: Intent) -> bool {
    let c = caps(m, "productivity_stats"@);
    &&& r matches Intent::ProductivityStats { period }
    &&& opt_view(period) == period_spec(c, 2)
}

/// Whether the `photis_boards` pattern matched with what its request needs.
pub open spec fn photis_boards_fires(m: Found) -> bool {
    let c = caps(m, "photis_boards"@);
    &&& matched(m, "photis_boards"@)
    &&& cap_str_spec(c, 2).len() > 0
}

/// The request that the `photis_boards` pattern gives.
pub open spec fn photis_boards_gives(m: Found, r: Intent) -> bool {
    let c = caps(m, "photis_boards"@);
    &&& r matches Intent::PhotoisBoards { action, name }
    &&& action@ == cap_str_spec(c, 2)
    &&& opt_view(name) == cap_opt_spec(c, 4)
}

/// Whether the `photis_notes` pattern matched with what its request needs.
pub open spec fn photis_notes_fires(m: Found) -> bool {
    let c = caps(m, "photis_notes"@);
    &&& matched(m, "photis_notes"@)
    &&& cap_str_spec(c, 2).len() > 0
}

/// The request that the `photis_notes` pattern gives.
pub open spec fn photis_notes_gives(m: Found, r: Intent) -> bool {
    let c = caps(m, "photis_notes"@);
    &&& r matches Intent::PhotoisNotes { action, content }
    &&& action@ == cap_str_spec(c, 2)
    &&& opt_view(content) == cap_opt_spec(c, 4)
}

/// Whether one of the Photis Nadi task management patterns gives a request.
pub open spec fn photis_fires(m: Found, o: Found) -> bool {
    ||| task_list_fires(m)
    ||| task_create_fires(m, o)
    ||| task_update_fires(m)
    ||| ritual_check_fires(m)
    ||| productivity_stats_fires(m)
    ||| photis_boards_fires(m)
    ||| photis_notes_fires(m)
}

/// The request of the first Photis Nadi task management pattern that gives one, in the order they
/// are tried; `None` where none does.
pub open spec fn photis_result(m: Found, o: Found, r: Option<Intent>) -> bool {
    if task_list_fires(m) {
        r matches Some(i) && task_list_gives(m, i)
    } else if task_create_fires(m, o) {
        r matches Some(i) && task_create_gives(m, o, i)
    } else if task_update_fires(m) {
        r matches Some(i) && task_update_gives(m, i)
    } else if ritual_check_fires(m) {
        r matches Some(i) && ritual_check_gives(m, i)
    } else if productivity_stats_fires(m) {
        r matches Some(i) && productivity_stats_gives(m, i)
    } else if photis_boards_fires(m) {
        r matches Some(i) && photis_boards_gives(m, i)
    } else if photis_notes_fires(m) {
        r matches Some(i) && photis_notes_gives(m, i)
    } else {
        r is None
    }
}

fn parse_photis(lower: &PatternMatches, original: &PatternMatches) -> (r: Option<Intent>)
    ensures
        photis_result(lower@, original@, r),
        r is Some <==> photis_fires(lower@, original@),
{
    match lower.try_captures("task_list") {
        Some(c) => {
            let status = cap_opt(c, 4);
            return Some(Intent::TaskList { status });
        },
        None => {},
    }
    match original.try_captures("task_create") {
        Some(c) => {
            let title = cap_str(c, 2);
            let priority = cap_opt(c, 4);
            if !title.as_str().is_empty() {
                return Some(Intent::TaskCreate { title, priority });
            }
        },
        None => {},
    }
    match lower.try_captures("task_update") {
        Some(c) => {
            let task_id = cap_str(c, 2);
            let status = cap_opt(c, 3);
            if !task_id.as_str().is_empty() {
                return Some(Intent::TaskUpdate { task_id, status });
            }
        },
        None => {},
    }
    match lower.try_captures("ritual_check") {
        Some(c) => {
            let date = cap_opt(c, 2);
            return Some(Intent::RitualCheck { date });
        },
        None => {},
    }
    match lower.try_captures("productivity_stats") {
        Some(c) => {
            let period = period(c, 2);
            return Some(Intent::ProductivityStats { period });
        },
        None => {},
    }
    match lower.try_captures("photis_boards") {
        Some(c) => {
            let action = cap_str(c, 2);
            let name = cap_opt(c, 4);
            if !action.as_str().is_empty() {
                return Some(Intent::PhotoisBoards { action, name });
            }
        },
        None => {},
    }
    match lower.try_captures("photis_notes") {
        Some(c) => {
            let action = cap_str(c, 2);
            let content = cap_opt(c, 4);
            if !action.as_str().is_empty() {
                return Some(Intent::PhotoisNotes { action, content });
            }
        },
        None => {},
    }
    None
}

proof fn lemma_photis_requests_accepted(m: Found, o: Found, r: Option<Intent>)
    requires
        photis_result(m, o, r),
    ensures
        r matches Some(i) ==> crate::translate::photis::is_photis_intent(&i),
{
}

proof fn lemma_photis_carries_groups(m: Found, o: Found, r: Option<Intent>)
    requires
        photis_result(m, o, r),
    ensures
        r matches Some(i) ==> (i is TaskList || i is TaskCreate || i is TaskUpdate || i is RitualCheck || i is ProductivityStats || i is PhotoisBoards || i is PhotoisNotes),
        r matches Some(Intent::TaskList { status }) ==> (({ let c = caps(m, "task_list"@); matched(m, "task_list"@) && opt_view(status) == cap_opt_spec(c, 4) })),
        r matches Some(Intent::TaskCreate { title, priority }) ==> (({ let c = caps(o, "task_create"@); matched(o, "task_create"@) && title@ == cap_str_spec(c, 2) && opt_view(priority) == cap_opt_spec(c, 4) })),
        r matches Some(Intent::TaskUpdate { task_id, status }) ==> (({ let c = caps(m, "task_update"@); matched(m, "task_update"@) && task_id@ == cap_str_spec(c, 2) && opt_view(status) == cap_opt_spec(c, 3) })),
        r matches Some(Intent::RitualCheck { date }) ==> (({ let c = caps(m, "ritual_check"@); matched(m, "ritual_check"@) && opt_view(date) == cap_opt_spec(c, 2) })),
        r matches Some(Intent::ProductivityStats { period }) ==> (({ let c = caps(m, "productivity_stats"@); matched(m, "productivity_stats"@) && opt_view(period) == period_spec(c, 2) })),
        r matches Some(Intent::PhotoisBoards { action, name }) ==> (({ let c = caps(m, "photis_boards"@); matched(m, "photis_boards"@) && action@ == cap_str_spec(c, 2) && opt_view(name) == cap_opt_spec(c, 4) })),
        r matches Some(Intent::PhotoisNotes { action, content }) ==> (({ let c = caps(m, "photis_notes"@); matched(m, "photis_notes"@) && action@ == cap_str_spec(c, 2) && opt_view(content) == cap_opt_spec(c, 4) })),
{
}

// --- Phylax threat detection ---

/// Whether the `phylax_scan` pattern matched with what its request needs.
pub open spec fn phylax_scan_fires(m: Found) -> bool {
    let c = caps(m, "phylax_scan"@);
    &&& matched(m, "phylax_scan"@)
    &&& cap_first_spec(c, 1, 2).len() > 0
}

/// The request that the `phylax_scan` pattern gives.
pub open spec fn phylax_scan_gives(m: Found, r: Intent) -> bool {
    let c = caps(m, "phylax_scan"@);
    &&& r matches Intent::PhylaxScan { target, mode }
    &&& target@ == cap_first_spec(c, 1, 2)
    &&& opt_view(mode) == cap_opt_spec(c, 3)
}

/// Whether the `phylax_findings` pattern matched.
pub open spec fn phylax_findings_fires(m: Found) -> bool {
    matched(m, "phylax_findings"@)
}

/// The request that the `phylax_findings` pattern gives.
pub open spec fn phylax_findings_gives(m: Found, r: Intent) -> bool {
    let c = caps(m, "phylax_findings"@);
    &&& r matches Intent::PhylaxFindings { severity }
    &&& opt_view(severity) == cap_opt_spec(c, 1)
}

/// Whether the `phylax_history` pattern matched.
pub open spec fn phylax_history_fires(m: Found) -> bool {
    matched(m, "phylax_history"@)
}

/// The request that the `phylax_history` pattern gives.
pub open spec fn phylax_history_gives(m: Found, r: Intent) -> bool {
    let c = caps(m, "phylax_history"@);
    &&& r matches Intent::PhylaxHistory { limit }
    &&& limit == cap_number_spec(c, 1, usize::MAX as nat)
}

/// Whether the `phylax_status` pattern matched.
pub open spec fn phylax_status_fires(m: Found) -> bool {
    matched(m, "phylax_status"@)
}

/// The request that the `phylax_status` pattern gives.
pub open spec fn phylax_status_gives(m: Found, r: Intent) -> bool {
    r is PhylaxStatus
}

/// Whether the `phylax_rules` pattern matched.
pub open spec fn phylax_rules_fires(m: Found) -> bool {
    matched(m, "phylax_rules"@)
}

/// The request that the `phylax_rules` pattern gives.
pub open spec fn phylax_rules_gives(m: Found, r: Intent) -> bool {
    r is PhylaxRules
}

/// Whether one of the Phylax threat detection patterns gives a request.
pub open spec fn phylax_fires(m: Found) -> bool {
    ||| phylax_scan_fires(m)
    ||| phylax_findings_fires(m)
    ||| phylax_history_fires(m)
    ||| phylax_status_fires(m)
    ||| phylax_rules_fires(m)
}

/// The request of the first Phylax threat detection pattern that gives one, in the order they
/// are tried; `None` where none does.
pub open spec fn phylax_result(m: Found, r: Option<Intent>) -> bool {
    if phylax_scan_fires(m) {
        r matches Some(i) && phylax_scan_gives(m, i)
    } else if phylax_findings_fires(m) {
        r matches Some(i) && phylax_findings_gives(m, i)
    } else if phylax_history_fires(m) {
        r matches Some(i) && phylax_history_gives(m, i)
    } else if phylax_status_fires(m) {
        r matches Some(i) && phylax_status_gives(m, i)
    } else if phylax_rules_fires(m) {
        r matches Some(i) && phylax_rules_gives(m, i)
    } else {
        r is None
    }
}

fn parse_phylax(lower: &PatternMatches) -> (r: Option<Intent>)
    ensures
        phylax_result(lower@, r),
        r is Some <==> phylax_fires(lower@),
{
    match lower.try_captures("phylax_scan") {
        Some(c) => {
            let target = cap_first(c, 1, 2);
            let mode = cap_opt(c, 3);
            if !target.as_str().is_empty() {
                return Some(Intent::PhylaxScan { target, mode });
            }
        },
        None => {},
    }
    match lower.try_captures("phylax_findings") {
        Some(c) => {
            let severity = cap_opt(c, 1);
            return Some(Intent::PhylaxFindings { severity });
        },
        None => {},
    }
    match lower.try_captures("phylax_history") {
        Some(c) => {
            let limit = cap_number(c, 1, usize::MAX);
            return Some(Intent::PhylaxHistory { limit });
        },
        None => {},
    }
    match lower.try_captures("phylax_status") {
        Some(_) => {
            return Some(Intent::PhylaxStatus);
        },
        None => {},
    }
    match lower.try_captures("phylax_rules") {
        Some(_) => {
            return Some(Intent::PhylaxRules);
        },
        None => {},
    }
    None
}

proof fn lemma_phylax_requests_accepted(m: Found, r: Option<Intent>)
    requires
        phylax_result(m, r),
    ensures
        r matches Some(i) ==> crate::translate::phylax::translate_phylax_spec(&i) is Ok,
{
}

proof fn lemma_phylax_carries_groups(m: Found, r: Option<Intent>)
    requires
        phylax_result(m, r),
    ensures
        r matches Some(i) ==> (i is PhylaxScan || i is PhylaxFindings || i is PhylaxHistory || i is PhylaxStatus || i is PhylaxRules),
        r matches Some(Intent::PhylaxScan { target, mode }) ==> (({ let c = caps(m, "phylax_scan"@); matched(m, "phylax_scan"@) && target@ == cap_first_spec(c, 1, 2) && opt_view(mode) == cap_opt_spec(c, 3) })),
        r matches Some(Intent::PhylaxFindings { severity }) ==> (({ let c = caps(m, "phylax_findings"@); matched(m, "phylax_findings"@) && opt_view(severity) == cap_opt_spec(c, 1) })),
        r matches Some(Intent::PhylaxHistory { limit }) ==> (({ let c = caps(m, "phylax_history"@); matched(m, "phylax_history"@) && limit == cap_number_spec(c, 1, usize::MAX as nat) })),
        r matches Some(Intent::PhylaxStatus) ==> (({ let c = caps(m, "phylax_status"@); matched(m, "phylax_status"@) })),
        r matches Some(Intent::PhylaxRules) ==> (({ let c = caps(m, "phylax_rules"@); matched(m, "phylax_rules"@) })),
{
}

// --- T-Ron security monitor ---

/// Whether the `tron_status` pattern matched.
pub open spec fn tron_status_fires(m: Found) -> bool {
    matched(m, "tron_status"@)
}

/// The request that the `tron_status` pattern gives.
pub open spec fn tron_status_gives(m: Found, r: Intent) -> bool {
    r is TronStatus
}

/// Whether the `tron_risk` pattern matched with what its request needs.
pub open spec fn tron_risk_fires(m: Found) -> bool {
    let c = caps(m, "tron_risk"@);
    &&& matched(m, "tron_risk"@)
    &&& cap_str_spec(c, 1).len() > 0
}

/// The request that the `tron_risk` pattern gives.
pub open spec fn tron_risk_gives(m: Found, r: Intent) -> bool {
    let c = caps(m, "tron_risk"@);
    &&& r matches Intent::TronRisk { agent_id }
    &&& agent_id@ == cap_str_spec(c, 1)
}

/// Whether the `tron_audit` pattern matched.
pub open spec fn tron_audit_fires(m: Found) -> bool {
    matched(m, "tron_audit"@)
}

/// The request that the `tron_audit` pattern gives.
pub open spec fn tron_audit_gives(m: Found, r: Intent) -> bool {
    let c = caps(m, "tron_audit"@);
    &&& r matches Intent::TronAudit { agent_id, limit }
    &&& opt_view(agent_id) == cap_opt_spec(c, 1)
    &&& limit == cap_number_spec(c, 2, usize::MAX as nat)
}

/// Whether the `tron_policy` pattern matched with what its request needs.
pub open spec fn tron_policy_fires(m: Found) -> bool {
    let c = caps(m, "tron_policy"@);
    &&& matched(m, "tron_policy"@)
    &&& cap_str_spec(c, 1).len() > 0
}

/// The request that the `tron_policy` pattern gives.
pub open spec fn tron_policy_gives(m: Found, r: Intent) -> bool {
    let c = caps(m, "tron_policy"@);
    &&& r matches Intent::TronPolicy { toml }
    &&& toml@ == cap_str_spec(c, 1)
}

/// Whether one of the T-Ron security monitor patterns gives a request.
pub open spec fn tron_fires(m: Found) -> bool {
    ||| tron_status_fires(m)
    ||| tron_risk_fires(m)
    ||| tron_audit_fires(m)
    ||| tron_policy_fires(m)
}

/// The request of the first T-Ron security monitor pattern that gives one, in the order they
/// are tried; `None` where none does.
pub open spec fn tron_result(m: Found, r: Option<Intent>) -> bool {
    if tron_status_fires(m) {
        r matches Some(i) && tron_status_gives(m, i)
    } else if tron_risk_fires(m) {
        r matches Some(i) && tron_risk_gives(m, i)
    } else if tron_audit_fires(m) {
        r matches Some(i) && tron_audit_gives(m, i)
    } else if tron_policy_fires(m) {
        r matches Some(i) && tron_policy_gives(m, i)
    } else {
        r is None
    }
}

fn parse_tron(lower: &PatternMatches) -> (r: Option<Intent>)
    ensures
        tron_result(lower@, r),
        r is Some <==> tron_fires(lower@),
{
    match lower.try_captures("tron_status") {
        Some(_) => {
            return Some(Intent::TronStatus);
        },
        None => {},
    }
    match lower.try_captures("tron_risk") {
        Some(c) => {
            let agent_id = cap_str(c, 1);
            if !agent_id.as_str().is_empty() {
                return Some(Intent::TronRisk { agent_id });
            }
        },
        None => {},
    }
    match lower.try_captures("tron_audit") {
        Some(c) => {
            let agent_id = cap_opt(c, 1);
            let limit = cap_number(c, 2, usize::MAX);
            return Some(Intent::TronAudit { agent_id, limit });
        },
        None => {},
    }
    match lower.try_captures("tron_policy") {
        Some(c) => {
            let toml = cap_str(c, 1);
            if !toml.as_str().is_empty() {
                return Some(Intent::TronPolicy { toml });
            }
        },
        None => {},
    }
    None
}

proof fn lemma_tron_requests_accepted(m: Found, r: Option<Intent>)
    requires
        tron_result(m, r),
    ensures
        r matches Some(i) ==> crate::translate::tron::translate_tron_spec(&i) is Ok,
{
}

proof fn lemma_tron_carries_groups(m: Found, r: Option<Intent>)
    requires
        tron_result(m, r),
    ensures
        r matches Some(i) ==> (i is TronStatus || i is TronRisk || i is TronAudit || i is TronPolicy),
        r matches Some(Intent::TronStatus) ==> (({ let c = caps(m, "tron_status"@); matched(m, "tron_status"@) })),
        r matches Some(Intent::TronRisk { agent_id }) ==> (({ let c = caps(m, "tron_risk"@); matched(m, "tron_risk"@) && agent_id@ == cap_str_spec(c, 1) })),
        r matches Some(Intent::TronAudit { agent_id, limit }) ==> (({ let c = caps(m, "tron_audit"@); matched(m, "tron_audit"@) && opt_view(agent_id) == cap_opt_spec(c, 1) && limit == cap_number_spec(c, 2, usize::MAX as nat) })),
        r matches Some(Intent::TronPolicy { toml }) ==> (({ let c = caps(m, "tron_policy"@); matched(m, "tron_policy"@) && toml@ == cap_str_spec(c, 1) })),
{
}

/// The request read from one line of input by the platform patterns: the first
/// platform, in the order they are tried, whose patterns give one.
pub open spec fn parse_platforms_result(lower: Found, original: Found, r: Option<Intent>) -> bool {
    if agnostic_fires(lower) {
        agnostic_result(lower, r)
    } else if edge_fires(lower) {
        edge_result(lower, r)
    } else if yeoman_fires(lower) {
        yeoman_result(lower, r)
    } else if delta_fires(lower) {
        delta_result(lower, r)
    } else if aequi_fires(lower) {
        aequi_result(lower, r)
    } else if photis_fires(lower, original) {
        photis_result(lower, original, r)
    } else if phylax_fires(lower) {
        phylax_result(lower, r)
    } else if tron_fires(lower) {
        tron_result(lower, r)
    } else {
        r is None
    }
}

/// Each field of a platform request comes from the capture group it belongs to: the
/// request is of a kind only where one of its patterns matched, and each of its fields
/// is what that pattern captured in the field's own group.
pub proof fn law_platform_requests_carry_their_groups(lower: Found, original: Found, r: Option<Intent>)
    requires
        parse_platforms_result(lower, original, r),
    ensures
        r matches Some(Intent::AgnosticSubmitTask { title, description, target_url }) ==> (({ let c = caps(lower, "agnostic_run"@); matched(lower, "agnostic_run"@) && title@ == cap_str_spec(c, 1) && opt_view(description) == Some(cap_str_spec(c, 1)) && opt_view(target_url) == cap_opt_spec(c, 3) })),
        r matches Some(Intent::AgnosticTaskStatus { task_id }) ==> (({ let c = caps(lower, "agnostic_status"@); matched(lower, "agnostic_status"@) && task_id@ == cap_str_spec(c, 1) })),
        r matches Some(Intent::AgnosticStructuredResults { session_id, result_type }) ==> (({ let c = caps(lower, "agnostic_report"@); matched(lower, "agnostic_report"@) && session_id@ == cap_str_spec(c, 1) && opt_view(result_type) == cap_opt_spec(c, 3) })),
        r matches Some(Intent::AgnosticListPresets { domain }) ==> (({ let c = caps(lower, "agnostic_list_suites"@); matched(lower, "agnostic_list_suites"@) && opt_view(domain) == cap_opt_spec(c, 2) }) || ({ let c = caps(lower, "agnostic_list_presets"@); matched(lower, "agnostic_list_presets"@) && opt_view(domain) == cap_opt_spec(c, 3) })),
        r matches Some(Intent::AgnosticAgentStatus) ==> (({ let c = caps(lower, "agnostic_agents"@); matched(lower, "agnostic_agents"@) })),
        r matches Some(Intent::AgnosticDashboard { section }) ==> (({ let c = caps(lower, "agnostic_dashboard"@); matched(lower, "agnostic_dashboard"@) && opt_view(section) == cap_opt_spec(c, 3) })),
        r matches Some(Intent::AgnosticTrends) ==> (({ let c = caps(lower, "agnostic_trends"@); matched(lower, "agnostic_trends"@) })),
        r matches Some(Intent::AgnosticCompare { session_a, session_b }) ==> (({ let c = caps(lower, "agnostic_compare"@); matched(lower, "agnostic_compare"@) && session_a@ == cap_str_spec(c, 1) && session_b@ == cap_str_spec(c, 2) })),
        r matches Some(Intent::AgnosticRunCrew { title, preset, gpu_required }) ==> (({ let c = caps(lower, "agnostic_run_crew"@); matched(lower, "agnostic_run_crew"@) && title@ == cap_str_spec(c, 2) && opt_view(preset) == cap_opt_spec(c, 4) && gpu_required == has_group(c, 5) })),
        r matches Some(Intent::AgnosticCrewStatus { crew_id }) ==> (({ let c = caps(lower, "agnostic_crew_status"@); matched(lower, "agnostic_crew_status"@) && crew_id@ == cap_str_spec(c, 2) })),
        r matches Some(Intent::AgnosticListCrews { status }) ==> (({ let c = caps(lower, "agnostic_list_crews"@); matched(lower, "agnostic_list_crews"@) && opt_view(status) == cap_opt_spec(c, 3) })),
        r matches Some(Intent::AgnosticCancelCrew { crew_id }) ==> (({ let c = caps(lower, "agnostic_cancel_crew"@); matched(lower, "agnostic_cancel_crew"@) && crew_id@ == cap_str_spec(c, 2) })),
        r matches Some(Intent::AgnosticListDefinitions { domain }) ==> (({ let c = caps(lower, "agnostic_list_definitions"@); matched(lower, "agnostic_list_definitions"@) && opt_view(domain) == cap_opt_spec(c, 4) })),
        r matches Some(Intent::AgnosticCreateAgent { agent_key, name, role }) ==> (({ let c = caps(lower, "agnostic_create_agent"@); matched(lower, "agnostic_create_agent"@) && agent_key@ == cap_str_spec(c, 1) && name@ == cap_str_spec(c, 2) && role@ == cap_str_spec(c, 3) })),
        r matches Some(Intent::AgnosticGpuStatus) ==> (({ let c = caps(lower, "agnostic_gpu_status"@); matched(lower, "agnostic_gpu_status"@) })),
        r matches Some(Intent::AgnosticGpuMemory) ==> (({ let c = caps(lower, "agnostic_gpu_memory"@); matched(lower, "agnostic_gpu_memory"@) })),
        r matches Some(Intent::EdgeListNodes { status }) ==> (({ let c = caps(lower, "edge_list"@); matched(lower, "edge_list"@) && opt_view(status) == cap_opt_spec(c, 3) })),
        r matches Some(Intent::EdgeDeploy { task, node }) ==> (({ let c = caps(lower, "edge_deploy"@); matched(lower, "edge_deploy"@) && task@ == cap_str_spec(c, 1) && opt_view(node) == cap_opt_spec(c, 2) })),
        r matches Some(Intent::EdgeUpdate { node, version }) ==> (({ let c = caps(lower, "edge_update"@); matched(lower, "edge_update"@) && node@ == cap_first_spec(c, 1, 2) && opt_view(version) == cap_opt_spec(c, 3) })),
        r matches Some(Intent::EdgeHealth { node }) ==> (({ let c = caps(lower, "edge_health"@); matched(lower, "edge_health"@) && opt_view(node) == node_spec(c, 2) })),
        r matches Some(Intent::EdgeDecommission { node }) ==> (({ let c = caps(lower, "edge_decommission"@); matched(lower, "edge_decommission"@) && node@ == cap_str_spec(c, 1) })),
        r matches Some(Intent::EdgeLogs { action, node }) ==> (({ let c = caps(lower, "edge_logs"@); matched(lower, "edge_logs"@) && action@ == cap_str_spec(c, 2) && opt_view(node) == cap_opt_spec(c, 4) })),
        r matches Some(Intent::EdgeConfig { action, node, key }) ==> (({ let c = caps(lower, "edge_config"@); matched(lower, "edge_config"@) && action@ == cap_str_spec(c, 2) && opt_view(node) == cap_opt_spec(c, 4) && key is None })),
        r matches Some(Intent::YeomanAgents { action, agent_id, name }) ==> (({ let c = caps(lower, "yeoman_agents"@); matched(lower, "yeoman_agents"@) && action@ == cap_str_spec(c, 2) && opt_view(agent_id) == cap_opt_spec(c, 4) && opt_view(name) == cap_opt_spec(c, 4) })),
        r matches Some(Intent::YeomanTasks { action, description, task_id }) ==> (({ let c = caps(lower, "yeoman_tasks"@); matched(lower, "yeoman_tasks"@) && action@ == cap_str_spec(c, 2) && opt_view(description) == cap_opt_spec(c, 4) && opt_view(task_id) == cap_opt_spec(c, 4) })),
        r matches Some(Intent::YeomanTools { action, query }) ==> (({ let c = caps(lower, "yeoman_tools"@); matched(lower, "yeoman_tools"@) && action@ == cap_str_spec(c, 2) && opt_view(query) == cap_opt_spec(c, 4) })),
        r matches Some(Intent::YeomanIntegrations { action, name }) ==> (({ let c = caps(lower, "yeoman_integrations"@); matched(lower, "yeoman_integrations"@) && action@ == cap_str_spec(c, 2) && opt_view(name) == cap_opt_spec(c, 4) })),
        r matches Some(Intent::YeomanStatus) ==> (({ let c = caps(lower, "yeoman_status"@); matched(lower, "yeoman_status"@) })),
        r matches Some(Intent::YeomanLogs { action, agent_id }) ==> (({ let c = caps(lower, "yeoman_logs"@); matched(lower, "yeoman_logs"@) && action@ == cap_str_spec(c, 2) && opt_view(agent_id) == cap_opt_spec(c, 4) })),
        r matches Some(Intent::YeomanWorkflows { action, name }) ==> (({ let c = caps(lower, "yeoman_workflows"@); matched(lower, "yeoman_workflows"@) && action@ == cap_str_spec(c, 2) && opt_view(name) == cap_opt_spec(c, 4) })),
        r matches Some(Intent::YeomanRegisterTools { action }) ==> (({ let c = caps(lower, "yeoman_register_tools"@); matched(lower, "yeoman_register_tools"@) && action@ == "register"@ })),
        r matches Some(Intent::YeomanToolExecute { tool_name, args }) ==> (({ let c = caps(lower, "yeoman_tool_execute"@); matched(lower, "yeoman_tool_execute"@) && tool_name@ == cap_str_spec(c, 1) && opt_view(args) == cap_opt_spec(c, 2) })),
        r matches Some(Intent::YeomanBrainQuery { query, limit }) ==> (({ let c = caps(lower, "yeoman_brain_query"@); matched(lower, "yeoman_brain_query"@) && query@ == cap_str_spec(c, 1) && limit is None })),
        r matches Some(Intent::YeomanBrainSync { action, topic }) ==> (({ let c = caps(lower, "yeoman_brain_sync"@); matched(lower, "yeoman_brain_sync"@) && action@ == cap_str_spec(c, 1) && topic is None })),
        r matches Some(Intent::YeomanTokenBudget { action, pool, amount }) ==> (({ let c = caps(lower, "yeoman_token_budget"@); matched(lower, "yeoman_token_budget"@) && action@ == cap_str_spec(c, 1) && opt_view(pool) == cap_opt_spec(c, 2) && amount is None })),
        r matches Some(Intent::YeomanEvents { action, limit }) ==> (({ let c = caps(lower, "yeoman_events"@); matched(lower, "yeoman_events"@) && action@ == cap_str_spec(c, 1) && opt_view(limit) == cap_opt_spec(c, 2) })),
        r matches Some(Intent::YeomanSwarm { action, swarm_id, capability }) ==> (({ let c = caps(lower, "yeoman_swarm"@); matched(lower, "yeoman_swarm"@) && action@ == cap_str_spec(c, 1) && opt_view(swarm_id) == cap_opt_spec(c, 2) && opt_view(capability) == cap_opt_spec(c, 2) })),
        r matches Some(Intent::DeltaCreateRepo { name, description }) ==> (({ let c = caps(lower, "delta_create_repo"@); matched(lower, "delta_create_repo"@) && name@ == cap_str_spec(c, 2) && opt_view(description) == cap_opt_spec(c, 4) })),
        r matches Some(Intent::DeltaListRepos) ==> (({ let c = caps(lower, "delta_list_repos"@); matched(lower, "delta_list_repos"@) })),
        r matches Some(Intent::DeltaPr { action, repo, title }) ==> (({ let c = caps(lower, "delta_pr"@); matched(lower, "delta_pr"@) && action@ == cap_str_or_spec(c, 2, "list"@) && opt_view(repo) == cap_opt_spec(c, 4) && opt_view(title) == cap_opt_spec(c, 6) })),
        r matches Some(Intent::DeltaPush { repo, branch }) ==> (({ let c = caps(lower, "delta_push"@); matched(lower, "delta_push"@) && opt_view(repo) == cap_opt_spec(c, 2) && opt_view(branch) == cap_opt_spec(c, 4) })),
        r matches Some(Intent::DeltaCiStatus { repo }) ==> (({ let c = caps(lower, "delta_ci"@); matched(lower, "delta_ci"@) && opt_view(repo) == cap_opt_spec(c, 4) })),
        r matches Some(Intent::DeltaBranches { action, repo, name }) ==> (({ let c = caps(lower, "delta_branches"@); matched(lower, "delta_branches"@) && action@ == cap_str_spec(c, 2) && repo is None && opt_view(name) == cap_opt_spec(c, 4) })),
        r matches Some(Intent::DeltaReview { action, pr_id }) ==> (({ let c = caps(lower, "delta_review"@); matched(lower, "delta_review"@) && action@ == cap_str_spec(c, 2) && opt_view(pr_id) == cap_opt_spec(c, 4) })),
        r matches Some(Intent::AequiTaxEstimate { quarter }) ==> (({ let c = caps(lower, "aequi_tax"@); matched(lower, "aequi_tax"@) && opt_view(quarter) == cap_opt_spec(c, 6) })),
        r matches Some(Intent::AequiScheduleC { year }) ==> (({ let c = caps(lower, "aequi_schedule_c"@); matched(lower, "aequi_schedule_c"@) && opt_view(year) == cap_opt_spec(c, 4) })),
        r matches Some(Intent::AequiImportBank { file_path }) ==> (({ let c = caps(lower, "aequi_import"@); matched(lower, "aequi_import"@) && file_path@ == cap_str_spec(c, 4) })),
        r matches Some(Intent::AequiBalance) ==> (({ let c = caps(lower, "aequi_balance"@); matched(lower, "aequi_balance"@) })),
        r matches Some(Intent::AequiReceipts { status }) ==> (({ let c = caps(lower, "aequi_receipts"@); matched(lower, "aequi_receipts"@) && opt_view(status) == receipt_status_spec(c, 3) })),
        r matches Some(Intent::AequiInvoices { action, client }) ==> (({ let c = caps(lower, "aequi_invoices"@); matched(lower, "aequi_invoices"@) && action@ == cap_str_spec(c, 2) && opt_view(client) == cap_opt_spec(c, 4) })),
        r matches Some(Intent::AequiReports { action, period }) ==> (({ let c = caps(lower, "aequi_reports"@); matched(lower, "aequi_reports"@) && action@ == cap_word_spec(c, 2) && opt_view(period) == cap_opt_spec(c, 4) })),
        r matches Some(Intent::TaskList { status }) ==> (({ let c = caps(lower, "task_list"@); matched(lower, "task_list"@) && opt_view(status) == cap_opt_spec(c, 4) })),
        r matches Some(Intent::TaskCreate { title, priority }) ==> (({ let c = caps(original, "task_create"@); matched(original, "task_create"@) && title@ == cap_str_spec(c, 2) && opt_view(priority) == cap_opt_spec(c, 4) })),
        r matches Some(Intent::TaskUpdate { task_id, status }) ==> (({ let c = caps(lower, "task_update"@); matched(lower, "task_update"@) && task_id@ == cap_str_spec(c, 2) && opt_view(status) == cap_opt_spec(c, 3) })),
        r matches Some(Intent::RitualCheck { date }) ==> (({ let c = caps(lower, "ritual_check"@); matched(lower, "ritual_check"@) && opt_view(date) == cap_opt_spec(c, 2) })),
        r matches Some(Intent::ProductivityStats { period }) ==> (({ let c = caps(lower, "productivity_stats"@); matched(lower, "productivity_stats"@) && opt_view(period) == period_spec(c, 2) })),
        r matches Some(Intent::PhotoisBoards { action, name }) ==> (({ let c = caps(lower, "photis_boards"@); matched(lower, "photis_boards"@) && action@ == cap_str_spec(c, 2) && opt_view(name) == cap_opt_spec(c, 4) })),
        r matches Some(Intent::PhotoisNotes { action, content }) ==> (({ let c = caps(lower, "photis_notes"@); matched(lower, "photis_notes"@) && action@ == cap_str_spec(c, 2) && opt_view(content) == cap_opt_spec(c, 4) })),
        r matches Some(Intent::PhylaxScan { target, mode }) ==> (({ let c = caps(lower, "phylax_scan"@); matched(lower, "phylax_scan"@) && target@ == cap_first_spec(c, 1, 2) && opt_view(mode) == cap_opt_spec(c, 3) })),
        r matches Some(Intent::PhylaxFindings { severity }) ==> (({ let c = caps(lower, "phylax_findings"@); matched(lower, "phylax_findings"@) && opt_view(severity) == cap_opt_spec(c, 1) })),
        r matches Some(Intent::PhylaxHistory { limit }) ==> (({ let c = caps(lower, "phylax_history"@); matched(lower, "phylax_history"@) && limit == cap_number_spec(c, 1, usize::MAX as nat) })),
        r matches Some(Intent::PhylaxStatus) ==> (({ let c = caps(lower, "phylax_status"@); matched(lower, "phylax_status"@) })),
        r matches Some(Intent::PhylaxRules) ==> (({ let c = caps(lower, "phylax_rules"@); matched(lower, "phylax_rules"@) })),
        r matches Some(Intent::TronStatus) ==> (({ let c = caps(lower, "tron_status"@); matched(lower, "tron_status"@) })),
        r matches Some(Intent::TronRisk { agent_id }) ==> (({ let c = caps(lower, "tron_risk"@); matched(lower, "tron_risk"@) && agent_id@ == cap_str_spec(c, 1) })),
        r matches Some(Intent::TronAudit { agent_id, limit }) ==> (({ let c = caps(lower, "tron_audit"@); matched(lower, "tron_audit"@) && opt_view(agent_id) == cap_opt_spec(c, 1) && limit == cap_number_spec(c, 2, usize::MAX as nat) })),
        r matches Some(Intent::TronPolicy { toml }) ==> (({ let c = caps(lower, "tron_policy"@); matched(lower, "tron_policy"@) && toml@ == cap_str_spec(c, 1) })),
{
    if agnostic_fires(lower) {
        lemma_agnostic_carries_groups(lower, r);
    } else if edge_fires(lower) {
        lemma_edge_carries_groups(lower, r);
    } else if yeoman_fires(lower) {
        lemma_yeoman_carries_groups(lower, r);
    } else if delta_fires(lower) {
        lemma_delta_carries_groups(lower, r);
    } else if aequi_fires(lower) {
        lemma_aequi_carries_groups(lower, r);
    } else if photis_fires(lower, original) {
        lemma_photis_carries_groups(lower, original, r);
    } else if phylax_fires(lower) {
        lemma_phylax_carries_groups(lower, r);
    } else if tron_fires(lower) {
        lemma_tron_carries_groups(lower, r);
    }
}

/// Every request that the platform patterns read is one that its platform's translator
/// takes (Aequi, which has no translator here, gives accounting requests only).
pub proof fn law_platform_requests_are_translatable(lower: Found, original: Found, r: Option<Intent>)
    requires
        parse_platforms_result(lower, original, r),
    ensures
        r matches Some(i) ==> {
            ||| crate::translate::agnostic::is_agnostic_intent(&i)
            ||| crate::translate::edge::is_edge_intent(&i)
            ||| crate::translate::yeoman::is_yeoman_intent(&i)
            ||| crate::translate::delta::is_delta_intent(&i)
            ||| is_aequi_request(i)
            ||| crate::translate::photis::is_photis_intent(&i)
            ||| crate::translate::phylax::translate_phylax_spec(&i) is Ok
            ||| crate::translate::tron::translate_tron_spec(&i) is Ok
        },
{
    if agnostic_fires(lower) {
        lemma_agnostic_requests_accepted(lower, r);
    } else if edge_fires(lower) {
        lemma_edge_requests_accepted(lower, r);
    } else if yeoman_fires(lower) {
        lemma_yeoman_requests_accepted(lower, r);
    } else if delta_fires(lower) {
        lemma_delta_requests_accepted(lower, r);
    } else if aequi_fires(lower) {
        lemma_aequi_requests_accepted(lower, r);
    } else if photis_fires(lower, original) {
        lemma_photis_requests_accepted(lower, original, r);
    } else if phylax_fires(lower) {
        lemma_phylax_requests_accepted(lower, r);
    } else if tron_fires(lower) {
        lemma_tron_requests_accepted(lower, r);
    }
}

/// Reads a platform request from the patterns that matched the lower-cased line
/// (`lower`) and, for a task title whose case is kept, the line as typed (`original`).
pub fn parse_platforms(lower: &PatternMatches, original: &PatternMatches) -> (r: Option<Intent>)
    ensures
        parse_platforms_result(lower@, original@, r),
{
    let r = parse_agnostic(lower);
    if r.is_some() {
        return r;
    }
    let r = parse_edge(lower);
    if r.is_some() {
        return r;
    }
    let r = parse_yeoman(lower);
    if r.is_some() {
        return r;
    }
    let r = parse_delta(lower);
    if r.is_some() {
        return r;
    }
    let r = parse_aequi(lower);
    if r.is_some() {
        return r;
    }
    let r = parse_photis(lower, original);
    if r.is_some() {
        return r;
    }
    let r = parse_phylax(lower);
    if r.is_some() {
        return r;
    }
    let r = parse_tron(lower);
    if r.is_some() {
        return r;
    }
    None
}

/// Only a task title is read from the line as typed: wherever neither line's request
/// is a new task, the request read with one typed line (`original`) is also the one
/// read with any other (`other`), for the same lower-cased line.
pub proof fn law_platforms_read_the_typed_line_only_for_tasks(
    lower: Found,
    original: Found,
    other: Found,
    r: Option<Intent>,
    s: Option<Intent>,
)
    requires
        parse_platforms_result(lower, original, r),
        parse_platforms_result(lower, other, s),
        !(r matches Some(i) && i is TaskCreate),
        !(s matches Some(i) && i is TaskCreate),
    ensures
        parse_platforms_result(lower, other, r),
{
}

} // verus!
