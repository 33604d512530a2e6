use agnoshi::intent::Intent;
use agnoshi::parse::captures::{Captures, NamedMatch, PatternMatches};
use agnoshi::parse::creative::parse_creative;
use agnoshi::parse::platforms::parse_platforms;

fn found(list: &[(&str, &[Option<&str>])]) -> PatternMatches {
    PatternMatches {
        matches: list
            .iter()
            .map(|(name, groups)| NamedMatch {
                name: name.to_string(),
                captures: Captures {
                    groups: groups.iter().map(|g| g.map(|s| s.to_string())).collect(),
                },
            })
            .collect(),
    }
}

fn none() -> PatternMatches {
    found(&[])
}

#[test]
fn parse_agnostic_run_trims_and_copies_title() {
    let m = found(&[(
        "agnostic_run",
        &[Some("run tests for login"), Some("  tests for login "), None, Some(" http://app ")],
    )]);
    match parse_platforms(&m, &none()) {
        Some(Intent::AgnosticSubmitTask { title, description, target_url }) => {
            assert_eq!(title, "tests for login");
            assert_eq!(description.as_deref(), Some("tests for login"));
            assert_eq!(target_url.as_deref(), Some("http://app"));
        }
        other => panic!("unexpected {:?}", other),
    }
}

#[test]
fn parse_empty_title_falls_through_to_next_pattern() {
    let m = found(&[
        ("agnostic_run", &[Some("run"), Some("   ")]),
        ("agnostic_status", &[Some("status of t1"), Some("t1")]),
    ]);
    match parse_platforms(&m, &none()) {
        Some(Intent::AgnosticTaskStatus { task_id }) => assert_eq!(task_id, "t1"),
        other => panic!("unexpected {:?}", other),
    }
}

#[test]
fn parse_nothing_matched_gives_none() {
    assert!(parse_platforms(&none(), &none()).is_none());
    assert!(parse_creative(&none()).is_none());
}

#[test]
fn parse_unknown_pattern_names_are_ignored() {
    let m = found(&[("not_a_pattern", &[Some("x"), Some("y")])]);
    assert!(parse_platforms(&m, &m).is_none());
    assert!(parse_creative(&m).is_none());
}

#[test]
fn parse_empty_optional_group_is_none() {
    let m = found(&[("agnostic_report", &[Some("r"), Some("s-9"), None, Some("   ")])]);
    match parse_platforms(&m, &none()) {
        Some(Intent::AgnosticStructuredResults { session_id, result_type }) => {
            assert_eq!(session_id, "s-9");
            assert!(result_type.is_none());
        }
        other => panic!("unexpected {:?}", other),
    }
}

#[test]
fn parse_run_crew_gpu_flag_follows_group_presence() {
    let m = found(&[(
        "agnostic_run_crew",
        &[Some("x"), None, Some("audit"), None, Some("web"), Some("gpu")],
    )]);
    match parse_platforms(&m, &none()) {
        Some(Intent::AgnosticRunCrew { title, preset, gpu_required }) => {
            assert_eq!(title, "audit");
            assert_eq!(preset.as_deref(), Some("web"));
            assert!(gpu_required);
        }
        other => panic!("unexpected {:?}", other),
    }
    let m = found(&[("agnostic_run_crew", &[Some("x"), None, Some("audit")])]);
    match parse_platforms(&m, &none()) {
        Some(Intent::AgnosticRunCrew { gpu_required, preset, .. }) => {
            assert!(!gpu_required);
            assert!(preset.is_none());
        }
        other => panic!("unexpected {:?}", other),
    }
}

#[test]
fn parse_create_agent_role_defaults_to_empty() {
    let m = found(&[("agnostic_create_agent", &[Some("x"), Some("qa"), Some("Tester")])]);
    match parse_platforms(&m, &none()) {
        Some(Intent::AgnosticCreateAgent { agent_key, name, role }) => {
            assert_eq!(agent_key, "qa");
            assert_eq!(name, "Tester");
            assert_eq!(role, "");
        }
        other => panic!("unexpected {:?}", other),
    }
}

#[test]
fn parse_edge_update_takes_first_node_group() {
    let m = found(&[("edge_update", &[Some("x"), None, Some(" node-2 "), Some("1.4")])]);
    match parse_platforms(&m, &none()) {
        Some(Intent::EdgeUpdate { node, version }) => {
            assert_eq!(node, "node-2");
            assert_eq!(version.as_deref(), Some("1.4"));
        }
        other => panic!("unexpected {:?}", other),
    }
}

#[test]
fn parse_edge_health_fleet_words_mean_no_node() {
    for word in ["fleet", "all", "nodes", "  "] {
        let m = found(&[("edge_health", &[Some("x"), None, Some(word)])]);
        match parse_platforms(&m, &none()) {
            Some(Intent::EdgeHealth { node }) => assert!(node.is_none(), "{}", word),
            other => panic!("unexpected {:?}", other),
        }
    }
    let m = found(&[("edge_health", &[Some("x"), None, Some(" pi-4 ")])]);
    match parse_platforms(&m, &none()) {
        Some(Intent::EdgeHealth { node }) => assert_eq!(node.as_deref(), Some("pi-4")),
        other => panic!("unexpected {:?}", other),
    }
}

#[test]
fn parse_edge_config_has_no_key() {
    let m = found(&[("edge_config", &[Some("x"), None, Some("show"), None, Some("n1")])]);
    match parse_platforms(&m, &none()) {
        Some(Intent::EdgeConfig { action, node, key }) => {
            assert_eq!(action, "show");
            assert_eq!(node.as_deref(), Some("n1"));
            assert!(key.is_none());
        }
        other => panic!("unexpected {:?}", other),
    }
}

#[test]
fn parse_yeoman_agent_id_doubles_as_name() {
    let m = found(&[("yeoman_agents", &[Some("x"), None, Some("deploy"), None, Some("scout")])]);
    match parse_platforms(&m, &none()) {
        Some(Intent::YeomanAgents { action, agent_id, name }) => {
            assert_eq!(action, "deploy");
            assert_eq!(agent_id.as_deref(), Some("scout"));
            assert_eq!(name.as_deref(), Some("scout"));
        }
        other => panic!("unexpected {:?}", other),
    }
}

#[test]
fn parse_yeoman_register_tools_action_is_register() {
    let m = found(&[("yeoman_register_tools", &[Some("register tools")])]);
    match parse_platforms(&m, &none()) {
        Some(Intent::YeomanRegisterTools { action }) => assert_eq!(action, "register"),
        other => panic!("unexpected {:?}", other),
    }
}

#[test]
fn parse_delta_pr_action_defaults_to_list() {
    let m = found(&[("delta_pr", &[Some("prs")])]);
    match parse_platforms(&m, &none()) {
        Some(Intent::DeltaPr { action, repo, title }) => {
            assert_eq!(action, "list");
            assert!(repo.is_none());
            assert!(title.is_none());
        }
        other => panic!("unexpected {:?}", other),
    }
}

#[test]
fn parse_aequi_receipt_status_names() {
    for (typed, want) in [("pending", "pending_review"), (" unreviewed ", "pending_review"), ("approved", "approved")] {
        let m = found(&[("aequi_receipts", &[Some("x"), None, None, Some(typed)])]);
        match parse_platforms(&m, &none()) {
            Some(Intent::AequiReceipts { status }) => assert_eq!(status.as_deref(), Some(want)),
            other => panic!("unexpected {:?}", other),
        }
    }
    let m = found(&[("aequi_receipts", &[Some("x")])]);
    match parse_platforms(&m, &none()) {
        Some(Intent::AequiReceipts { status }) => assert!(status.is_none()),
        other => panic!("unexpected {:?}", other),
    }
}

#[test]
fn parse_aequi_report_action_joins_words() {
    let m = found(&[("aequi_reports", &[Some("x"), None, Some(" profit loss "), None, Some("q1")])]);
    match parse_platforms(&m, &none()) {
        Some(Intent::AequiReports { action, period }) => {
            assert_eq!(action, "profit_loss");
            assert_eq!(period.as_deref(), Some("q1"));
        }
        other => panic!("unexpected {:?}", other),
    }
}

#[test]
fn parse_productivity_periods() {
    for (typed, want) in [
        ("daily", "day"),
        ("weekly", "week"),
        ("this week", "week"),
        ("monthly", "month"),
        ("this month", "month"),
        ("quarterly", "quarterly"),
    ] {
        let m = found(&[("productivity_stats", &[Some("x"), None, Some(typed)])]);
        match parse_platforms(&m, &none()) {
            Some(Intent::ProductivityStats { period }) => assert_eq!(period.as_deref(), Some(want)),
            other => panic!("unexpected {:?}", other),
        }
    }
}

#[test]
fn parse_task_create_reads_the_line_as_typed() {
    let lower = found(&[("task_create", &[Some("x"), None, Some("fix login bug")])]);
    let original = found(&[("task_create", &[Some("x"), None, Some("Fix Login Bug"), None, Some("high")])]);
    match parse_platforms(&lower, &original) {
        Some(Intent::TaskCreate { title, priority }) => {
            assert_eq!(title, "Fix Login Bug");
            assert_eq!(priority.as_deref(), Some("high"));
        }
        other => panic!("unexpected {:?}", other),
    }
    // The lower-cased line's match alone does not make a task.
    assert!(parse_platforms(&lower, &none()).is_none());
}

#[test]
fn parse_phylax_history_limit_is_a_number() {
    let m = found(&[("phylax_history", &[Some("x"), Some(" 25 ")])]);
    match parse_platforms(&m, &none()) {
        Some(Intent::PhylaxHistory { limit }) => assert_eq!(limit, Some(25)),
        other => panic!("unexpected {:?}", other),
    }
    let m = found(&[("phylax_history", &[Some("x"), Some("many")])]);
    match parse_platforms(&m, &none()) {
        Some(Intent::PhylaxHistory { limit }) => assert_eq!(limit, None),
        other => panic!("unexpected {:?}", other),
    }
    let m = found(&[("phylax_history", &[Some("x"), Some("+7")])]);
    match parse_platforms(&m, &none()) {
        Some(Intent::PhylaxHistory { limit }) => assert_eq!(limit, Some(7)),
        other => panic!("unexpected {:?}", other),
    }
}

#[test]
fn parse_phylax_scan_target_from_either_group() {
    let m = found(&[("phylax_scan", &[Some("x"), None, Some("/bin/ls"), Some("deep")])]);
    match parse_platforms(&m, &none()) {
        Some(Intent::PhylaxScan { target, mode }) => {
            assert_eq!(target, "/bin/ls");
            assert_eq!(mode.as_deref(), Some("deep"));
        }
        other => panic!("unexpected {:?}", other),
    }
}

#[test]
fn parse_tron_audit() {
    let m = found(&[("tron_audit", &[Some("x"), Some("agent-1"), Some("50")])]);
    match parse_platforms(&m, &none()) {
        Some(Intent::TronAudit { agent_id, limit }) => {
            assert_eq!(agent_id.as_deref(), Some("agent-1"));
            assert_eq!(limit, Some(50));
        }
        other => panic!("unexpected {:?}", other),
    }
}

#[test]
fn parse_platform_order_decides() {
    // Both an edge pattern and a tron pattern matched: edge patterns are tried first.
    let m = found(&[
        ("tron_status", &[Some("x")]),
        ("edge_list", &[Some("x"), None, None, Some("online")]),
    ]);
    match parse_platforms(&m, &none()) {
        Some(Intent::EdgeListNodes { status }) => assert_eq!(status.as_deref(), Some("online")),
        other => panic!("unexpected {:?}", other),
    }
}

#[test]
fn parse_shruti_mixer_flags_and_gain_text() {
    let m = found(&[("shruti_mixer", &[Some("x"), Some("vocals"), None, Some(" -3.5 "), Some("mute")])]);
    match parse_creative(&m) {
        Some(Intent::ShrutiMixer { track, gain, mute, solo }) => {
            assert_eq!(track, "vocals");
            assert_eq!(gain.as_deref(), Some("-3.5"));
            assert_eq!(mute, Some(true));
            assert_eq!(solo, None);
        }
        other => panic!("unexpected {:?}", other),
    }
}

#[test]
fn parse_shruti_ai_action_joins_words() {
    let m = found(&[("shruti_ai", &[Some("x"), Some("auto mix"), None, Some("drums")])]);
    match parse_creative(&m) {
        Some(Intent::ShrutiAi { action, track }) => {
            assert_eq!(action, "auto_mix");
            assert_eq!(track.as_deref(), Some("drums"));
        }
        other => panic!("unexpected {:?}", other),
    }
}

#[test]
fn parse_tazama_timeline_position_text() {
    let m = found(&[(
        "tazama_timeline",
        &[Some("x"), Some("split"), None, None, Some("clip-1"), None, Some("12.5")],
    )]);
    match parse_creative(&m) {
        Some(Intent::TazamaTimeline { action, clip_id, position }) => {
            assert_eq!(action, "split");
            assert_eq!(clip_id.as_deref(), Some("clip-1"));
            assert_eq!(position.as_deref(), Some("12.5"));
        }
        other => panic!("unexpected {:?}", other),
    }
}

#[test]
fn parse_tarang_search_similar_has_no_top_k() {
    let m = found(&[("tarang_search_similar", &[Some("x"), Some("song.wav")])]);
    match parse_creative(&m) {
        Some(Intent::TarangSearchSimilar { path, top_k }) => {
            assert_eq!(path, "song.wav");
            assert!(top_k.is_none());
        }
        other => panic!("unexpected {:?}", other),
    }
}

#[test]
fn parse_jalwa_recommend_max_fits_u32() {
    let m = found(&[("jalwa_recommend", &[Some("x"), Some("item-1"), Some("10")])]);
    match parse_creative(&m) {
        Some(Intent::JalwaRecommend { item_id, max }) => {
            assert_eq!(item_id, "item-1");
            assert_eq!(max, Some(10));
        }
        other => panic!("unexpected {:?}", other),
    }
    let m = found(&[("jalwa_recommend", &[Some("x"), Some("item-1"), Some("4294967296")])]);
    match parse_creative(&m) {
        Some(Intent::JalwaRecommend { max, .. }) => assert_eq!(max, None),
        other => panic!("unexpected {:?}", other),
    }
    let m = found(&[("jalwa_recommend", &[Some("x"), Some("item-1"), Some("4294967295")])]);
    match parse_creative(&m) {
        Some(Intent::JalwaRecommend { max, .. }) => assert_eq!(max, Some(4294967295)),
        other => panic!("unexpected {:?}", other),
    }
}

#[test]
fn parse_synapse_chat_needs_a_model() {
    let m = found(&[
        ("synapse_chat", &[Some("x"), None, Some(" ")]),
        ("synapse_status", &[Some("status")]),
    ]);
    assert!(matches!(parse_creative(&m), Some(Intent::SynapseStatus)));
}

#[test]
fn parse_mneme_notes() {
    let m = found(&[(
        "mneme_notes",
        &[Some("x"), Some("create"), None, None, Some("ideas"), None, Some("nb-2")],
    )]);
    match parse_creative(&m) {
        Some(Intent::MnemeNotes { action, title, notebook_id }) => {
            assert_eq!(action, "create");
            assert_eq!(title.as_deref(), Some("ideas"));
            assert_eq!(notebook_id.as_deref(), Some("nb-2"));
        }
        other => panic!("unexpected {:?}", other),
    }
}

#[test]
fn parse_gain_and_position_must_read_as_numbers() {
    for (typed, want) in [
        ("-3.5", Some("-3.5")),
        ("1e3", Some("1e3")),
        ("+.5", Some("+.5")),
        ("5.", Some("5.")),
        ("2E-7", Some("2E-7")),
        ("inf", Some("inf")),
        ("-Infinity", Some("-Infinity")),
        ("NaN", Some("NaN")),
        ("loud", None),
        (".", None),
        ("1.2.3", None),
        ("e5", None),
        ("1e", None),
        ("1e+", None),
        ("", None),
        ("--1", None),
    ] {
        let m = found(&[("shruti_mixer", &[Some("x"), Some("vocals"), None, Some(typed)])]);
        match parse_creative(&m) {
            Some(Intent::ShrutiMixer { gain, .. }) => assert_eq!(gain.as_deref(), want, "{:?}", typed),
            other => panic!("unexpected {:?}", other),
        }
        assert_eq!(typed.parse::<f64>().is_ok(), want.is_some(), "{:?}", typed);
    }
    let m = found(&[(
        "tazama_timeline",
        &[Some("x"), Some("split"), None, None, None, None, Some("soon")],
    )]);
    match parse_creative(&m) {
        Some(Intent::TazamaTimeline { position, .. }) => assert!(position.is_none()),
        other => panic!("unexpected {:?}", other),
    }
}
