use agnoshi::explain::{explain_lowered, Interpreter};
use agnoshi::intent::{Intent, TranslateError, Translation};
use agnoshi::parse::captures::{Captures, NamedMatch, PatternMatches};
use agnoshi::parse::creative::parse_creative;
use agnoshi::parse::platforms::parse_platforms;
use agnoshi::translate::network::{translate_network, validate_target};
use agnoshi::translate::{firewall::translate_firewall, git::translate_git, user::translate_user};
use agnoshi::translate::{
    agnostic::translate_agnostic, bullshift::translate_bullshift, delta::translate_delta,
    edge::translate_edge, jalwa::translate_jalwa, knowledge::translate_knowledge,
    marketplace::translate_marketplace, mneme::translate_mneme, package::translate_package,
    photis::translate_photis, phylax::translate_phylax, rasa::translate_rasa,
    shruti::translate_shruti, synapse::translate_synapse, system::translate_system,
    tazama::translate_tazama, tron::translate_tron, yeoman::translate_yeoman,
};

const METACHARS: [char; 15] = [';', '&', '|', '`', '$', '(', ')', '{', '}', '<', '>', '!', '\n', '\r', '\0'];

fn assert_tool_only(t: &Translation) {
    assert_eq!(t.command, "");
    assert!(t.args.is_empty());
    assert!(t.mcp.is_some());
}

#[test]
fn law_explain_ignores_ascii_case() {
    let i = Interpreter::new();
    assert_eq!(i.explain("LS", &[]), i.explain("ls", &[]));
    assert_eq!(i.explain("GiT", &[]), i.explain("git", &[]));
    assert_eq!(i.explain("FooBar", &[]), "Executes the foobar command");
    assert_eq!(i.explain("FooBar", &[]), i.explain("fOObAR", &[]));
}

#[test]
fn explain_lowered_reads_the_table() {
    assert_eq!(explain_lowered("cd"), "Changes the current working directory");
    assert_eq!(explain_lowered("CD"), "Executes the CD command");
    assert_eq!(Interpreter::new().explain("MiXeD Case", &[]), "Executes the mixed case command");
}

#[test]
fn law_network_arguments_never_carry_metacharacters() {
    let actions = [
        "port_scan", "ping_sweep", "dns_lookup", "trace_route", "packet_capture", "web_scan",
        "mass_scan", "arp_scan", "network_diag", "service_scan", "dir_fuzz", "vuln_scan",
        "socket_stats", "dns_enum", "deep_inspect", "bandwidth_monitor",
    ];
    let targets = [None, Some("10.0.0.1"), Some("http://x.local/a"), Some("a; rm -rf /"), Some("$(id)")];
    for a in actions {
        for t in targets {
            let intent = Intent::NetworkScan { action: a.to_string(), target: t.map(|s| s.to_string()) };
            match translate_network(&intent) {
                Ok(tr) => {
                    for arg in &tr.args {
                        assert!(!arg.chars().any(|c| METACHARS.contains(&c)), "{} {:?}", a, arg);
                    }
                }
                Err(e) => assert!(matches!(e, TranslateError::DisallowedCharacters(_)), "{} {:?}", a, t),
            }
        }
    }
}

#[test]
fn validate_target_counts_utf8_bytes() {
    assert!(validate_target(&"a".repeat(253)).is_ok());
    assert!(matches!(validate_target(&"a".repeat(254)), Err(TranslateError::TargetTooLong)));
    // 127 characters of two bytes each are 254 bytes.
    assert!(matches!(validate_target(&"é".repeat(127)), Err(TranslateError::TargetTooLong)));
    let s = format!("{}a", "é".repeat(126));
    assert!(validate_target(&s).is_ok());
    match validate_target("a|b") {
        Err(TranslateError::DisallowedCharacters(t)) => assert_eq!(t, "a|b"),
        other => panic!("unexpected {:?}", other),
    }
}

#[test]
fn translate_errors_have_messages() {
    let e = validate_target("x;y").unwrap_err();
    assert_eq!(e.message(), "Target contains disallowed characters: x;y");
    let e = validate_target(&"a".repeat(300)).unwrap_err();
    assert_eq!(e.message(), "Target too long (max 253 characters)");
    let e = translate_network(&Intent::NetworkScan { action: "teleport".to_string(), target: None })
        .unwrap_err();
    assert_eq!(e.message(), "Unknown network scan action: teleport");
    let e = translate_package(&Intent::ArkInfo { package: "a/b".to_string() }).unwrap_err();
    assert_eq!(e.message(), "Invalid identifier: contains path traversal or URL-special characters");
    let e = translate_marketplace(&Intent::MarketplaceUninstall { package: "..".to_string() })
        .unwrap_err();
    assert_eq!(e.message(), "Invalid identifier: contains path traversal characters");
    let e = translate_phylax(&Intent::SystemInfo).unwrap_err();
    assert_eq!(e.message(), "translate_phylax called with non-phylax intent");
    let e = translate_tron(&Intent::GitStatus).unwrap_err();
    assert_eq!(e.message(), "translate_tron called with non-tron intent");
    let e = translate_system(&Intent::MountControl {
        action: "explode".to_string(),
        mountpoint: None,
        filesystem: None,
    })
    .unwrap_err();
    assert_eq!(e.message(), "Unknown mount action: explode");
}

#[test]
fn law_tool_requests_run_no_command() {
    assert_tool_only(&translate_yeoman(&Intent::YeomanStatus).unwrap());
    assert_tool_only(&translate_agnostic(&Intent::AgnosticGpuStatus).unwrap());
    assert_tool_only(
        &translate_bullshift(&Intent::BullShiftMarket { action: "quote".to_string(), symbol: None })
            .unwrap(),
    );
    assert_tool_only(&translate_jalwa(&Intent::JalwaPause).unwrap());
    assert_tool_only(&translate_photis(&Intent::TaskList { status: None }).unwrap());
    assert_tool_only(&translate_delta(&Intent::DeltaListRepos).unwrap());
    assert_tool_only(&translate_edge(&Intent::EdgeListNodes { status: None }).unwrap());
    assert_tool_only(
        &translate_mneme(&Intent::MnemeSearch { query: "q".to_string(), mode: None }).unwrap(),
    );
    assert_tool_only(
        &translate_rasa(&Intent::RasaExport { path: None, format: None }).unwrap(),
    );
    assert_tool_only(
        &translate_shruti(&Intent::ShrutiExport { path: None, format: None }).unwrap(),
    );
    assert_tool_only(&translate_synapse(&Intent::SynapseStatus).unwrap());
    assert_tool_only(
        &translate_tazama(&Intent::TazamaExport { path: None, format: None }).unwrap(),
    );
    assert_tool_only(&translate_tron(&Intent::TronStatus).unwrap());
}

fn one_match(name: &str, groups: &[Option<&str>]) -> PatternMatches {
    PatternMatches {
        matches: vec![NamedMatch {
            name: name.to_string(),
            captures: Captures { groups: groups.iter().map(|g| g.map(|s| s.to_string())).collect() },
        }],
    }
}

#[test]
fn law_parsed_requests_reach_their_translator() {
    let none = PatternMatches { matches: vec![] };
    let i = parse_platforms(&one_match("yeoman_swarm", &[Some("x"), Some("list"), Some("s1")]), &none)
        .unwrap();
    assert_eq!(translate_yeoman(&i).unwrap().mcp.unwrap().tool_name, "yeoman_swarm");
    let i = parse_platforms(&one_match("edge_decommission", &[Some("x"), Some("node-9")]), &none)
        .unwrap();
    assert_eq!(translate_edge(&i).unwrap().mcp.unwrap().tool_name, "edge_decommission");
    let i = parse_platforms(&one_match("phylax_rules", &[Some("x")]), &none).unwrap();
    assert!(translate_phylax(&i).is_ok());
    let i = parse_platforms(&one_match("tron_risk", &[Some("x"), Some("a1")]), &none).unwrap();
    assert!(translate_tron(&i).is_ok());
    let i = parse_creative(&one_match("synapse_status", &[Some("x")])).unwrap();
    assert!(translate_synapse(&i).is_ok());
    let i = parse_creative(&one_match("jalwa_play", &[Some("x"), Some("a.mp3")])).unwrap();
    assert_eq!(translate_jalwa(&i).unwrap().mcp.unwrap().arguments["path"], "a.mp3");
}

#[test]
fn knowledge_body_is_json_text() {
    let t = translate_knowledge(&Intent::RagQuery { query: "say \"hi\"".to_string() }).unwrap();
    let body = t.args.last().unwrap();
    let v: serde_json::Value = serde_json::from_str(body).unwrap();
    assert_eq!(v["query"], "say \"hi\"");
    assert_eq!(v["top_k"], 5);
}

#[test]
fn law_account_firewall_git_commands_add_no_metacharacters() {
    let clean = |t: &Translation| t.args.iter().all(|a| !a.chars().any(|c| METACHARS.contains(&c)));
    let t = translate_user(&Intent::UserAdd {
        username: "ann".to_string(),
        shell: Some("/bin/zsh".to_string()),
        home: Some("/home/ann".to_string()),
    })
    .unwrap();
    assert!(clean(&t));
    let t = translate_firewall(&Intent::FirewallAllow { port: "443".to_string(), protocol: Some("tcp".to_string()) })
        .unwrap();
    assert!(clean(&t));
    let t = translate_git(&Intent::GitLog { count: Some(12) }).unwrap();
    assert!(clean(&t));
    // A request's own text is passed on unchecked.
    let t = translate_user(&Intent::UserDelete { username: "a;b".to_string(), remove_home: false }).unwrap();
    assert!(!clean(&t));
}

#[test]
fn json_bodies_are_compact_sorted_and_escaped() {
    let q = "a\"b\\c\n\t\u{1}\u{8}\u{c}\r\u{1f}\u{7f}é/";
    let t = translate_knowledge(&Intent::KnowledgeSearch { query: q.to_string(), source: None }).unwrap();
    assert_eq!(
        t.args.last().unwrap(),
        "{\"limit\":10,\"query\":\"a\\\"b\\\\c\\n\\t\\u0001\\b\\f\\r\\u001f\u{7f}é/\"}"
    );
    let t = translate_knowledge(&Intent::RagQuery { query: "x".to_string() }).unwrap();
    assert_eq!(t.args.last().unwrap(), "{\"query\":\"x\",\"top_k\":5}");
}
