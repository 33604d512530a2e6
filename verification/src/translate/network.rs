//! Network scanning and diagnostics.
use vstd::prelude::*;

use crate::intent::{described, outcome, Failure, Intent, TranslateError, Translation, TranslationView};
use crate::security::PermissionLevel;
use crate::shell::{all_shell_safe, is_shell_metachar, lemma_shell_safe_concat, shell_safe};
use crate::text::{cat, list1, list2, list3, list4, opt_view, or_else, or_text, owned, str_eq};

verus! {

/// What is wrong with a network target, if anything: a shell metacharacter, or more
/// than 253 bytes of UTF-8.
pub open spec fn target_failure(t: Seq<char>) -> Option<Failure> {
    if exists|i: int| 0 <= i < t.len() && is_shell_metachar(#[trigger] t[i]) {
        Some(Failure::DisallowedCharacters(t))
    } else if vstd::utf8::encode_utf8(t).len() > 253 {
        Some(Failure::TargetTooLong)
    } else {
        None
    }
}

/// Accepts a network target (host name, address, CIDR block, URL) that is safe to hand
/// to a shell command, and refuses any other.
pub fn validate_target(target: &str) -> (r: Result<(), TranslateError>)
    ensures
        match r {
            Ok(()) => target_failure(target@) is None,
            Err(e) => target_failure(target@) == Some(e@),
        },
{
    let n = target.unicode_len();
    let mut i: usize = 0;
    while i < n
        invariant
            n == target@.len(),
            i <= n,
            forall|j: int| 0 <= j < i ==> !is_shell_metachar(#[trigger] target@[j]),
        decreases n - i,
    {
        let c = target.get_char(i);
        if c == ';' || c == '&' || c == '|' || c == '`' || c == '$' || c == '(' || c == ')' || c
            == '{' || c == '}' || c == '<' || c == '>' || c == '!' || c == '\n' || c == '\r' || c
            == '\0' {
            assert(is_shell_metachar(target@[i as int]));
            return Err(TranslateError::DisallowedCharacters(target.to_owned()));
        }
        i = i + 1;
    }
    if target.as_bytes().len() > 253 {
        return Err(TranslateError::TargetTooLong);
    }
    Ok(())
}

/// The command for a network action on an optional target, once the target is safe.
pub open spec fn network_action(action: Seq<char>, target: Option<Seq<char>>) -> Result<
    TranslationView,
    Failure,
> {
    let host = or_else(target, "localhost"@);
    let subnet = or_else(target, "192.168.1.0/24"@);
    let iface = or_else(target, "eth0"@);
    let web = or_else(target, "http://localhost"@);
    if action == "port_scan"@ {
        Ok(described("nmap"@, seq!["-sT"@, host], "Port scan on "@ + host, PermissionLevel::Admin))
    } else if action == "ping_sweep"@ {
        Ok(
            described(
                "nmap"@,
                seq!["-sn"@, subnet],
                "Ping sweep on "@ + subnet,
                PermissionLevel::Admin,
            ),
        )
    } else if action == "dns_lookup"@ {
        Ok(described("dig"@, seq![host], "DNS lookup for "@ + host, PermissionLevel::Safe))
    } else if action == "trace_route"@ {
        Ok(
            described(
                "traceroute"@,
                seq![host],
                "Trace route to "@ + host,
                PermissionLevel::Admin,
            ),
        )
    } else if action == "packet_capture"@ {
        Ok(
            described(
                "tcpdump"@,
                seq!["-i"@, iface, "-c"@, "100"@],
                "Capture packets on "@ + iface,
                PermissionLevel::Admin,
            ),
        )
    } else if action == "web_scan"@ {
        Ok(described("nikto"@, seq!["-h"@, web], "Web scan on "@ + web, PermissionLevel::Admin))
    } else if action == "mass_scan"@ {
        Ok(
            described(
                "masscan"@,
                seq!["--rate=1000"@, "-p1-65535"@, subnet],
                "Mass scan on "@ + subnet,
                PermissionLevel::Admin,
            ),
        )
    } else if action == "arp_scan"@ {
        Ok(
            described(
                "arp-scan"@,
                match target {
                    Some(t) => seq![t],
                    None => seq!["--localnet"@],
                },
                "ARP scan local network"@,
                PermissionLevel::Admin,
            ),
        )
    } else if action == "network_diag"@ {
        Ok(
            described(
                "mtr"@,
                seq!["--report"@, "-c"@, "10"@, host],
                "Network diagnostics to "@ + host,
                PermissionLevel::Admin,
            ),
        )
    } else if action == "service_scan"@ {
        Ok(
            described(
                "nmap"@,
                seq!["-sV"@, host],
                "Service detection on "@ + host,
                PermissionLevel::Admin,
            ),
        )
    } else if action == "dir_fuzz"@ {
        Ok(
            described(
                "ffuf"@,
                seq!["-u"@, web + "/FUZZ"@, "-w"@, "/usr/share/wordlists/common.txt"@],
                "Directory fuzzing on "@ + web,
                PermissionLevel::Admin,
            ),
        )
    } else if action == "vuln_scan"@ {
        Ok(
            described(
                "nuclei"@,
                seq!["-u"@, web, "-silent"@],
                "Vulnerability scan on "@ + web,
                PermissionLevel::Admin,
            ),
        )
    } else if action == "socket_stats"@ {
        Ok(
            described(
                "ss"@,
                seq!["-tunap"@],
                "Show network sockets and connections"@,
                PermissionLevel::Safe,
            ),
        )
    } else if action == "dns_enum"@ {
        Ok(
            described(
                "dnsrecon"@,
                seq!["-d"@, host],
                "DNS enumeration for "@ + host,
                PermissionLevel::Admin,
            ),
        )
    } else if action == "deep_inspect"@ {
        Ok(
            described(
                "tshark"@,
                seq!["-i"@, iface, "-c"@, "100"@],
                "Deep packet inspection on "@ + iface,
                PermissionLevel::Admin,
            ),
        )
    } else if action == "bandwidth_monitor"@ {
        Ok(
            described(
                "nethogs"@,
                Seq::empty(),
                "Monitor per-process bandwidth usage"@,
                PermissionLevel::Admin,
            ),
        )
    } else {
        Err(Failure::UnknownAction { subject: "network scan"@, action })
    }
}

/// What a network scan request gives: the target is checked first, then the action
/// picks the tool.
pub open spec fn network_spec(action: Seq<char>, target: Option<Seq<char>>) -> Result<
    TranslationView,
    Failure,
> {
    match target {
        Some(t) => match target_failure(t) {
            Some(f) => Err(f),
            None => network_action(action, target),
        },
        None => network_action(action, target),
    }
}

/// The outcome that `translate_network` gives for a network scan request.
pub open spec fn translate_network_spec(intent: &Intent) -> Result<TranslationView, Failure> {
    match intent {
        Intent::NetworkScan { action, target } => network_spec(action@, opt_view(*target)),
        _ => Err(Failure::NotForThisTranslator { family: "network"@ }),
    }
}

/// Translates a network scan request into the scanner that does it.
pub fn translate_network(intent: &Intent) -> (r: Result<Translation, TranslateError>)
    requires
        intent is NetworkScan,
    ensures
        outcome(r) == translate_network_spec(intent),
{
    match intent {
        Intent::NetworkScan { action, target } => {
            if let Some(t) = target {
                if let Err(e) = validate_target(t.as_str()) {
                    return Err(e);
                }
            }
            let a = action.as_str();
            if str_eq(a, "port_scan") {
                let t = or_text(target, "localhost");
                let d = cat("Port scan on ", t.as_str());
                Ok(Translation::described("nmap", list2(owned("-sT"), t), d, PermissionLevel::Admin))
            } else if str_eq(a, "ping_sweep") {
                let t = or_text(target, "192.168.1.0/24");
                let d = cat("Ping sweep on ", t.as_str());
                Ok(Translation::described("nmap", list2(owned("-sn"), t), d, PermissionLevel::Admin))
            } else if str_eq(a, "dns_lookup") {
                let t = or_text(target, "localhost");
                let d = cat("DNS lookup for ", t.as_str());
                Ok(Translation::described("dig", list1(t), d, PermissionLevel::Safe))
            } else if str_eq(a, "trace_route") {
                let t = or_text(target, "localhost");
                let d = cat("Trace route to ", t.as_str());
                Ok(Translation::described("traceroute", list1(t), d, PermissionLevel::Admin))
            } else if str_eq(a, "packet_capture") {
                let t = or_text(target, "eth0");
                let d = cat("Capture packets on ", t.as_str());
                let args = list4(owned("-i"), t, owned("-c"), owned("100"));
                Ok(Translation::described("tcpdump", args, d, PermissionLevel::Admin))
            } else if str_eq(a, "web_scan") {
                let t = or_text(target, "http://localhost");
                let d = cat("Web scan on ", t.as_str());
                Ok(Translation::described("nikto", list2(owned("-h"), t), d, PermissionLevel::Admin))
            } else if str_eq(a, "mass_scan") {
                let t = or_text(target, "192.168.1.0/24");
                let d = cat("Mass scan on ", t.as_str());
                let args = list3(owned("--rate=1000"), owned("-p1-65535"), t);
                Ok(Translation::described("masscan", args, d, PermissionLevel::Admin))
            } else if str_eq(a, "arp_scan") {
                let args = match target {
                    Some(t) => list1(t.clone()),
                    None => list1(owned("--localnet")),
                };
                let d = owned("ARP scan local network");
                Ok(Translation::described("arp-scan", args, d, PermissionLevel::Admin))
            } else if str_eq(a, "network_diag") {
                let t = or_text(target, "localhost");
                let d = cat("Network diagnostics to ", t.as_str());
                let args = list4(owned("--report"), owned("-c"), owned("10"), t);
                Ok(Translation::described("mtr", args, d, PermissionLevel::Admin))
            } else if str_eq(a, "service_scan") {
                let t = or_text(target, "localhost");
                let d = cat("Service detection on ", t.as_str());
                Ok(Translation::described("nmap", list2(owned("-sV"), t), d, PermissionLevel::Admin))
            } else if str_eq(a, "dir_fuzz") {
                let t = or_text(target, "http://localhost");
                let d = cat("Directory fuzzing on ", t.as_str());
                let url = cat(t.as_str(), "/FUZZ");
                let args = list4(
                    owned("-u"),
                    url,
                    owned("-w"),
                    owned("/usr/share/wordlists/common.txt"),
                );
                Ok(Translation::described("ffuf", args, d, PermissionLevel::Admin))
            } else if str_eq(a, "vuln_scan") {
                let t = or_text(target, "http://localhost");
                let d = cat("Vulnerability scan on ", t.as_str());
                let args = list3(owned("-u"), t, owned("-silent"));
                Ok(Translation::described("nuclei", args, d, PermissionLevel::Admin))
            } else if str_eq(a, "socket_stats") {
                let d = owned("Show network sockets and connections");
                Ok(Translation::described("ss", list1(owned("-tunap")), d, PermissionLevel::Safe))
            } else if str_eq(a, "dns_enum") {
                let t = or_text(target, "localhost");
                let d = cat("DNS enumeration for ", t.as_str());
                Ok(Translation::described("dnsrecon", list2(owned("-d"), t), d, PermissionLevel::Admin))
            } else if str_eq(a, "deep_inspect") {
                let t = or_text(target, "eth0");
                let d = cat("Deep packet inspection on ", t.as_str());
                let args = list4(owned("-i"), t, owned("-c"), owned("100"));
                Ok(Translation::described("tshark", args, d, PermissionLevel::Admin))
            } else if str_eq(a, "bandwidth_monitor") {
                let d = owned("Monitor per-process bandwidth usage");
                let args: Vec<String> = Vec::new();
                assert(args.deep_view() =~= Seq::<Seq<char>>::empty());
                Ok(Translation::described("nethogs", args, d, PermissionLevel::Admin))
            } else {
                Err(TranslateError::UnknownAction { subject: owned("network scan"), action: action.clone() })
            }
        },
        _ => Err(TranslateError::NotForThisTranslator { family: owned("network") }),
    }
}


proof fn lemma_literals_shell_safe()
    ensures
        shell_safe("-sT"@),
        shell_safe("-sn"@),
        shell_safe("-sV"@),
        shell_safe("-h"@),
        shell_safe("-i"@),
        shell_safe("-c"@),
        shell_safe("-d"@),
        shell_safe("-u"@),
        shell_safe("-w"@),
        shell_safe("100"@),
        shell_safe("10"@),
        shell_safe("--rate=1000"@),
        shell_safe("-p1-65535"@),
        shell_safe("--localnet"@),
        shell_safe("--report"@),
        shell_safe("/FUZZ"@),
        shell_safe("/usr/share/wordlists/common.txt"@),
        shell_safe("-silent"@),
        shell_safe("-tunap"@),
        shell_safe("localhost"@),
        shell_safe("192.168.1.0/24"@),
        shell_safe("eth0"@),
        shell_safe("http://localhost"@),
{
    reveal_strlit("-sT");
    reveal_strlit("-sn");
    reveal_strlit("-sV");
    reveal_strlit("-h");
    reveal_strlit("-i");
    reveal_strlit("-c");
    reveal_strlit("-d");
    reveal_strlit("-u");
    reveal_strlit("-w");
    reveal_strlit("100");
    reveal_strlit("10");
    reveal_strlit("--rate=1000");
    reveal_strlit("-p1-65535");
    reveal_strlit("--localnet");
    reveal_strlit("--report");
    reveal_strlit("/FUZZ");
    reveal_strlit("/usr/share/wordlists/common.txt");
    reveal_strlit("-silent");
    reveal_strlit("-tunap");
    reveal_strlit("localhost");
    reveal_strlit("192.168.1.0/24");
    reveal_strlit("eth0");
    reveal_strlit("http://localhost");
}

/// A network scan never hands a shell metacharacter to the scanner: every argument of
/// the command that a network scan request gives is free of them, whatever target was
/// asked for.
pub proof fn law_network_args_are_shell_safe(action: Seq<char>, target: Option<Seq<char>>)
    ensures
        network_spec(action, target) matches Ok(t) ==> all_shell_safe(t.args),
{
    lemma_literals_shell_safe();
    if let Some(t) = target {
        if target_failure(t) is None {
            assert(shell_safe(t));
        }
    }
    if network_spec(action, target) is Ok {
        let host = or_else(target, "localhost"@);
        let web = or_else(target, "http://localhost"@);
        assert(shell_safe(host));
        assert(shell_safe(web));
        assert(shell_safe(or_else(target, "192.168.1.0/24"@)));
        assert(shell_safe(or_else(target, "eth0"@)));
        lemma_shell_safe_concat(web, "/FUZZ"@);
    }
}

/// Whether an optional network target is absent or passes `validate_target`.
pub open spec fn opt_shell_target_ok(target: Option<Seq<char>>) -> bool {
    match target {
        Some(t) => target_failure(t) is None,
        None => true,
    }
}

/// Which scanner a network scan runs and on what: a valid target that is given is the
/// one scanned, in its place among the arguments; the default host, subnet, interface
/// or URL stands in only where no target is given; an unsafe target is refused; an
/// action no scanner answers is refused.
pub proof fn law_network_scans_the_requested_target(intent: &Intent)
    ensures
        intent matches Intent::NetworkScan { action, target } ==> (action@ == "port_scan"@ && opt_shell_target_ok(opt_view(*target)) ==> (translate_network_spec(intent) matches Ok(t)
            && t.command == "nmap"@ && t.args == seq!["-sT"@, (match opt_view(*target) { Some(x) => x, None => "localhost"@ })] && t.permission == PermissionLevel::Admin)),
        intent matches Intent::NetworkScan { action, target } ==> (action@ == "ping_sweep"@ && opt_shell_target_ok(opt_view(*target)) ==> (translate_network_spec(intent) matches Ok(t)
            && t.command == "nmap"@ && t.args == seq!["-sn"@, (match opt_view(*target) { Some(x) => x, None => "192.168.1.0/24"@ })] && t.permission == PermissionLevel::Admin)),
        intent matches Intent::NetworkScan { action, target } ==> (action@ == "dns_lookup"@ && opt_shell_target_ok(opt_view(*target)) ==> (translate_network_spec(intent) matches Ok(t)
            && t.command == "dig"@ && t.args == seq![(match opt_view(*target) { Some(x) => x, None => "localhost"@ })] && t.permission == PermissionLevel::Safe)),
        intent matches Intent::NetworkScan { action, target } ==> (action@ == "trace_route"@ && opt_shell_target_ok(opt_view(*target)) ==> (translate_network_spec(intent) matches Ok(t)
            && t.command == "traceroute"@ && t.args == seq![(match opt_view(*target) { Some(x) => x, None => "localhost"@ })] && t.permission == PermissionLevel::Admin)),
        intent matches Intent::NetworkScan { action, target } ==> (action@ == "packet_capture"@ && opt_shell_target_ok(opt_view(*target)) ==> (translate_network_spec(intent) matches Ok(t)
            && t.command == "tcpdump"@ && t.args == seq!["-i"@, (match opt_view(*target) { Some(x) => x, None => "eth0"@ }), "-c"@, "100"@] && t.permission == PermissionLevel::Admin)),
        intent matches Intent::NetworkScan { action, target } ==> (action@ == "web_scan"@ && opt_shell_target_ok(opt_view(*target)) ==> (translate_network_spec(intent) matches Ok(t)
            && t.command == "nikto"@ && t.args == seq!["-h"@, (match opt_view(*target) { Some(x) => x, None => "http://localhost"@ })] && t.permission == PermissionLevel::Admin)),
        intent matches Intent::NetworkScan { action, target } ==> (action@ == "mass_scan"@ && opt_shell_target_ok(opt_view(*target)) ==> (translate_network_spec(intent) matches Ok(t)
            && t.command == "masscan"@ && t.args == seq!["--rate=1000"@, "-p1-65535"@, (match opt_view(*target) { Some(x) => x, None => "192.168.1.0/24"@ })] && t.permission == PermissionLevel::Admin)),
        intent matches Intent::NetworkScan { action, target } ==> (action@ == "arp_scan"@ && opt_shell_target_ok(opt_view(*target)) ==> (translate_network_spec(intent) matches Ok(t)
            && t.command == "arp-scan"@ && t.args == seq![(match opt_view(*target) { Some(x) => x, None => "--localnet"@ })] && t.permission == PermissionLevel::Admin)),
        intent matches Intent::NetworkScan { action, target } ==> (action@ == "network_diag"@ && opt_shell_target_ok(opt_view(*target)) ==> (translate_network_spec(intent) matches Ok(t)
            && t.command == "mtr"@ && t.args == seq!["--report"@, "-c"@, "10"@, (match opt_view(*target) { Some(x) => x, None => "localhost"@ })] && t.permission == PermissionLevel::Admin)),
        intent matches Intent::NetworkScan { action, target } ==> (action@ == "service_scan"@ && opt_shell_target_ok(opt_view(*target)) ==> (translate_network_spec(intent) matches Ok(t)
            && t.command == "nmap"@ && t.args == seq!["-sV"@, (match opt_view(*target) { Some(x) => x, None => "localhost"@ })] && t.permission == PermissionLevel::Admin)),
        intent matches Intent::NetworkScan { action, target } ==> (action@ == "dir_fuzz"@ && opt_shell_target_ok(opt_view(*target)) ==> (translate_network_spec(intent) matches Ok(t)
            && t.command == "ffuf"@ && t.args == seq!["-u"@, (match opt_view(*target) { Some(x) => x, None => "http://localhost"@ }) + "/FUZZ"@, "-w"@, "/usr/share/wordlists/common.txt"@] && t.permission == PermissionLevel::Admin)),
        intent matches Intent::NetworkScan { action, target } ==> (action@ == "vuln_scan"@ && opt_shell_target_ok(opt_view(*target)) ==> (translate_network_spec(intent) matches Ok(t)
            && t.command == "nuclei"@ && t.args == seq!["-u"@, (match opt_view(*target) { Some(x) => x, None => "http://localhost"@ }), "-silent"@] && t.permission == PermissionLevel::Admin)),
        intent matches Intent::NetworkScan { action, target } ==> (action@ == "socket_stats"@ && opt_shell_target_ok(opt_view(*target)) ==> (translate_network_spec(intent) matches Ok(t)
            && t.command == "ss"@ && t.args == seq!["-tunap"@] && t.permission == PermissionLevel::Safe)),
        intent matches Intent::NetworkScan { action, target } ==> (action@ == "dns_enum"@ && opt_shell_target_ok(opt_view(*target)) ==> (translate_network_spec(intent) matches Ok(t)
            && t.command == "dnsrecon"@ && t.args == seq!["-d"@, (match opt_view(*target) { Some(x) => x, None => "localhost"@ })] && t.permission == PermissionLevel::Admin)),
        intent matches Intent::NetworkScan { action, target } ==> (action@ == "deep_inspect"@ && opt_shell_target_ok(opt_view(*target)) ==> (translate_network_spec(intent) matches Ok(t)
            && t.command == "tshark"@ && t.args == seq!["-i"@, (match opt_view(*target) { Some(x) => x, None => "eth0"@ }), "-c"@, "100"@] && t.permission == PermissionLevel::Admin)),
        intent matches Intent::NetworkScan { action, target } ==> (action@ == "bandwidth_monitor"@ && opt_shell_target_ok(opt_view(*target)) ==> (translate_network_spec(intent) matches Ok(t)
            && t.command == "nethogs"@ && t.args == Seq::<Seq<char>>::empty() && t.permission == PermissionLevel::Admin)),
        intent matches Intent::NetworkScan { action, target } ==> (opt_view(*target) matches Some(x) ==> (target_failure(x) is Some ==> translate_network_spec(intent) == Err::<TranslationView, Failure>(target_failure(x)->Some_0))),
        intent matches Intent::NetworkScan { action, target } ==> (opt_shell_target_ok(opt_view(*target)) && !(action@ == "port_scan"@ || action@ == "ping_sweep"@ || action@ == "dns_lookup"@ || action@ == "trace_route"@ || action@ == "packet_capture"@ || action@ == "web_scan"@ || action@ == "mass_scan"@ || action@ == "arp_scan"@ || action@ == "network_diag"@ || action@ == "service_scan"@ || action@ == "dir_fuzz"@ || action@ == "vuln_scan"@ || action@ == "socket_stats"@ || action@ == "dns_enum"@ || action@ == "deep_inspect"@ || action@ == "bandwidth_monitor"@) ==> translate_network_spec(intent) == Err::<TranslationView, Failure>(Failure::UnknownAction { subject: "network scan"@, action: action@ })),
{
    reveal_strlit("port_scan");
    reveal_strlit("ping_sweep");
    reveal_strlit("dns_lookup");
    reveal_strlit("trace_route");
    reveal_strlit("packet_capture");
    reveal_strlit("web_scan");
    reveal_strlit("mass_scan");
    reveal_strlit("arp_scan");
    reveal_strlit("network_diag");
    reveal_strlit("service_scan");
    reveal_strlit("dir_fuzz");
    reveal_strlit("vuln_scan");
    reveal_strlit("socket_stats");
    reveal_strlit("dns_enum");
    reveal_strlit("deep_inspect");
    reveal_strlit("bandwidth_monitor");
    assert("port_scan"@.len() != "ping_sweep"@.len());
    assert("port_scan"@.len() != "dns_lookup"@.len());
    assert("port_scan"@.len() != "trace_route"@.len());
    assert("port_scan"@.len() != "packet_capture"@.len());
    assert("port_scan"@.len() != "web_scan"@.len());
    assert("port_scan"@[0] != "mass_scan"@[0]);
    assert("port_scan"@.len() != "arp_scan"@.len());
    assert("port_scan"@.len() != "network_diag"@.len());
    assert("port_scan"@.len() != "service_scan"@.len());
    assert("port_scan"@.len() != "dir_fuzz"@.len());
    assert("port_scan"@[0] != "vuln_scan"@[0]);
    assert("port_scan"@.len() != "socket_stats"@.len());
    assert("port_scan"@.len() != "dns_enum"@.len());
    assert("port_scan"@.len() != "deep_inspect"@.len());
    assert("port_scan"@.len() != "bandwidth_monitor"@.len());
    assert("ping_sweep"@[0] != "dns_lookup"@[0]);
    assert("ping_sweep"@.len() != "trace_route"@.len());
    assert("ping_sweep"@.len() != "packet_capture"@.len());
    assert("ping_sweep"@.len() != "web_scan"@.len());
    assert("ping_sweep"@.len() != "mass_scan"@.len());
    assert("ping_sweep"@.len() != "arp_scan"@.len());
    assert("ping_sweep"@.len() != "network_diag"@.len());
    assert("ping_sweep"@.len() != "service_scan"@.len());
    assert("ping_sweep"@.len() != "dir_fuzz"@.len());
    assert("ping_sweep"@.len() != "vuln_scan"@.len());
    assert("ping_sweep"@.len() != "socket_stats"@.len());
    assert("ping_sweep"@.len() != "dns_enum"@.len());
    assert("ping_sweep"@.len() != "deep_inspect"@.len());
    assert("ping_sweep"@.len() != "bandwidth_monitor"@.len());
    assert("dns_lookup"@.len() != "trace_route"@.len());
    assert("dns_lookup"@.len() != "packet_capture"@.len());
    assert("dns_lookup"@.len() != "web_scan"@.len());
    assert("dns_lookup"@.len() != "mass_scan"@.len());
    assert("dns_lookup"@.len() != "arp_scan"@.len());
    assert("dns_lookup"@.len() != "network_diag"@.len());
    assert("dns_lookup"@.len() != "service_scan"@.len());
    assert("dns_lookup"@.len() != "dir_fuzz"@.len());
    assert("dns_lookup"@.len() != "vuln_scan"@.len());
    assert("dns_lookup"@.len() != "socket_stats"@.len());
    assert("dns_lookup"@.len() != "dns_enum"@.len());
    assert("dns_lookup"@.len() != "deep_inspect"@.len());
    assert("dns_lookup"@.len() != "bandwidth_monitor"@.len());
    assert("trace_route"@.len() != "packet_capture"@.len());
    assert("trace_route"@.len() != "web_scan"@.len());
    assert("trace_route"@.len() != "mass_scan"@.len());
    assert("trace_route"@.len() != "arp_scan"@.len());
    assert("trace_route"@.len() != "network_diag"@.len());
    assert("trace_route"@.len() != "service_scan"@.len());
    assert("trace_route"@.len() != "dir_fuzz"@.len());
    assert("trace_route"@.len() != "vuln_scan"@.len());
    assert("trace_route"@.len() != "socket_stats"@.len());
    assert("trace_route"@.len() != "dns_enum"@.len());
    assert("trace_route"@.len() != "deep_inspect"@.len());
    assert("trace_route"@.len() != "bandwidth_monitor"@.len());
    assert("packet_capture"@.len() != "web_scan"@.len());
    assert("packet_capture"@.len() != "mass_scan"@.len());
    assert("packet_capture"@.len() != "arp_scan"@.len());
    assert("packet_capture"@.len() != "network_diag"@.len());
    assert("packet_capture"@.len() != "service_scan"@.len());
    assert("packet_capture"@.len() != "dir_fuzz"@.len());
    assert("packet_capture"@.len() != "vuln_scan"@.len());
    assert("packet_capture"@.len() != "socket_stats"@.len());
    assert("packet_capture"@.len() != "dns_enum"@.len());
    assert("packet_capture"@.len() != "deep_inspect"@.len());
    assert("packet_capture"@.len() != "bandwidth_monitor"@.len());
    assert("web_scan"@.len() != "mass_scan"@.len());
    assert("web_scan"@[0] != "arp_scan"@[0]);
    assert("web_scan"@.len() != "network_diag"@.len());
    assert("web_scan"@.len() != "service_scan"@.len());
    assert("web_scan"@[0] != "dir_fuzz"@[0]);
    assert("web_scan"@.len() != "vuln_scan"@.len());
    assert("web_scan"@.len() != "socket_stats"@.len());
    assert("web_scan"@[0] != "dns_enum"@[0]);
    assert("web_scan"@.len() != "deep_inspect"@.len());
    assert("web_scan"@.len() != "bandwidth_monitor"@.len());
    assert("mass_scan"@.len() != "arp_scan"@.len());
    assert("mass_scan"@.len() != "network_diag"@.len());
    assert("mass_scan"@.len() != "service_scan"@.len());
    assert("mass_scan"@.len() != "dir_fuzz"@.len());
    assert("mass_scan"@[0] != "vuln_scan"@[0]);
    assert("mass_scan"@.len() != "socket_stats"@.len());
    assert("mass_scan"@.len() != "dns_enum"@.len());
    assert("mass_scan"@.len() != "deep_inspect"@.len());
    assert("mass_scan"@.len() != "bandwidth_monitor"@.len());
    assert("arp_scan"@.len() != "network_diag"@.len());
    assert("arp_scan"@.len() != "service_scan"@.len());
    assert("arp_scan"@[0] != "dir_fuzz"@[0]);
    assert("arp_scan"@.len() != "vuln_scan"@.len());
    assert("arp_scan"@.len() != "socket_stats"@.len());
    assert("arp_scan"@[0] != "dns_enum"@[0]);
    assert("arp_scan"@.len() != "deep_inspect"@.len());
    assert("arp_scan"@.len() != "bandwidth_monitor"@.len());
    assert("network_diag"@[0] != "service_scan"@[0]);
    assert("network_diag"@.len() != "dir_fuzz"@.len());
    assert("network_diag"@.len() != "vuln_scan"@.len());
    assert("network_diag"@[0] != "socket_stats"@[0]);
    assert("network_diag"@.len() != "dns_enum"@.len());
    assert("network_diag"@[0] != "deep_inspect"@[0]);
    assert("network_diag"@.len() != "bandwidth_monitor"@.len());
    assert("service_scan"@.len() != "dir_fuzz"@.len());
    assert("service_scan"@.len() != "vuln_scan"@.len());
    assert("service_scan"@[1] != "socket_stats"@[1]);
    assert("service_scan"@.len() != "dns_enum"@.len());
    assert("service_scan"@[0] != "deep_inspect"@[0]);
    assert("service_scan"@.len() != "bandwidth_monitor"@.len());
    assert("dir_fuzz"@.len() != "vuln_scan"@.len());
    assert("dir_fuzz"@.len() != "socket_stats"@.len());
    assert("dir_fuzz"@[1] != "dns_enum"@[1]);
    assert("dir_fuzz"@.len() != "deep_inspect"@.len());
    assert("dir_fuzz"@.len() != "bandwidth_monitor"@.len());
    assert("vuln_scan"@.len() != "socket_stats"@.len());
    assert("vuln_scan"@.len() != "dns_enum"@.len());
    assert("vuln_scan"@.len() != "deep_inspect"@.len());
    assert("vuln_scan"@.len() != "bandwidth_monitor"@.len());
    assert("socket_stats"@.len() != "dns_enum"@.len());
    assert("socket_stats"@[0] != "deep_inspect"@[0]);
    assert("socket_stats"@.len() != "bandwidth_monitor"@.len());
    assert("dns_enum"@.len() != "deep_inspect"@.len());
    assert("dns_enum"@.len() != "bandwidth_monitor"@.len());
    assert("deep_inspect"@.len() != "bandwidth_monitor"@.len());
}
} // verus!
