//! Threat scanning through the phylax service.
use vstd::prelude::*;

use crate::intent::{outcome, run_view, Failure, Intent, TranslateError, Translation, TranslationView};
use crate::security::PermissionLevel;
use crate::text::{cat, cat5, list2, opt_view, or_else, or_text, owned};

verus! {

/// A `curl` request to the phylax service with a plain GET.
pub open spec fn curl_get(
    url: Seq<char>,
    desc: Seq<char>,
    permission: PermissionLevel,
    explanation: Seq<char>,
) -> TranslationView {
    run_view("curl"@, seq!["-s"@, url], desc, permission, explanation)
}

/// The outcome that `translate_phylax` gives: a request to the phylax service for each
/// phylax request, and a refusal of any other request.
pub open spec fn translate_phylax_spec(intent: &Intent) -> Result<TranslationView, Failure> {
    match intent {
        Intent::PhylaxScan { target, mode } => {
            let m = or_else(opt_view(*mode), "on_demand"@);
            Ok(
                run_view(
                    "curl"@,
                    seq![
                        "-s"@,
                        "-X"@,
                        "POST"@,
                        "http://127.0.0.1:8090/v1/scan/file"@,
                        "-H"@,
                        "Content-Type: application/json"@,
                        "-d"@,
                        "{\"path\":\""@ + target@ + "\",\"mode\":\""@ + m + "\"}"@,
                    ],
                    "Scan "@ + target@ + " for threats"@,
                    PermissionLevel::Admin,
                    "Runs phylax threat detection engine on target file"@,
                ),
            )
        },
        Intent::PhylaxFindings { severity } => Ok(
            curl_get(
                "http://127.0.0.1:8090/v1/scan/history"@ + match opt_view(*severity) {
                    Some(s) => "?severity="@ + s,
                    None => ""@,
                },
                "View threat scan findings"@,
                PermissionLevel::ReadOnly,
                "Retrieves phylax threat detection findings"@,
            ),
        ),
        Intent::PhylaxHistory { .. } => Ok(
            curl_get(
                "http://127.0.0.1:8090/v1/scan/history"@,
                "View phylax scan history"@,
                PermissionLevel::ReadOnly,
                "Lists recent phylax scan results"@,
            ),
        ),
        Intent::PhylaxStatus => Ok(
            curl_get(
                "http://127.0.0.1:8090/v1/scan/status"@,
                "Get phylax scanner status"@,
                PermissionLevel::ReadOnly,
                "Shows phylax threat detection engine statistics"@,
            ),
        ),
        Intent::PhylaxRules => Ok(
            curl_get(
                "http://127.0.0.1:8090/v1/scan/rules"@,
                "List phylax detection rules"@,
                PermissionLevel::ReadOnly,
                "Lists all loaded YARA-compatible detection rules"@,
            ),
        ),
        _ => Err(Failure::NotForThisTranslator { family: "phylax"@ }),
    }
}

fn get(url: String, desc: &str, permission: PermissionLevel, explanation: &str) -> (t: Translation)
    ensures
        t@ == curl_get(url@, desc@, permission, explanation@),
{
    Translation::cmd("curl", list2(owned("-s"), url), owned(desc), permission, explanation)
}

/// Translates a phylax request into a request to the phylax service; refuses any other
/// request.
pub fn translate_phylax(intent: &Intent) -> (r: Result<Translation, TranslateError>)
    ensures
        outcome(r) == translate_phylax_spec(intent),
{
    match intent {
        Intent::PhylaxScan { target, mode } => {
            let m = or_text(mode, "on_demand");
            let body = cat5("{\"path\":\"", target.as_str(), "\",\"mode\":\"", m.as_str(), "\"}");
            let mut args = list2(owned("-s"), owned("-X"));
            let tail = list2(owned("POST"), owned("http://127.0.0.1:8090/v1/scan/file"));
            crate::text::push_all(&mut args, &tail);
            let tail2 = list2(owned("-H"), owned("Content-Type: application/json"));
            crate::text::push_all(&mut args, &tail2);
            let tail3 = list2(owned("-d"), body);
            crate::text::push_all(&mut args, &tail3);
            assert(args.deep_view() =~= seq![
                "-s"@,
                "-X"@,
                "POST"@,
                "http://127.0.0.1:8090/v1/scan/file"@,
                "-H"@,
                "Content-Type: application/json"@,
                "-d"@,
                "{\"path\":\""@ + target@ + "\",\"mode\":\""@ + m@ + "\"}"@,
            ]);
            let d = crate::text::cat3("Scan ", target.as_str(), " for threats");
            let t = Translation::cmd("curl", args, d, PermissionLevel::Admin,
                "Runs phylax threat detection engine on target file");

            Ok(t)
        },
        Intent::PhylaxFindings { severity } => {
            let url = match severity {
                Some(s) => {
                    let u = crate::text::cat3("http://127.0.0.1:8090/v1/scan/history", "?severity=", s.as_str());
                    assert(u@ =~= "http://127.0.0.1:8090/v1/scan/history"@ + ("?severity="@ + s@));
                    u
                },
                None => cat("http://127.0.0.1:8090/v1/scan/history", ""),
            };
            Ok(get(url, "View threat scan findings", PermissionLevel::ReadOnly,
                "Retrieves phylax threat detection findings"))
        },
        Intent::PhylaxHistory { .. } => Ok(get(owned("http://127.0.0.1:8090/v1/scan/history"),
            "View phylax scan history", PermissionLevel::ReadOnly,
            "Lists recent phylax scan results")),
        Intent::PhylaxStatus => Ok(get(owned("http://127.0.0.1:8090/v1/scan/status"),
            "Get phylax scanner status", PermissionLevel::ReadOnly,
            "Shows phylax threat detection engine statistics")),
        Intent::PhylaxRules => Ok(get(owned("http://127.0.0.1:8090/v1/scan/rules"),
            "List phylax detection rules", PermissionLevel::ReadOnly,
            "Lists all loaded YARA-compatible detection rules")),
        _ => Err(TranslateError::NotForThisTranslator { family: owned("phylax") }),
    }
}

/// What each phylax request asks of the service with `curl`. A scan POSTs the
/// requested target as the body's `path` and the requested mode as its `mode`, with
/// `on_demand` standing in only where no mode is given, and needs admin rights; the
/// findings are read from the scan history, filtered by the requested severity just
/// where one is given; history, status and rules are read from their own endpoints.
/// Any other request is refused.
pub proof fn law_phylax_requests(intent: &Intent)
    ensures
        translate_phylax_spec(intent) is Ok <==> (intent is PhylaxScan || intent is PhylaxFindings
            || intent is PhylaxHistory || intent is PhylaxStatus || intent is PhylaxRules),
        translate_phylax_spec(intent) matches Err(f) ==> f == (Failure::NotForThisTranslator { family: "phylax"@ }),
        translate_phylax_spec(intent) matches Ok(t) ==> t.command == "curl"@ && t.permission == (
        if intent is PhylaxScan {
            PermissionLevel::Admin
        } else {
            PermissionLevel::ReadOnly
        }),
        intent matches Intent::PhylaxScan { target, mode } ==> (translate_phylax_spec(intent) matches Ok(t)
            && t.args == seq![
                "-s"@,
                "-X"@,
                "POST"@,
                "http://127.0.0.1:8090/v1/scan/file"@,
                "-H"@,
                "Content-Type: application/json"@,
                "-d"@,
                "{\"path\":\""@ + target@ + "\",\"mode\":\""@ + (match opt_view(*mode) {
                    Some(m) => m,
                    None => "on_demand"@,
                }) + "\"}"@,
            ]),
        intent matches Intent::PhylaxFindings { severity } ==> (translate_phylax_spec(intent) matches Ok(t)
            && t.args == seq!["-s"@, match opt_view(*severity) {
                Some(v) => "http://127.0.0.1:8090/v1/scan/history?severity="@ + v,
                None => "http://127.0.0.1:8090/v1/scan/history"@,
            }]),
        intent is PhylaxHistory ==> (translate_phylax_spec(intent) matches Ok(t)
            && t.args == seq!["-s"@, "http://127.0.0.1:8090/v1/scan/history"@]),
        intent is PhylaxStatus ==> (translate_phylax_spec(intent) matches Ok(t)
            && t.args == seq!["-s"@, "http://127.0.0.1:8090/v1/scan/status"@]),
        intent is PhylaxRules ==> (translate_phylax_spec(intent) matches Ok(t)
            && t.args == seq!["-s"@, "http://127.0.0.1:8090/v1/scan/rules"@]),
{
    if let Intent::PhylaxFindings { severity } = intent {
        if let Some(v) = opt_view(*severity) {
            reveal_strlit("http://127.0.0.1:8090/v1/scan/history");
            reveal_strlit("?severity=");
            reveal_strlit("http://127.0.0.1:8090/v1/scan/history?severity=");
            assert("http://127.0.0.1:8090/v1/scan/history"@ + "?severity="@
                =~= "http://127.0.0.1:8090/v1/scan/history?severity="@);
            assert("http://127.0.0.1:8090/v1/scan/history"@ + ("?severity="@ + v)
                =~= "http://127.0.0.1:8090/v1/scan/history?severity="@ + v);
        } else {
            reveal_strlit("");
            assert("http://127.0.0.1:8090/v1/scan/history"@ + ""@ =~= "http://127.0.0.1:8090/v1/scan/history"@);
        }
    }
}

} // verus!
