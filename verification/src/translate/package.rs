//! System packages through `apt-get`, and the AGNOS package manager `ark`.
use vstd::prelude::*;

use crate::intent::{outcome, run_view, Failure, Intent, TranslateError, Translation, TranslationView};
use crate::json::{json_object_insert, json_object_new, json_object_text, json_text, no_entries, JsonArg, JsonScalar};
use crate::security::PermissionLevel;
use crate::text::{cat, cat3, contains_char, contains_str, has_infix, join, join_seq, list2, list4, no_args, owned, push_all};

verus! {

/// A value that can stand as one segment of a URL path: no `..`, and none of
/// `/ \ NUL ? & # % =`.
pub open spec fn segment_is_safe(s: Seq<char>) -> bool {
    &&& !has_infix(s, ".."@)
    &&& !s.contains('/')
    &&& !s.contains('\\')
    &&& !s.contains('\0')
    &&& !s.contains('?')
    &&& !s.contains('&')
    &&& !s.contains('#')
    &&& !s.contains('%')
    &&& !s.contains('=')
}

/// Gives back `value` where it can stand as one segment of a URL path; refuses it where
/// it holds a path traversal or a URL-special character.
pub fn sanitize_url_segment(value: &str) -> (r: Result<&str, TranslateError>)
    ensures
        match r {
            Ok(v) => v@ == value@ && segment_is_safe(value@),
            Err(e) => !segment_is_safe(value@) && e@ == Failure::InvalidIdentifier,
        },
{
    if contains_str(value, "..") || contains_char(value, '/') || contains_char(value, '\\')
        || contains_char(value, '\0') || contains_char(value, '?') || contains_char(value, '&')
        || contains_char(value, '#') || contains_char(value, '%') || contains_char(value, '=') {
        return Err(TranslateError::InvalidIdentifier);
    }
    Ok(value)
}

/// The requests that `translate_package` handles.
pub open spec fn is_package_intent(intent: &Intent) -> bool {
    ||| intent is InstallPackage
    ||| intent is ArkInstall
    ||| intent is ArkRemove
    ||| intent is ArkSearch
    ||| intent is ArkInfo
    ||| intent is ArkUpdate
    ||| intent is ArkUpgrade
    ||| intent is ArkStatus
}

/// A JSON POST of `body` to `url` on the local daemon.
pub open spec fn curl_post_json(
    url: Seq<char>,
    body: Seq<char>,
    desc: Seq<char>,
    permission: PermissionLevel,
    explanation: Seq<char>,
) -> TranslationView {
    run_view(
        "curl"@,
        seq!["-s"@, "-X"@, "POST"@, url, "-H"@, "Content-Type: application/json"@, "-d"@, body],
        desc,
        permission,
        explanation,
    )
}

/// The JSON text of an object with the one entry `key`.
pub open spec fn one_entry_json(key: Seq<char>, value: JsonScalar) -> Seq<char> {
    json_text(no_entries().insert(key, value))
}

/// The JSON text of `{"packages": [...]}` for these packages.
pub open spec fn packages_json(packages: Seq<Seq<char>>) -> Seq<char> {
    one_entry_json("packages"@, JsonScalar::StrList(packages))
}

/// The outcome that `translate_package` gives for each package request.
pub open spec fn translate_package_spec(intent: &Intent) -> Result<TranslationView, Failure> {
    match intent {
        Intent::InstallPackage { packages } => Ok(
            run_view(
                "apt-get"@,
                seq!["install"@, "-y"@] + packages.deep_view(),
                "Install package(s): "@ + join_seq(packages.deep_view(), ", "@),
                PermissionLevel::SystemWrite,
                "Installs system packages (requires root)"@,
            ),
        ),
        Intent::ArkInstall { packages, .. } => Ok(
            curl_post_json(
                "http://127.0.0.1:8090/v1/ark/install"@,
                packages_json(packages.deep_view()),
                "Install packages via ark: "@ + join_seq(packages.deep_view(), ", "@),
                PermissionLevel::SystemWrite,
                "Installs packages using the AGNOS unified package manager"@,
            ),
        ),
        Intent::ArkRemove { packages } => Ok(
            curl_post_json(
                "http://127.0.0.1:8090/v1/ark/remove"@,
                packages_json(packages.deep_view()),
                "Remove packages via ark: "@ + join_seq(packages.deep_view(), ", "@),
                PermissionLevel::SystemWrite,
                "Removes packages using the AGNOS unified package manager"@,
            ),
        ),
        Intent::ArkSearch { query } => Ok(
            curl_post_json(
                "http://127.0.0.1:8090/v1/ark/search"@,
                one_entry_json("q"@, JsonScalar::Str(query@)),
                "Search packages via ark: "@ + query@,
                PermissionLevel::Safe,
                "Searches for packages across all configured sources"@,
            ),
        ),
        Intent::ArkInfo { package } => if segment_is_safe(package@) {
            Ok(
                run_view(
                    "curl"@,
                    seq!["-s"@, "http://127.0.0.1:8090/v1/ark/info/"@ + package@],
                    "Show ark package info: "@ + package@,
                    PermissionLevel::Safe,
                    "Retrieves detailed information about a package"@,
                ),
            )
        } else {
            Err(Failure::InvalidIdentifier)
        },
        Intent::ArkUpdate => Ok(
            run_view(
                "curl"@,
                seq!["-s"@, "-X"@, "POST"@, "http://127.0.0.1:8090/v1/ark/update"@],
                "Check for package updates via ark"@,
                PermissionLevel::Safe,
                "Refreshes package index from all configured sources"@,
            ),
        ),
        Intent::ArkUpgrade { packages } => Ok(
            curl_post_json(
                "http://127.0.0.1:8090/v1/ark/upgrade"@,
                one_entry_json(
                    "packages"@,
                    match packages {
                        Some(p) => JsonScalar::StrList(p.deep_view()),
                        None => JsonScalar::Null,
                    },
                ),
                "Upgrade packages via ark"@ + match packages {
                    Some(p) => ": "@ + join_seq(p.deep_view(), ", "@),
                    None => ""@,
                },
                PermissionLevel::SystemWrite,
                "Upgrades packages to latest versions"@,
            ),
        ),
        Intent::ArkStatus => Ok(
            run_view(
                "curl"@,
                seq!["-s"@, "http://127.0.0.1:8090/v1/ark/status"@],
                "Show ark package manager status"@,
                PermissionLevel::Safe,
                "Displays the status of the AGNOS unified package manager"@,
            ),
        ),
        _ => Err(Failure::NotForThisTranslator { family: "package"@ }),
    }
}

/// A copy of a list of strings.
pub fn copy_list(v: &Vec<String>) -> (r: Vec<String>)
    ensures
        r.deep_view() == v.deep_view(),
{
    let mut r = no_args();
    push_all(&mut r, v);
    assert(r.deep_view() =~= v.deep_view());
    r
}

/// The JSON text of an object whose one entry is `key`.
pub fn one_entry_text(key: &str, value: JsonArg) -> (s: String)
    ensures
        s@ == one_entry_json(key@, value@),
{
    let mut m = json_object_new();
    json_object_insert(&mut m, key, value);
    json_object_text(&m)
}

/// A JSON POST of `body` to `url` on the local daemon.
pub fn post_json(
    url: &str,
    body: String,
    desc: String,
    permission: PermissionLevel,
    explanation: &str,
) -> (t: Translation)
    ensures
        t@ == curl_post_json(url@, body@, desc@, permission, explanation@),
{
    let mut args = list4(owned("-s"), owned("-X"), owned("POST"), owned(url));
    let more = list4(owned("-H"), owned("Content-Type: application/json"), owned("-d"), body);
    push_all(&mut args, &more);
    assert(args.deep_view() =~= seq![
        "-s"@,
        "-X"@,
        "POST"@,
        url@,
        "-H"@,
        "Content-Type: application/json"@,
        "-d"@,
        body@,
    ]);
    Translation::cmd("curl", args, desc, permission, explanation)
}

/// Translates a package request into the command that does it; refuses an `ark info`
/// request whose package name is not a safe URL segment.
pub fn translate_package(intent: &Intent) -> (r: Result<Translation, TranslateError>)
    requires
        is_package_intent(intent),
    ensures
        outcome(r) == translate_package_spec(intent),
{
    match intent {
        Intent::InstallPackage { packages } => {
            let mut args = list2(owned("install"), owned("-y"));
            push_all(&mut args, packages);
            let d = cat("Install package(s): ", join(packages, ", ").as_str());
            Ok(Translation::cmd("apt-get", args, d, PermissionLevel::SystemWrite,
                "Installs system packages (requires root)"))
        },
        Intent::ArkInstall { packages, .. } => {
            let body = one_entry_text("packages", JsonArg::StrList(copy_list(packages)));
            let d = cat("Install packages via ark: ", join(packages, ", ").as_str());
            Ok(post_json("http://127.0.0.1:8090/v1/ark/install", body, d,
                PermissionLevel::SystemWrite,
                "Installs packages using the AGNOS unified package manager"))
        },
        Intent::ArkRemove { packages } => {
            let body = one_entry_text("packages", JsonArg::StrList(copy_list(packages)));
            let d = cat("Remove packages via ark: ", join(packages, ", ").as_str());
            Ok(post_json("http://127.0.0.1:8090/v1/ark/remove", body, d,
                PermissionLevel::SystemWrite,
                "Removes packages using the AGNOS unified package manager"))
        },
        Intent::ArkSearch { query } => {
            let body = one_entry_text("q", JsonArg::Str(query.clone()));
            let d = cat("Search packages via ark: ", query.as_str());
            Ok(post_json("http://127.0.0.1:8090/v1/ark/search", body, d, PermissionLevel::Safe,
                "Searches for packages across all configured sources"))
        },
        Intent::ArkInfo { package } => {
            let safe = match sanitize_url_segment(package.as_str()) {
                Ok(s) => s,
                Err(e) => return Err(e),
            };
            let url = cat("http://127.0.0.1:8090/v1/ark/info/", safe);
            let d = cat("Show ark package info: ", package.as_str());
            Ok(Translation::cmd("curl", list2(owned("-s"), url), d, PermissionLevel::Safe,
                "Retrieves detailed information about a package"))
        },
        Intent::ArkUpdate => {
            let args = list4(owned("-s"), owned("-X"), owned("POST"),
                owned("http://127.0.0.1:8090/v1/ark/update"));
            Ok(Translation::cmd("curl", args, owned("Check for package updates via ark"),
                PermissionLevel::Safe, "Refreshes package index from all configured sources"))
        },
        Intent::ArkUpgrade { packages } => {
            let value = match packages {
                Some(p) => JsonArg::StrList(copy_list(p)),
                None => JsonArg::Null,
            };
            let body = one_entry_text("packages", value);
            let d = match packages {
                Some(p) => {
                    let d = cat3("Upgrade packages via ark", ": ", join(p, ", ").as_str());
                    assert(d@ =~= "Upgrade packages via ark"@ + (": "@ + join_seq(p.deep_view(), ", "@)));
                    d
                },
                None => cat("Upgrade packages via ark", ""),
            };
            Ok(post_json("http://127.0.0.1:8090/v1/ark/upgrade", body, d,
                PermissionLevel::SystemWrite, "Upgrades packages to latest versions"))
        },
        Intent::ArkStatus => Ok(Translation::cmd("curl",
            list2(owned("-s"), owned("http://127.0.0.1:8090/v1/ark/status")),
            owned("Show ark package manager status"), PermissionLevel::Safe,
            "Displays the status of the AGNOS unified package manager")),
        _ => Err(TranslateError::NotForThisTranslator { family: owned("package") }),
    }
}

/// What each package request runs. A system install runs `apt-get install -y` on the
/// requested packages in order. The `ark` requests go to the local daemon with `curl`:
/// install, remove, upgrade and search POST a JSON object to their own endpoint, whose
/// one entry carries the requested packages (`null` for an upgrade of everything) or
/// the query; info reads the package's own URL, and is refused just where the package
/// name cannot stand as one segment of a URL path; update and status name their own
/// endpoints. Search, info, update and status are safe; the rest change the system.
pub proof fn law_package_requests(intent: &Intent)
    requires
        is_package_intent(intent),
    ensures
        translate_package_spec(intent) is Err <==> (intent matches Intent::ArkInfo { package }
            && !segment_is_safe(package@)),
        translate_package_spec(intent) matches Err(f) ==> f == Failure::InvalidIdentifier,
        translate_package_spec(intent) matches Ok(t) ==> t.permission == (if intent is ArkSearch
            || intent is ArkInfo || intent is ArkUpdate || intent is ArkStatus {
            PermissionLevel::Safe
        } else {
            PermissionLevel::SystemWrite
        }),
        translate_package_spec(intent) matches Ok(t) ==> t.command == (if intent is InstallPackage {
            "apt-get"@
        } else {
            "curl"@
        }),
        intent matches Intent::InstallPackage { packages } ==> (translate_package_spec(intent) matches Ok(t)
            && t.args == seq!["install"@, "-y"@] + packages.deep_view()),
        intent matches Intent::ArkInstall { packages, .. } ==> (translate_package_spec(intent) matches Ok(t)
            && t.args == seq!["-s"@, "-X"@, "POST"@, "http://127.0.0.1:8090/v1/ark/install"@, "-H"@, "Content-Type: application/json"@, "-d"@, json_text(Map::empty().insert("packages"@, JsonScalar::StrList(packages.deep_view())))]),
        intent matches Intent::ArkRemove { packages } ==> (translate_package_spec(intent) matches Ok(t)
            && t.args == seq!["-s"@, "-X"@, "POST"@, "http://127.0.0.1:8090/v1/ark/remove"@, "-H"@, "Content-Type: application/json"@, "-d"@, json_text(Map::empty().insert("packages"@, JsonScalar::StrList(packages.deep_view())))]),
        intent matches Intent::ArkUpgrade { packages } ==> (translate_package_spec(intent) matches Ok(t)
            && t.args == seq!["-s"@, "-X"@, "POST"@, "http://127.0.0.1:8090/v1/ark/upgrade"@, "-H"@, "Content-Type: application/json"@, "-d"@, json_text(Map::empty().insert("packages"@, match packages {
                Some(p) => JsonScalar::StrList(p.deep_view()),
                None => JsonScalar::Null,
            }))]),
        intent matches Intent::ArkSearch { query } ==> (translate_package_spec(intent) matches Ok(t)
            && t.args == seq!["-s"@, "-X"@, "POST"@, "http://127.0.0.1:8090/v1/ark/search"@, "-H"@, "Content-Type: application/json"@, "-d"@, json_text(Map::empty().insert("q"@, JsonScalar::Str(query@)))]),
        intent matches Intent::ArkInfo { package } ==> (segment_is_safe(package@) ==> (
            translate_package_spec(intent) matches Ok(t)
            && t.args == seq!["-s"@, "http://127.0.0.1:8090/v1/ark/info/"@ + package@])),
        intent is ArkUpdate ==> (translate_package_spec(intent) matches Ok(t)
            && t.args == seq!["-s"@, "-X"@, "POST"@, "http://127.0.0.1:8090/v1/ark/update"@]),
        intent is ArkStatus ==> (translate_package_spec(intent) matches Ok(t)
            && t.args == seq!["-s"@, "http://127.0.0.1:8090/v1/ark/status"@]),
{
}

} // verus!
