//! Packages of the AGNOS marketplace.
use vstd::prelude::*;

use crate::intent::{outcome, run_view, Failure, Intent, TranslateError, Translation, TranslationView};
use crate::json::{json_text, JsonArg, JsonScalar};
use crate::security::PermissionLevel;
use crate::text::{cat, contains_char, contains_str, has_infix, list2, list4, owned};
use crate::translate::package::{curl_post_json, one_entry_json, one_entry_text, post_json};

verus! {

/// A package name that can stand as one segment of a URL path: no `..`, and none of
/// `/ \ NUL`.
pub open spec fn name_is_safe(s: Seq<char>) -> bool {
    &&& !has_infix(s, ".."@)
    &&& !s.contains('/')
    &&& !s.contains('\\')
    &&& !s.contains('\0')
}

/// Gives back `value` where it holds no path traversal; refuses it otherwise.
pub fn sanitize_url_segment(value: &str) -> (r: Result<&str, TranslateError>)
    ensures
        match r {
            Ok(v) => v@ == value@ && name_is_safe(value@),
            Err(e) => !name_is_safe(value@) && e@ == Failure::PathTraversal,
        },
{
    if contains_str(value, "..") || contains_char(value, '/') || contains_char(value, '\\')
        || contains_char(value, '\0') {
        return Err(TranslateError::PathTraversal);
    }
    Ok(value)
}

/// The requests that `translate_marketplace` handles.
pub open spec fn is_marketplace_intent(intent: &Intent) -> bool {
    ||| intent is MarketplaceInstall
    ||| intent is MarketplaceUninstall
    ||| intent is MarketplaceSearch
    ||| intent is MarketplaceList
    ||| intent is MarketplaceUpdate
}

/// The outcome that `translate_marketplace` gives for each marketplace request.
pub open spec fn translate_marketplace_spec(intent: &Intent) -> Result<TranslationView, Failure> {
    match intent {
        Intent::MarketplaceInstall { package } => Ok(
            curl_post_json(
                "http://127.0.0.1:8090/v1/marketplace/install"@,
                one_entry_json("path"@, JsonScalar::Str(package@)),
                "Install marketplace package: "@ + package@,
                PermissionLevel::SystemWrite,
                "Installs a package from the marketplace"@,
            ),
        ),
        Intent::MarketplaceUninstall { package } => if name_is_safe(package@) {
            Ok(
                run_view(
                    "curl"@,
                    seq![
                        "-s"@,
                        "-X"@,
                        "DELETE"@,
                        "http://127.0.0.1:8090/v1/marketplace/"@ + package@,
                    ],
                    "Uninstall marketplace package: "@ + package@,
                    PermissionLevel::SystemWrite,
                    "Removes an installed marketplace package"@,
                ),
            )
        } else {
            Err(Failure::PathTraversal)
        },
        Intent::MarketplaceSearch { query } => Ok(
            curl_post_json(
                "http://127.0.0.1:8090/v1/marketplace/search"@,
                one_entry_json("q"@, JsonScalar::Str(query@)),
                "Search marketplace for: "@ + query@,
                PermissionLevel::Safe,
                "Searches installed marketplace packages"@,
            ),
        ),
        Intent::MarketplaceList => Ok(
            run_view(
                "curl"@,
                seq!["-s"@, "http://127.0.0.1:8090/v1/marketplace/installed"@],
                "List installed marketplace packages"@,
                PermissionLevel::Safe,
                "Shows all packages installed from the marketplace"@,
            ),
        ),
        Intent::MarketplaceUpdate => Ok(
            run_view(
                "curl"@,
                seq!["-s"@, "http://127.0.0.1:8090/v1/marketplace/installed"@],
                "Check for marketplace package updates"@,
                PermissionLevel::Safe,
                "Checks for available updates to installed packages"@,
            ),
        ),
        _ => Err(Failure::NotForThisTranslator { family: "marketplace"@ }),
    }
}

/// Translates a marketplace request into a request to the local daemon; refuses an
/// uninstall whose package name holds a path traversal.
pub fn translate_marketplace(intent: &Intent) -> (r: Result<Translation, TranslateError>)
    requires
        is_marketplace_intent(intent),
    ensures
        outcome(r) == translate_marketplace_spec(intent),
{
    match intent {
        Intent::MarketplaceInstall { package } => {
            let body = one_entry_text("path", JsonArg::Str(package.clone()));
            let d = cat("Install marketplace package: ", package.as_str());
            Ok(post_json("http://127.0.0.1:8090/v1/marketplace/install", body, d,
                PermissionLevel::SystemWrite, "Installs a package from the marketplace"))
        },
        Intent::MarketplaceUninstall { package } => {
            let safe = match sanitize_url_segment(package.as_str()) {
                Ok(s) => s,
                Err(e) => return Err(e),
            };
            let url = cat("http://127.0.0.1:8090/v1/marketplace/", safe);
            let args = list4(owned("-s"), owned("-X"), owned("DELETE"), url);
            let d = cat("Uninstall marketplace package: ", package.as_str());
            Ok(Translation::cmd("curl", args, d, PermissionLevel::SystemWrite,
                "Removes an installed marketplace package"))
        },
        Intent::MarketplaceSearch { query } => {
            let body = one_entry_text("q", JsonArg::Str(query.clone()));
            let d = cat("Search marketplace for: ", query.as_str());
            Ok(post_json("http://127.0.0.1:8090/v1/marketplace/search", body, d,
                PermissionLevel::Safe, "Searches installed marketplace packages"))
        },
        Intent::MarketplaceList => Ok(Translation::cmd("curl",
            list2(owned("-s"), owned("http://127.0.0.1:8090/v1/marketplace/installed")),
            owned("List installed marketplace packages"), PermissionLevel::Safe,
            "Shows all packages installed from the marketplace")),
        Intent::MarketplaceUpdate => Ok(Translation::cmd("curl",
            list2(owned("-s"), owned("http://127.0.0.1:8090/v1/marketplace/installed")),
            owned("Check for marketplace package updates"), PermissionLevel::Safe,
            "Checks for available updates to installed packages")),
        _ => Err(TranslateError::NotForThisTranslator { family: owned("marketplace") }),
    }
}

/// What each marketplace request sends to the local daemon with `curl`. An install
/// POSTs the requested package as the object's `path`, a search POSTs the query as its
/// `q`; an uninstall DELETEs the package's own URL, and is refused just where the name
/// holds a path traversal; listing and checking for updates read the installed list.
/// Search, list and update are safe; install and uninstall change the system.
pub proof fn law_marketplace_requests(intent: &Intent)
    requires
        is_marketplace_intent(intent),
    ensures
        translate_marketplace_spec(intent) is Err <==> (intent matches Intent::MarketplaceUninstall {
            package,
        } && !name_is_safe(package@)),
        translate_marketplace_spec(intent) matches Err(f) ==> f == Failure::PathTraversal,
        translate_marketplace_spec(intent) matches Ok(t) ==> t.command == "curl"@,
        translate_marketplace_spec(intent) matches Ok(t) ==> t.permission == (if intent is MarketplaceInstall
            || intent is MarketplaceUninstall {
            PermissionLevel::SystemWrite
        } else {
            PermissionLevel::Safe
        }),
        intent matches Intent::MarketplaceInstall { package } ==> (translate_marketplace_spec(intent) matches Ok(t)
            && t.args == seq!["-s"@, "-X"@, "POST"@, "http://127.0.0.1:8090/v1/marketplace/install"@, "-H"@, "Content-Type: application/json"@, "-d"@, json_text(Map::empty().insert("path"@, JsonScalar::Str(package@)))]),
        intent matches Intent::MarketplaceSearch { query } ==> (translate_marketplace_spec(intent) matches Ok(t)
            && t.args == seq!["-s"@, "-X"@, "POST"@, "http://127.0.0.1:8090/v1/marketplace/search"@, "-H"@, "Content-Type: application/json"@, "-d"@, json_text(Map::empty().insert("q"@, JsonScalar::Str(query@)))]),
        intent matches Intent::MarketplaceUninstall { package } ==> (name_is_safe(package@) ==> (
            translate_marketplace_spec(intent) matches Ok(t)
            && t.args == seq!["-s"@, "-X"@, "DELETE"@, "http://127.0.0.1:8090/v1/marketplace/"@ + package@])),
        (intent is MarketplaceList || intent is MarketplaceUpdate) ==> (translate_marketplace_spec(intent) matches Ok(t)
            && t.args == seq!["-s"@, "http://127.0.0.1:8090/v1/marketplace/installed"@]),
{
}

} // verus!
