//! The Delta code host, over the MCP bridge.
use vstd::prelude::*;

use crate::intent::{outcome, tool_view, Failure, Intent, TranslateError, Translation, TranslationView};
use crate::json::{json_object_insert, json_object_new, no_entries, JsonArg, JsonScalar};
use crate::mcp::{insert_opt, insert_str, mcp_call, with_opt, with_str, wrap, wrap_text};
use crate::security::PermissionLevel;
use crate::text::{opt_view, or_else, or_text, owned, str_eq};

verus! {

/// The requests that `translate_delta` handles.
pub open spec fn is_delta_intent(intent: &Intent) -> bool {
    ||| intent is DeltaCreateRepo
    ||| intent is DeltaListRepos
    ||| intent is DeltaPr
    ||| intent is DeltaPush
    ||| intent is DeltaCiStatus
    ||| intent is DeltaBranches
    ||| intent is DeltaReview
}

/// The tool call that `translate_delta` gives for each request it handles.
pub open spec fn translate_delta_spec(intent: &Intent) -> Result<TranslationView, Failure> {
    match intent {
        Intent::DeltaCreateRepo { name, description, .. } => {
            let entries = with_str(no_entries(), "name"@, name@);
            let entries = with_opt(entries, "description"@, opt_view(*description));
            Ok(
                tool_view(
                    "delta_create_repository"@,
                    entries,
                    "Create Delta repository: "@ + name@,
                    PermissionLevel::SystemWrite,
                    "Creates a git repository in Delta via MCP bridge"@,
                ),
            )
        },
        Intent::DeltaListRepos => {
            Ok(
                tool_view(
                    "delta_list_repositories"@,
                    no_entries(),
                    "List Delta repositories"@,
                    PermissionLevel::Safe,
                    "Lists git repositories from Delta via MCP bridge"@,
                ),
            )
        },
        Intent::DeltaPr { action, repo, title, .. } => {
            let entries = with_str(no_entries(), "action"@, action@);
            let entries = with_opt(entries, "repo"@, opt_view(*repo));
            let entries = with_opt(entries, "title"@, opt_view(*title));
            Ok(
                tool_view(
                    "delta_pull_request"@,
                    entries,
                    "Delta PR: "@ + action@,
                    if action@ == "list"@ { PermissionLevel::Safe } else { PermissionLevel::SystemWrite },
                    (if action@ == "create"@ { "Creates a"@ } else if action@ == "merge"@ { "Merges a"@ } else if action@ == "close"@ { "Closes a"@ } else { "Lists"@ }) + " pull request in Delta via MCP bridge"@,
                ),
            )
        },
        Intent::DeltaPush { repo, branch, .. } => {
            let entries = with_opt(no_entries(), "repo"@, opt_view(*repo));
            let entries = with_opt(entries, "branch"@, opt_view(*branch));
            Ok(
                tool_view(
                    "delta_push"@,
                    entries,
                    "Push to Delta"@ + wrap(opt_view(*repo), ": "@, ""@),
                    PermissionLevel::SystemWrite,
                    "Pushes code to a Delta repository via MCP bridge"@,
                ),
            )
        },
        Intent::DeltaCiStatus { repo, .. } => {
            let entries = with_opt(no_entries(), "repo"@, opt_view(*repo));
            Ok(
                tool_view(
                    "delta_ci_status"@,
                    entries,
                    "Delta CI status"@ + wrap(opt_view(*repo), " for "@, ""@),
                    PermissionLevel::Safe,
                    "Retrieves CI pipeline status from Delta via MCP bridge"@,
                ),
            )
        },
        Intent::DeltaBranches { action, repo, name, .. } => {
            let entries = with_str(no_entries(), "action"@, action@);
            let entries = with_opt(entries, "repo"@, opt_view(*repo));
            let entries = with_opt(entries, "name"@, opt_view(*name));
            Ok(
                tool_view(
                    "delta_branches"@,
                    entries,
                    "Delta branches: "@ + action@ + wrap(opt_view(*name), " '"@, "'"@),
                    if action@ == "list"@ || action@ == "info"@ { PermissionLevel::Safe } else { PermissionLevel::SystemWrite },
                    "Manages branches via Delta"@,
                ),
            )
        },
        Intent::DeltaReview { action, pr_id, .. } => {
            let entries = with_str(no_entries(), "action"@, action@);
            let entries = with_opt(entries, "pr_id"@, opt_view(*pr_id));
            Ok(
                tool_view(
                    "delta_review"@,
                    entries,
                    "Delta review: "@ + action@ + wrap(opt_view(*pr_id), " PR #"@, ""@),
                    if action@ == "list"@ { PermissionLevel::Safe } else { PermissionLevel::SystemWrite },
                    "Manages code reviews via Delta"@,
                ),
            )
        },
        _ => Err(Failure::NotForThisTranslator { family: "delta"@ }),
    }
}

/// Translates a Delta request into a Delta tool call.
pub fn translate_delta(intent: &Intent) -> (r: Result<Translation, TranslateError>)
    requires
        is_delta_intent(intent),
    ensures
        outcome(r) == translate_delta_spec(intent),
{
    match intent {
        Intent::DeltaCreateRepo { name, description, .. } => {
            let mut a = json_object_new();
            insert_str(&mut a, "name", name.as_str());
            insert_opt(&mut a, "description", description);
            let mut d = owned("Create Delta repository: ");
            d.append(name.as_str());
            let e = owned("Creates a git repository in Delta via MCP bridge");
            Ok(mcp_call("delta_create_repository", a, d, PermissionLevel::SystemWrite, e))
        },
        Intent::DeltaListRepos => {
            let a = json_object_new();
            let d = owned("List Delta repositories");
            let e = owned("Lists git repositories from Delta via MCP bridge");
            Ok(mcp_call("delta_list_repositories", a, d, PermissionLevel::Safe, e))
        },
        Intent::DeltaPr { action, repo, title, .. } => {
            let mut a = json_object_new();
            insert_str(&mut a, "action", action.as_str());
            insert_opt(&mut a, "repo", repo);
            insert_opt(&mut a, "title", title);
            let mut d = owned("Delta PR: ");
            d.append(action.as_str());
            let mut e = owned(if str_eq(action.as_str(), "create") { "Creates a" } else if str_eq(action.as_str(), "merge") { "Merges a" } else if str_eq(action.as_str(), "close") { "Closes a" } else { "Lists" });
            e.append(" pull request in Delta via MCP bridge");
            Ok(mcp_call("delta_pull_request", a, d, if str_eq(action.as_str(), "list") { PermissionLevel::Safe } else { PermissionLevel::SystemWrite }, e))
        },
        Intent::DeltaPush { repo, branch, .. } => {
            let mut a = json_object_new();
            insert_opt(&mut a, "repo", repo);
            insert_opt(&mut a, "branch", branch);
            let mut d = owned("Push to Delta");
            d.append(wrap_text(repo, ": ", "").as_str());
            let e = owned("Pushes code to a Delta repository via MCP bridge");
            Ok(mcp_call("delta_push", a, d, PermissionLevel::SystemWrite, e))
        },
        Intent::DeltaCiStatus { repo, .. } => {
            let mut a = json_object_new();
            insert_opt(&mut a, "repo", repo);
            let mut d = owned("Delta CI status");
            d.append(wrap_text(repo, " for ", "").as_str());
            let e = owned("Retrieves CI pipeline status from Delta via MCP bridge");
            Ok(mcp_call("delta_ci_status", a, d, PermissionLevel::Safe, e))
        },
        Intent::DeltaBranches { action, repo, name, .. } => {
            let mut a = json_object_new();
            insert_str(&mut a, "action", action.as_str());
            insert_opt(&mut a, "repo", repo);
            insert_opt(&mut a, "name", name);
            let mut d = owned("Delta branches: ");
            d.append(action.as_str());
            d.append(wrap_text(name, " '", "'").as_str());
            let e = owned("Manages branches via Delta");
            Ok(mcp_call("delta_branches", a, d, if str_eq(action.as_str(), "list") || str_eq(action.as_str(), "info") { PermissionLevel::Safe } else { PermissionLevel::SystemWrite }, e))
        },
        Intent::DeltaReview { action, pr_id, .. } => {
            let mut a = json_object_new();
            insert_str(&mut a, "action", action.as_str());
            insert_opt(&mut a, "pr_id", pr_id);
            let mut d = owned("Delta review: ");
            d.append(action.as_str());
            d.append(wrap_text(pr_id, " PR #", "").as_str());
            let e = owned("Manages code reviews via Delta");
            Ok(mcp_call("delta_review", a, d, if str_eq(action.as_str(), "list") { PermissionLevel::Safe } else { PermissionLevel::SystemWrite }, e))
        },
        _ => Err(TranslateError::NotForThisTranslator { family: owned("delta") }),
    }
}

/// A Delta request is answered by a tool call alone: the translation runs no shell
/// command and passes no argument to one.
pub proof fn law_delta_calls_a_tool(intent: &Intent)
    requires
        is_delta_intent(intent),
    ensures
        translate_delta_spec(intent) matches Ok(t) && t.command.len() == 0 && t.args.len() == 0
            && t.mcp is Some,
{
}

/// What a Delta tool call carries: each request calls its own tool, with every field
/// of the request under its key (an absent optional field under none), at the
/// privilege its action needs.
pub proof fn law_delta_arguments_carry_the_request(intent: &Intent)
    ensures
        intent matches Intent::DeltaCreateRepo { name, description, .. } ==> (translate_delta_spec(intent) matches Ok(t)
            && t.mcp matches Some(c)
            && c.tool_name == "delta_create_repository"@
            && t.permission == PermissionLevel::SystemWrite
            && c.arguments.contains_key("name"@) && c.arguments["name"@] == JsonScalar::Str(name@)
            && (match opt_view(*description) { Some(x) => c.arguments.contains_key("description"@) && c.arguments["description"@] == JsonScalar::Str(x), None => !c.arguments.contains_key("description"@) })),
        intent is DeltaListRepos ==> (translate_delta_spec(intent) matches Ok(t)
            && t.mcp matches Some(c)
            && c.tool_name == "delta_list_repositories"@
            && t.permission == PermissionLevel::Safe),
        intent matches Intent::DeltaPr { action, repo, title, .. } ==> (translate_delta_spec(intent) matches Ok(t)
            && t.mcp matches Some(c)
            && c.tool_name == "delta_pull_request"@
            && (if action@ == "list"@ { t.permission == PermissionLevel::Safe } else { t.permission == PermissionLevel::SystemWrite })
            && c.arguments.contains_key("action"@) && c.arguments["action"@] == JsonScalar::Str(action@)
            && (match opt_view(*repo) { Some(x) => c.arguments.contains_key("repo"@) && c.arguments["repo"@] == JsonScalar::Str(x), None => !c.arguments.contains_key("repo"@) })
            && (match opt_view(*title) { Some(x) => c.arguments.contains_key("title"@) && c.arguments["title"@] == JsonScalar::Str(x), None => !c.arguments.contains_key("title"@) })),
        intent matches Intent::DeltaPush { repo, branch, .. } ==> (translate_delta_spec(intent) matches Ok(t)
            && t.mcp matches Some(c)
            && c.tool_name == "delta_push"@
            && t.permission == PermissionLevel::SystemWrite
            && (match opt_view(*repo) { Some(x) => c.arguments.contains_key("repo"@) && c.arguments["repo"@] == JsonScalar::Str(x), None => !c.arguments.contains_key("repo"@) })
            && (match opt_view(*branch) { Some(x) => c.arguments.contains_key("branch"@) && c.arguments["branch"@] == JsonScalar::Str(x), None => !c.arguments.contains_key("branch"@) })),
        intent matches Intent::DeltaCiStatus { repo, .. } ==> (translate_delta_spec(intent) matches Ok(t)
            && t.mcp matches Some(c)
            && c.tool_name == "delta_ci_status"@
            && t.permission == PermissionLevel::Safe
            && (match opt_view(*repo) { Some(x) => c.arguments.contains_key("repo"@) && c.arguments["repo"@] == JsonScalar::Str(x), None => !c.arguments.contains_key("repo"@) })),
        intent matches Intent::DeltaBranches { action, repo, name, .. } ==> (translate_delta_spec(intent) matches Ok(t)
            && t.mcp matches Some(c)
            && c.tool_name == "delta_branches"@
            && (if action@ == "list"@ || action@ == "info"@ { t.permission == PermissionLevel::Safe } else { t.permission == PermissionLevel::SystemWrite })
            && c.arguments.contains_key("action"@) && c.arguments["action"@] == JsonScalar::Str(action@)
            && (match opt_view(*repo) { Some(x) => c.arguments.contains_key("repo"@) && c.arguments["repo"@] == JsonScalar::Str(x), None => !c.arguments.contains_key("repo"@) })
            && (match opt_view(*name) { Some(x) => c.arguments.contains_key("name"@) && c.arguments["name"@] == JsonScalar::Str(x), None => !c.arguments.contains_key("name"@) })),
        intent matches Intent::DeltaReview { action, pr_id, .. } ==> (translate_delta_spec(intent) matches Ok(t)
            && t.mcp matches Some(c)
            && c.tool_name == "delta_review"@
            && (if action@ == "list"@ { t.permission == PermissionLevel::Safe } else { t.permission == PermissionLevel::SystemWrite })
            && c.arguments.contains_key("action"@) && c.arguments["action"@] == JsonScalar::Str(action@)
            && (match opt_view(*pr_id) { Some(x) => c.arguments.contains_key("pr_id"@) && c.arguments["pr_id"@] == JsonScalar::Str(x), None => !c.arguments.contains_key("pr_id"@) })),
{
    reveal_strlit("action");
    reveal_strlit("branch");
    reveal_strlit("description");
    reveal_strlit("name");
    reveal_strlit("pr_id");
    reveal_strlit("repo");
    reveal_strlit("title");
    assert("action"@.len() != "name"@.len());
    assert("action"@.len() != "pr_id"@.len());
    assert("action"@.len() != "repo"@.len());
    assert("action"@.len() != "title"@.len());
    assert("branch"@.len() != "repo"@.len());
    assert("description"@.len() != "name"@.len());
    assert("name"@[0] != "repo"@[0]);
    assert("repo"@.len() != "title"@.len());
}

} // verus!
