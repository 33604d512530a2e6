//! The Synapse model server, over the MCP bridge.
use vstd::prelude::*;

use crate::intent::{outcome, tool_view, Failure, Intent, TranslateError, Translation, TranslationView};
use crate::json::{json_object_insert, json_object_new, no_entries, JsonArg, JsonScalar};
use crate::mcp::{insert_opt, insert_str, mcp_call, with_opt, with_str, wrap, wrap_text};
use crate::security::PermissionLevel;
use crate::text::{opt_view, or_else, or_text, owned, str_eq};

verus! {

/// The requests that `translate_synapse` handles.
pub open spec fn is_synapse_intent(intent: &Intent) -> bool {
    ||| intent is SynapseModels
    ||| intent is SynapseServe
    ||| intent is SynapseFinetune
    ||| intent is SynapseChat
    ||| intent is SynapseStatus
    ||| intent is SynapseBenchmark
    ||| intent is SynapseQuantize
}

/// The tool call that `translate_synapse` gives for each request it handles.
pub open spec fn translate_synapse_spec(intent: &Intent) -> Result<TranslationView, Failure> {
    match intent {
        Intent::SynapseModels { action, name, source, .. } => {
            let entries = with_str(no_entries(), "action"@, action@);
            let entries = with_opt(entries, "name"@, opt_view(*name));
            let entries = with_opt(entries, "source"@, opt_view(*source));
            Ok(
                tool_view(
                    "synapse_models"@,
                    entries,
                    "Synapse models: "@ + action@ + wrap(opt_view(*name), " '"@, "'"@),
                    if action@ == "list"@ || action@ == "info"@ { PermissionLevel::Safe } else { PermissionLevel::SystemWrite },
                    (if action@ == "download"@ { "Downloads"@ } else if action@ == "delete"@ { "Deletes"@ } else if action@ == "list"@ { "Lists"@ } else { "Queries"@ }) + " model(s) via Synapse MCP bridge"@,
                ),
            )
        },
        Intent::SynapseServe { action, model, .. } => {
            let entries = with_str(no_entries(), "action"@, action@);
            let entries = with_opt(entries, "model"@, opt_view(*model));
            Ok(
                tool_view(
                    "synapse_serve"@,
                    entries,
                    "Synapse serve: "@ + action@ + wrap(opt_view(*model), " '"@, "'"@),
                    if action@ == "status"@ || action@ == "list"@ { PermissionLevel::Safe } else { PermissionLevel::SystemWrite },
                    (if action@ == "start"@ { "Starts"@ } else if action@ == "stop"@ { "Stops"@ } else { "Queries"@ }) + " model serving via Synapse MCP bridge"@,
                ),
            )
        },
        Intent::SynapseFinetune { action, model, method, .. } => {
            let entries = with_str(no_entries(), "action"@, action@);
            let entries = with_opt(entries, "model"@, opt_view(*model));
            let entries = with_opt(entries, "method"@, opt_view(*method));
            Ok(
                tool_view(
                    "synapse_finetune"@,
                    entries,
                    "Synapse finetune: "@ + action@ + wrap(opt_view(*model), " '"@, "'"@),
                    if action@ == "status"@ || action@ == "list"@ { PermissionLevel::Safe } else { PermissionLevel::SystemWrite },
                    (if action@ == "start"@ { "Starts"@ } else if action@ == "cancel"@ { "Cancels"@ } else if action@ == "list"@ { "Lists"@ } else { "Queries"@ }) + " fine-tuning job via Synapse MCP bridge"@,
                ),
            )
        },
        Intent::SynapseChat { model, prompt, .. } => {
            let entries = with_str(no_entries(), "model"@, model@);
            let entries = with_opt(entries, "prompt"@, opt_view(*prompt));
            Ok(
                tool_view(
                    "synapse_chat"@,
                    entries,
                    "Synapse chat: "@ + model@,
                    PermissionLevel::SystemWrite,
                    "Runs inference via Synapse MCP bridge"@,
                ),
            )
        },
        Intent::SynapseStatus => {
            Ok(
                tool_view(
                    "synapse_status"@,
                    no_entries(),
                    "Synapse status"@,
                    PermissionLevel::Safe,
                    "Checks Synapse health and GPU status via MCP bridge"@,
                ),
            )
        },
        Intent::SynapseBenchmark { action, models, .. } => {
            let entries = with_str(no_entries(), "action"@, action@);
            let entries = with_opt(entries, "models"@, opt_view(*models));
            Ok(
                tool_view(
                    "synapse_benchmark"@,
                    entries,
                    "Synapse benchmark: "@ + action@ + wrap(opt_view(*models), " '"@, "'"@),
                    if action@ == "list"@ || action@ == "status"@ { PermissionLevel::Safe } else { PermissionLevel::SystemWrite },
                    "Benchmarks/compares models via Synapse"@,
                ),
            )
        },
        Intent::SynapseQuantize { action, model, format, .. } => {
            let entries = with_str(no_entries(), "action"@, action@);
            let entries = with_opt(entries, "model"@, opt_view(*model));
            let entries = with_opt(entries, "format"@, opt_view(*format));
            Ok(
                tool_view(
                    "synapse_quantize"@,
                    entries,
                    "Synapse quantize: "@ + action@ + wrap(opt_view(*model), " '"@, "'"@),
                    if action@ == "status"@ || action@ == "list"@ { PermissionLevel::Safe } else { PermissionLevel::SystemWrite },
                    "Quantizes/converts model via Synapse"@,
                ),
            )
        },
        _ => Err(Failure::NotForThisTranslator { family: "synapse"@ }),
    }
}

/// Translates a Synapse request into a Synapse tool call.
pub fn translate_synapse(intent: &Intent) -> (r: Result<Translation, TranslateError>)
    requires
        is_synapse_intent(intent),
    ensures
        outcome(r) == translate_synapse_spec(intent),
{
    match intent {
        Intent::SynapseModels { action, name, source, .. } => {
            let mut a = json_object_new();
            insert_str(&mut a, "action", action.as_str());
            insert_opt(&mut a, "name", name);
            insert_opt(&mut a, "source", source);
            let mut d = owned("Synapse models: ");
            d.append(action.as_str());
            d.append(wrap_text(name, " '", "'").as_str());
            let mut e = owned(if str_eq(action.as_str(), "download") { "Downloads" } else if str_eq(action.as_str(), "delete") { "Deletes" } else if str_eq(action.as_str(), "list") { "Lists" } else { "Queries" });
            e.append(" model(s) via Synapse MCP bridge");
            Ok(mcp_call("synapse_models", a, d, if str_eq(action.as_str(), "list") || str_eq(action.as_str(), "info") { PermissionLevel::Safe } else { PermissionLevel::SystemWrite }, e))
        },
        Intent::SynapseServe { action, model, .. } => {
            let mut a = json_object_new();
            insert_str(&mut a, "action", action.as_str());
            insert_opt(&mut a, "model", model);
            let mut d = owned("Synapse serve: ");
            d.append(action.as_str());
            d.append(wrap_text(model, " '", "'").as_str());
            let mut e = owned(if str_eq(action.as_str(), "start") { "Starts" } else if str_eq(action.as_str(), "stop") { "Stops" } else { "Queries" });
            e.append(" model serving via Synapse MCP bridge");
            Ok(mcp_call("synapse_serve", a, d, if str_eq(action.as_str(), "status") || str_eq(action.as_str(), "list") { PermissionLevel::Safe } else { PermissionLevel::SystemWrite }, e))
        },
        Intent::SynapseFinetune { action, model, method, .. } => {
            let mut a = json_object_new();
            insert_str(&mut a, "action", action.as_str());
            insert_opt(&mut a, "model", model);
            insert_opt(&mut a, "method", method);
            let mut d = owned("Synapse finetune: ");
            d.append(action.as_str());
            d.append(wrap_text(model, " '", "'").as_str());
            let mut e = owned(if str_eq(action.as_str(), "start") { "Starts" } else if str_eq(action.as_str(), "cancel") { "Cancels" } else if str_eq(action.as_str(), "list") { "Lists" } else { "Queries" });
            e.append(" fine-tuning job via Synapse MCP bridge");
            Ok(mcp_call("synapse_finetune", a, d, if str_eq(action.as_str(), "status") || str_eq(action.as_str(), "list") { PermissionLevel::Safe } else { PermissionLevel::SystemWrite }, e))
        },
        Intent::SynapseChat { model, prompt, .. } => {
            let mut a = json_object_new();
            insert_str(&mut a, "model", model.as_str());
            insert_opt(&mut a, "prompt", prompt);
            let mut d = owned("Synapse chat: ");
            d.append(model.as_str());
            let e = owned("Runs inference via Synapse MCP bridge");
            Ok(mcp_call("synapse_chat", a, d, PermissionLevel::SystemWrite, e))
        },
        Intent::SynapseStatus => {
            let a = json_object_new();
            let d = owned("Synapse status");
            let e = owned("Checks Synapse health and GPU status via MCP bridge");
            Ok(mcp_call("synapse_status", a, d, PermissionLevel::Safe, e))
        },
        Intent::SynapseBenchmark { action, models, .. } => {
            let mut a = json_object_new();
            insert_str(&mut a, "action", action.as_str());
            insert_opt(&mut a, "models", models);
            let mut d = owned("Synapse benchmark: ");
            d.append(action.as_str());
            d.append(wrap_text(models, " '", "'").as_str());
            let e = owned("Benchmarks/compares models via Synapse");
            Ok(mcp_call("synapse_benchmark", a, d, if str_eq(action.as_str(), "list") || str_eq(action.as_str(), "status") { PermissionLevel::Safe } else { PermissionLevel::SystemWrite }, e))
        },
        Intent::SynapseQuantize { action, model, format, .. } => {
            let mut a = json_object_new();
            insert_str(&mut a, "action", action.as_str());
            insert_opt(&mut a, "model", model);
            insert_opt(&mut a, "format", format);
            let mut d = owned("Synapse quantize: ");
            d.append(action.as_str());
            d.append(wrap_text(model, " '", "'").as_str());
            let e = owned("Quantizes/converts model via Synapse");
            Ok(mcp_call("synapse_quantize", a, d, if str_eq(action.as_str(), "status") || str_eq(action.as_str(), "list") { PermissionLevel::Safe } else { PermissionLevel::SystemWrite }, e))
        },
        _ => Err(TranslateError::NotForThisTranslator { family: owned("synapse") }),
    }
}

/// A Synapse request is answered by a tool call alone: the translation runs no shell
/// command and passes no argument to one.
pub proof fn law_synapse_calls_a_tool(intent: &Intent)
    requires
        is_synapse_intent(intent),
    ensures
        translate_synapse_spec(intent) matches Ok(t) && t.command.len() == 0 && t.args.len() == 0
            && t.mcp is Some,
{
}

/// What a Synapse tool call carries: each request calls its own tool, with every field
/// of the request under its key (an absent optional field under none), at the
/// privilege its action needs.
pub proof fn law_synapse_arguments_carry_the_request(intent: &Intent)
    ensures
        intent matches Intent::SynapseModels { action, name, source, .. } ==> (translate_synapse_spec(intent) matches Ok(t)
            && t.mcp matches Some(c)
            && c.tool_name == "synapse_models"@
            && (if action@ == "list"@ || action@ == "info"@ { t.permission == PermissionLevel::Safe } else { t.permission == PermissionLevel::SystemWrite })
            && c.arguments.contains_key("action"@) && c.arguments["action"@] == JsonScalar::Str(action@)
            && (match opt_view(*name) { Some(x) => c.arguments.contains_key("name"@) && c.arguments["name"@] == JsonScalar::Str(x), None => !c.arguments.contains_key("name"@) })
            && (match opt_view(*source) { Some(x) => c.arguments.contains_key("source"@) && c.arguments["source"@] == JsonScalar::Str(x), None => !c.arguments.contains_key("source"@) })),
        intent matches Intent::SynapseServe { action, model, .. } ==> (translate_synapse_spec(intent) matches Ok(t)
            && t.mcp matches Some(c)
            && c.tool_name == "synapse_serve"@
            && (if action@ == "status"@ || action@ == "list"@ { t.permission == PermissionLevel::Safe } else { t.permission == PermissionLevel::SystemWrite })
            && c.arguments.contains_key("action"@) && c.arguments["action"@] == JsonScalar::Str(action@)
            && (match opt_view(*model) { Some(x) => c.arguments.contains_key("model"@) && c.arguments["model"@] == JsonScalar::Str(x), None => !c.arguments.contains_key("model"@) })),
        intent matches Intent::SynapseFinetune { action, model, method, .. } ==> (translate_synapse_spec(intent) matches Ok(t)
            && t.mcp matches Some(c)
            && c.tool_name == "synapse_finetune"@
            && (if action@ == "status"@ || action@ == "list"@ { t.permission == PermissionLevel::Safe } else { t.permission == PermissionLevel::SystemWrite })
            && c.arguments.contains_key("action"@) && c.arguments["action"@] == JsonScalar::Str(action@)
            && (match opt_view(*model) { Some(x) => c.arguments.contains_key("model"@) && c.arguments["model"@] == JsonScalar::Str(x), None => !c.arguments.contains_key("model"@) })
            && (match opt_view(*method) { Some(x) => c.arguments.contains_key("method"@) && c.arguments["method"@] == JsonScalar::Str(x), None => !c.arguments.contains_key("method"@) })),
        intent matches Intent::SynapseChat { model, prompt, .. } ==> (translate_synapse_spec(intent) matches Ok(t)
            && t.mcp matches Some(c)
            && c.tool_name == "synapse_chat"@
            && t.permission == PermissionLevel::SystemWrite
            && c.arguments.contains_key("model"@) && c.arguments["model"@] == JsonScalar::Str(model@)
            && (match opt_view(*prompt) { Some(x) => c.arguments.contains_key("prompt"@) && c.arguments["prompt"@] == JsonScalar::Str(x), None => !c.arguments.contains_key("prompt"@) })),
        intent is SynapseStatus ==> (translate_synapse_spec(intent) matches Ok(t)
            && t.mcp matches Some(c)
            && c.tool_name == "synapse_status"@
            && t.permission == PermissionLevel::Safe),
        intent matches Intent::SynapseBenchmark { action, models, .. } ==> (translate_synapse_spec(intent) matches Ok(t)
            && t.mcp matches Some(c)
            && c.tool_name == "synapse_benchmark"@
            && (if action@ == "list"@ || action@ == "status"@ { t.permission == PermissionLevel::Safe } else { t.permission == PermissionLevel::SystemWrite })
            && c.arguments.contains_key("action"@) && c.arguments["action"@] == JsonScalar::Str(action@)
            && (match opt_view(*models) { Some(x) => c.arguments.contains_key("models"@) && c.arguments["models"@] == JsonScalar::Str(x), None => !c.arguments.contains_key("models"@) })),
        intent matches Intent::SynapseQuantize { action, model, format, .. } ==> (translate_synapse_spec(intent) matches Ok(t)
            && t.mcp matches Some(c)
            && c.tool_name == "synapse_quantize"@
            && (if action@ == "status"@ || action@ == "list"@ { t.permission == PermissionLevel::Safe } else { t.permission == PermissionLevel::SystemWrite })
            && c.arguments.contains_key("action"@) && c.arguments["action"@] == JsonScalar::Str(action@)
            && (match opt_view(*model) { Some(x) => c.arguments.contains_key("model"@) && c.arguments["model"@] == JsonScalar::Str(x), None => !c.arguments.contains_key("model"@) })
            && (match opt_view(*format) { Some(x) => c.arguments.contains_key("format"@) && c.arguments["format"@] == JsonScalar::Str(x), None => !c.arguments.contains_key("format"@) })),
{
    reveal_strlit("action");
    reveal_strlit("format");
    reveal_strlit("method");
    reveal_strlit("model");
    reveal_strlit("models");
    reveal_strlit("name");
    reveal_strlit("prompt");
    reveal_strlit("source");
    assert("action"@[0] != "format"@[0]);
    assert("action"@[0] != "method"@[0]);
    assert("action"@.len() != "model"@.len());
    assert("action"@[0] != "models"@[0]);
    assert("action"@.len() != "name"@.len());
    assert("action"@[0] != "source"@[0]);
    assert("format"@.len() != "model"@.len());
    assert("method"@.len() != "model"@.len());
    assert("model"@.len() != "prompt"@.len());
    assert("name"@.len() != "source"@.len());
}

} // verus!
