//! The BullShift trading platform, over the MCP bridge.
use vstd::prelude::*;

use crate::intent::{outcome, tool_view, Failure, Intent, TranslateError, Translation, TranslationView};
use crate::json::{json_object_insert, json_object_new, no_entries, JsonArg, JsonScalar};
use crate::mcp::{insert_opt, insert_str, mcp_call, with_opt, with_str, wrap, wrap_text};
use crate::security::PermissionLevel;
use crate::text::{opt_view, or_else, or_text, owned, str_eq};

verus! {

/// The requests that `translate_bullshift` handles.
pub open spec fn is_bullshift_intent(intent: &Intent) -> bool {
    ||| intent is BullShiftPortfolio
    ||| intent is BullShiftOrders
    ||| intent is BullShiftMarket
    ||| intent is BullShiftAlerts
    ||| intent is BullShiftStrategy
    ||| intent is BullShiftAccounts
    ||| intent is BullShiftHistory
}

/// The tool call that `translate_bullshift` gives for each request it handles.
pub open spec fn translate_bullshift_spec(intent: &Intent) -> Result<TranslationView, Failure> {
    match intent {
        Intent::BullShiftPortfolio { action, period, .. } => {
            let entries = with_str(no_entries(), "action"@, action@);
            let entries = with_opt(entries, "period"@, opt_view(*period));
            Ok(
                tool_view(
                    "bullshift_portfolio"@,
                    entries,
                    "BullShift portfolio: "@ + action@,
                    PermissionLevel::Safe,
                    "Views portfolio "@ + action@ + " via BullShift MCP bridge"@,
                ),
            )
        },
        Intent::BullShiftOrders { action, symbol, side, .. } => {
            let entries = with_str(no_entries(), "action"@, action@);
            let entries = with_opt(entries, "symbol"@, opt_view(*symbol));
            let entries = with_opt(entries, "side"@, opt_view(*side));
            Ok(
                tool_view(
                    "bullshift_orders"@,
                    entries,
                    "BullShift order: "@ + action@,
                    if action@ == "list"@ || action@ == "status"@ { PermissionLevel::Safe } else { PermissionLevel::SystemWrite },
                    (if action@ == "place"@ { "Places"@ } else if action@ == "cancel"@ { "Cancels"@ } else if action@ == "list"@ { "Lists"@ } else if action@ == "status"@ { "Checks"@ } else { "Manages"@ }) + " orders via BullShift MCP bridge"@,
                ),
            )
        },
        Intent::BullShiftMarket { action, symbol, .. } => {
            let entries = with_str(no_entries(), "action"@, action@);
            let entries = with_opt(entries, "symbol"@, opt_view(*symbol));
            Ok(
                tool_view(
                    "bullshift_market"@,
                    entries,
                    "BullShift market: "@ + action@ + wrap(opt_view(*symbol), " for "@, ""@),
                    PermissionLevel::Safe,
                    "Queries market data via BullShift MCP bridge"@,
                ),
            )
        },
        Intent::BullShiftAlerts { action, symbol, .. } => {
            let entries = with_str(no_entries(), "action"@, action@);
            let entries = with_opt(entries, "symbol"@, opt_view(*symbol));
            Ok(
                tool_view(
                    "bullshift_alerts"@,
                    entries,
                    "BullShift alert: "@ + action@,
                    if action@ == "list"@ || action@ == "triggered"@ { PermissionLevel::Safe } else { PermissionLevel::SystemWrite },
                    (if action@ == "set"@ { "Sets"@ } else if action@ == "remove"@ { "Removes"@ } else if action@ == "list"@ { "Lists"@ } else if action@ == "triggered"@ { "Lists triggered"@ } else { "Manages"@ }) + " price alerts via BullShift MCP bridge"@,
                ),
            )
        },
        Intent::BullShiftStrategy { action, name, .. } => {
            let entries = with_str(no_entries(), "action"@, action@);
            let entries = with_opt(entries, "name"@, opt_view(*name));
            Ok(
                tool_view(
                    "bullshift_strategy"@,
                    entries,
                    "BullShift strategy: "@ + action@,
                    if action@ == "list"@ || action@ == "status"@ { PermissionLevel::Safe } else { PermissionLevel::SystemWrite },
                    (if action@ == "list"@ { "Lists"@ } else if action@ == "start"@ { "Starts"@ } else if action@ == "stop"@ { "Stops"@ } else if action@ == "backtest"@ { "Backtests"@ } else if action@ == "status"@ { "Checks status of"@ } else { "Manages"@ }) + " trading strategy via BullShift MCP bridge"@,
                ),
            )
        },
        Intent::BullShiftAccounts { action, broker, .. } => {
            let entries = with_str(no_entries(), "action"@, action@);
            let entries = with_opt(entries, "broker"@, opt_view(*broker));
            Ok(
                tool_view(
                    "bullshift_accounts"@,
                    entries,
                    "BullShift accounts: "@ + action@ + wrap(opt_view(*broker), " '"@, "'"@),
                    PermissionLevel::Safe,
                    "Views broker accounts via BullShift"@,
                ),
            )
        },
        Intent::BullShiftHistory { action, period, .. } => {
            let entries = with_str(no_entries(), "action"@, action@);
            let entries = with_opt(entries, "period"@, opt_view(*period));
            Ok(
                tool_view(
                    "bullshift_history"@,
                    entries,
                    "BullShift history: "@ + action@ + wrap(opt_view(*period), " ("@, ")"@),
                    PermissionLevel::Safe,
                    "Views trade history via BullShift"@,
                ),
            )
        },
        _ => Err(Failure::NotForThisTranslator { family: "bullshift"@ }),
    }
}

/// Translates a BullShift request into a BullShift tool call.
pub fn translate_bullshift(intent: &Intent) -> (r: Result<Translation, TranslateError>)
    requires
        is_bullshift_intent(intent),
    ensures
        outcome(r) == translate_bullshift_spec(intent),
{
    match intent {
        Intent::BullShiftPortfolio { action, period, .. } => {
            let mut a = json_object_new();
            insert_str(&mut a, "action", action.as_str());
            insert_opt(&mut a, "period", period);
            let mut d = owned("BullShift portfolio: ");
            d.append(action.as_str());
            let mut e = owned("Views portfolio ");
            e.append(action.as_str());
            e.append(" via BullShift MCP bridge");
            Ok(mcp_call("bullshift_portfolio", a, d, PermissionLevel::Safe, e))
        },
        Intent::BullShiftOrders { action, symbol, side, .. } => {
            let mut a = json_object_new();
            insert_str(&mut a, "action", action.as_str());
            insert_opt(&mut a, "symbol", symbol);
            insert_opt(&mut a, "side", side);
            let mut d = owned("BullShift order: ");
            d.append(action.as_str());
            let mut e = owned(if str_eq(action.as_str(), "place") { "Places" } else if str_eq(action.as_str(), "cancel") { "Cancels" } else if str_eq(action.as_str(), "list") { "Lists" } else if str_eq(action.as_str(), "status") { "Checks" } else { "Manages" });
            e.append(" orders via BullShift MCP bridge");
            Ok(mcp_call("bullshift_orders", a, d, if str_eq(action.as_str(), "list") || str_eq(action.as_str(), "status") { PermissionLevel::Safe } else { PermissionLevel::SystemWrite }, e))
        },
        Intent::BullShiftMarket { action, symbol, .. } => {
            let mut a = json_object_new();
            insert_str(&mut a, "action", action.as_str());
            insert_opt(&mut a, "symbol", symbol);
            let mut d = owned("BullShift market: ");
            d.append(action.as_str());
            d.append(wrap_text(symbol, " for ", "").as_str());
            let e = owned("Queries market data via BullShift MCP bridge");
            Ok(mcp_call("bullshift_market", a, d, PermissionLevel::Safe, e))
        },
        Intent::BullShiftAlerts { action, symbol, .. } => {
            let mut a = json_object_new();
            insert_str(&mut a, "action", action.as_str());
            insert_opt(&mut a, "symbol", symbol);
            let mut d = owned("BullShift alert: ");
            d.append(action.as_str());
            let mut e = owned(if str_eq(action.as_str(), "set") { "Sets" } else if str_eq(action.as_str(), "remove") { "Removes" } else if str_eq(action.as_str(), "list") { "Lists" } else if str_eq(action.as_str(), "triggered") { "Lists triggered" } else { "Manages" });
            e.append(" price alerts via BullShift MCP bridge");
            Ok(mcp_call("bullshift_alerts", a, d, if str_eq(action.as_str(), "list") || str_eq(action.as_str(), "triggered") { PermissionLevel::Safe } else { PermissionLevel::SystemWrite }, e))
        },
        Intent::BullShiftStrategy { action, name, .. } => {
            let mut a = json_object_new();
            insert_str(&mut a, "action", action.as_str());
            insert_opt(&mut a, "name", name);
            let mut d = owned("BullShift strategy: ");
            d.append(action.as_str());
            let mut e = owned(if str_eq(action.as_str(), "list") { "Lists" } else if str_eq(action.as_str(), "start") { "Starts" } else if str_eq(action.as_str(), "stop") { "Stops" } else if str_eq(action.as_str(), "backtest") { "Backtests" } else if str_eq(action.as_str(), "status") { "Checks status of" } else { "Manages" });
            e.append(" trading strategy via BullShift MCP bridge");
            Ok(mcp_call("bullshift_strategy", a, d, if str_eq(action.as_str(), "list") || str_eq(action.as_str(), "status") { PermissionLevel::Safe } else { PermissionLevel::SystemWrite }, e))
        },
        Intent::BullShiftAccounts { action, broker, .. } => {
            let mut a = json_object_new();
            insert_str(&mut a, "action", action.as_str());
            insert_opt(&mut a, "broker", broker);
            let mut d = owned("BullShift accounts: ");
            d.append(action.as_str());
            d.append(wrap_text(broker, " '", "'").as_str());
            let e = owned("Views broker accounts via BullShift");
            Ok(mcp_call("bullshift_accounts", a, d, PermissionLevel::Safe, e))
        },
        Intent::BullShiftHistory { action, period, .. } => {
            let mut a = json_object_new();
            insert_str(&mut a, "action", action.as_str());
            insert_opt(&mut a, "period", period);
            let mut d = owned("BullShift history: ");
            d.append(action.as_str());
            d.append(wrap_text(period, " (", ")").as_str());
            let e = owned("Views trade history via BullShift");
            Ok(mcp_call("bullshift_history", a, d, PermissionLevel::Safe, e))
        },
        _ => Err(TranslateError::NotForThisTranslator { family: owned("bullshift") }),
    }
}

/// A BullShift request is answered by a tool call alone: the translation runs no shell
/// command and passes no argument to one.
pub proof fn law_bullshift_calls_a_tool(intent: &Intent)
    requires
        is_bullshift_intent(intent),
    ensures
        translate_bullshift_spec(intent) matches Ok(t) && t.command.len() == 0 && t.args.len() == 0
            && t.mcp is Some,
{
}

/// What a BullShift tool call carries: each request calls its own tool, with every field
/// of the request under its key (an absent optional field under none), at the
/// privilege its action needs.
pub proof fn law_bullshift_arguments_carry_the_request(intent: &Intent)
    ensures
        intent matches Intent::BullShiftPortfolio { action, period, .. } ==> (translate_bullshift_spec(intent) matches Ok(t)
            && t.mcp matches Some(c)
            && c.tool_name == "bullshift_portfolio"@
            && t.permission == PermissionLevel::Safe
            && c.arguments.contains_key("action"@) && c.arguments["action"@] == JsonScalar::Str(action@)
            && (match opt_view(*period) { Some(x) => c.arguments.contains_key("period"@) && c.arguments["period"@] == JsonScalar::Str(x), None => !c.arguments.contains_key("period"@) })),
        intent matches Intent::BullShiftOrders { action, symbol, side, .. } ==> (translate_bullshift_spec(intent) matches Ok(t)
            && t.mcp matches Some(c)
            && c.tool_name == "bullshift_orders"@
            && (if action@ == "list"@ || action@ == "status"@ { t.permission == PermissionLevel::Safe } else { t.permission == PermissionLevel::SystemWrite })
            && c.arguments.contains_key("action"@) && c.arguments["action"@] == JsonScalar::Str(action@)
            && (match opt_view(*symbol) { Some(x) => c.arguments.contains_key("symbol"@) && c.arguments["symbol"@] == JsonScalar::Str(x), None => !c.arguments.contains_key("symbol"@) })
            && (match opt_view(*side) { Some(x) => c.arguments.contains_key("side"@) && c.arguments["side"@] == JsonScalar::Str(x), None => !c.arguments.contains_key("side"@) })),
        intent matches Intent::BullShiftMarket { action, symbol, .. } ==> (translate_bullshift_spec(intent) matches Ok(t)
            && t.mcp matches Some(c)
            && c.tool_name == "bullshift_market"@
            && t.permission == PermissionLevel::Safe
            && c.arguments.contains_key("action"@) && c.arguments["action"@] == JsonScalar::Str(action@)
            && (match opt_view(*symbol) { Some(x) => c.arguments.contains_key("symbol"@) && c.arguments["symbol"@] == JsonScalar::Str(x), None => !c.arguments.contains_key("symbol"@) })),
        intent matches Intent::BullShiftAlerts { action, symbol, .. } ==> (translate_bullshift_spec(intent) matches Ok(t)
            && t.mcp matches Some(c)
            && c.tool_name == "bullshift_alerts"@
            && (if action@ == "list"@ || action@ == "triggered"@ { t.permission == PermissionLevel::Safe } else { t.permission == PermissionLevel::SystemWrite })
            && c.arguments.contains_key("action"@) && c.arguments["action"@] == JsonScalar::Str(action@)
            && (match opt_view(*symbol) { Some(x) => c.arguments.contains_key("symbol"@) && c.arguments["symbol"@] == JsonScalar::Str(x), None => !c.arguments.contains_key("symbol"@) })),
        intent matches Intent::BullShiftStrategy { action, name, .. } ==> (translate_bullshift_spec(intent) matches Ok(t)
            && t.mcp matches Some(c)
            && c.tool_name == "bullshift_strategy"@
            && (if action@ == "list"@ || action@ == "status"@ { t.permission == PermissionLevel::Safe } else { t.permission == PermissionLevel::SystemWrite })
            && c.arguments.contains_key("action"@) && c.arguments["action"@] == JsonScalar::Str(action@)
            && (match opt_view(*name) { Some(x) => c.arguments.contains_key("name"@) && c.arguments["name"@] == JsonScalar::Str(x), None => !c.arguments.contains_key("name"@) })),
        intent matches Intent::BullShiftAccounts { action, broker, .. } ==> (translate_bullshift_spec(intent) matches Ok(t)
            && t.mcp matches Some(c)
            && c.tool_name == "bullshift_accounts"@
            && t.permission == PermissionLevel::Safe
            && c.arguments.contains_key("action"@) && c.arguments["action"@] == JsonScalar::Str(action@)
            && (match opt_view(*broker) { Some(x) => c.arguments.contains_key("broker"@) && c.arguments["broker"@] == JsonScalar::Str(x), None => !c.arguments.contains_key("broker"@) })),
        intent matches Intent::BullShiftHistory { action, period, .. } ==> (translate_bullshift_spec(intent) matches Ok(t)
            && t.mcp matches Some(c)
            && c.tool_name == "bullshift_history"@
            && t.permission == PermissionLevel::Safe
            && c.arguments.contains_key("action"@) && c.arguments["action"@] == JsonScalar::Str(action@)
            && (match opt_view(*period) { Some(x) => c.arguments.contains_key("period"@) && c.arguments["period"@] == JsonScalar::Str(x), None => !c.arguments.contains_key("period"@) })),
{
    reveal_strlit("action");
    reveal_strlit("broker");
    reveal_strlit("name");
    reveal_strlit("period");
    reveal_strlit("side");
    reveal_strlit("symbol");
    assert("action"@[0] != "broker"@[0]);
    assert("action"@.len() != "name"@.len());
    assert("action"@[0] != "period"@[0]);
    assert("action"@.len() != "side"@.len());
    assert("action"@[0] != "symbol"@[0]);
    assert("side"@.len() != "symbol"@.len());
}

} // verus!
