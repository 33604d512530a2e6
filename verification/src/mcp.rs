//! Building translations that call a tool over the MCP bridge.
use vstd::prelude::*;

use crate::intent::{tool_view, McpCall, Translation};
use crate::json::{json_entries, json_object_insert, JsonArg, JsonObject, JsonScalar};
use crate::security::PermissionLevel;
use crate::text::opt_view;

verus! {

/// `m` with `key` set to the string `value`.
pub open spec fn with_str(m: Map<Seq<char>, JsonScalar>, key: Seq<char>, value: Seq<char>) -> Map<
    Seq<char>,
    JsonScalar,
> {
    m.insert(key, JsonScalar::Str(value))
}

/// `m` with `key` set to the string `value` where there is one, else `m` as it is.
pub open spec fn with_opt(
    m: Map<Seq<char>, JsonScalar>,
    key: Seq<char>,
    value: Option<Seq<char>>,
) -> Map<Seq<char>, JsonScalar> {
    match value {
        Some(v) => m.insert(key, JsonScalar::Str(v)),
        None => m,
    }
}

/// A translation that calls the MCP tool `tool_name` with `args`, and runs no command.
pub fn mcp_call(
    tool_name: &str,
    args: JsonObject,
    description: String,
    permission: PermissionLevel,
    explanation: String,
) -> (t: Translation)
    ensures
        t@ == tool_view(
            tool_name@,
            json_entries(args),
            description@,
            permission,
            explanation@,
        ),
{
    let t = Translation {
        command: String::new(),
        args: Vec::new(),
        description,
        permission,
        explanation,
        mcp: Some(McpCall { tool_name: tool_name.to_owned(), arguments: args }),
    };
    assert(t.args.deep_view() =~= Seq::<Seq<char>>::empty());
    t
}

/// Sets `key` to the string `value`, where there is one.
pub fn insert_opt(args: &mut JsonObject, key: &str, value: &Option<String>)
    ensures
        json_entries(*final(args)) == with_opt(json_entries(*old(args)), key@, opt_view(*value)),
{
    if let Some(v) = value {
        json_object_insert(args, key, JsonArg::Str(v.clone()));
    }
}

/// Sets `key` to the string `value`.
pub fn insert_str(args: &mut JsonObject, key: &str, value: &str)
    ensures
        json_entries(*final(args)) == with_str(json_entries(*old(args)), key@, value@),
{
    json_object_insert(args, key, JsonArg::Str(value.to_owned()));
}

/// `before`, the value and `after` where there is a value, else nothing.
pub open spec fn wrap(o: Option<Seq<char>>, before: Seq<char>, after: Seq<char>) -> Seq<char> {
    match o {
        Some(v) => before + v + after,
        None => Seq::empty(),
    }
}

/// `before`, the value and `after` where there is a value, else the empty string.
pub fn wrap_text(o: &Option<String>, before: &str, after: &str) -> (r: String)
    ensures
        r@ == wrap(opt_view(*o), before@, after@),
{
    match o {
        Some(v) => crate::text::cat3(before, v.as_str(), after),
        None => String::new(),
    }
}

} // verus!
