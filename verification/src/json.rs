//! The JSON objects that tool calls carry, held in `serde_json`'s own map type.
use vstd::prelude::*;

use crate::text::{decimal, join_seq};

verus! {

/// `serde_json::Map`, carried through the library as an opaque value.
#[verifier::external_type_specification]
#[verifier::external_body]
#[verifier::reject_recursive_types(K)]
#[verifier::reject_recursive_types(V)]
pub struct ExJsonMap<K, V>(serde_json::Map<K, V>);

/// `serde_json::Value`, carried through the library as an opaque value.
#[verifier::external_type_specification]
#[verifier::external_body]
pub struct ExJsonValue(serde_json::Value);

/// A JSON object with string keys, as the library builds it.
pub type JsonObject = serde_json::Map<String, serde_json::Value>;

/// What one entry of a JSON object holds, as a plain value.
pub enum JsonScalar {
    /// A JSON string.
    Str(Seq<char>),
    /// A non-negative JSON integer.
    UInt(nat),
    /// A JSON boolean.
    Bool(bool),
    /// A JSON array of strings.
    StrList(Seq<Seq<char>>),
    /// JSON `null`.
    Null,
}

/// A value that the library puts into a JSON object.
pub enum JsonArg {
    /// A JSON string.
    Str(String),
    /// A non-negative JSON integer.
    UInt(u64),
    /// A JSON boolean.
    Bool(bool),
    /// A JSON array of strings.
    StrList(Vec<String>),
    /// JSON `null`.
    Null,
}

impl View for JsonArg {
    type V = JsonScalar;

    open spec fn view(&self) -> JsonScalar {
        match self {
            JsonArg::Str(s) => JsonScalar::Str(s@),
            JsonArg::UInt(n) => JsonScalar::UInt(*n as nat),
            JsonArg::Bool(b) => JsonScalar::Bool(*b),
            JsonArg::StrList(v) => JsonScalar::StrList(v.deep_view()),
            JsonArg::Null => JsonScalar::Null,
        }
    }
}

/// What a JSON object holds: its keys, each with its value.
pub uninterp spec fn json_entries(m: serde_json::Map<String, serde_json::Value>) -> Map<
    Seq<char>,
    JsonScalar,
>;

/// Whether a JSON value is of a kind that `JsonScalar` stands for: a string, an
/// unsigned integer, a boolean, an array of strings, or null.
pub uninterp spec fn plain_value(v: serde_json::Value) -> bool;

/// Whether every value of a JSON object is of a kind that `JsonScalar` stands for.
pub uninterp spec fn plain_object(m: serde_json::Map<String, serde_json::Value>) -> bool;

/// A hexadecimal digit as `serde_json` writes it, in lower case.
pub open spec fn hex_digit(d: nat) -> char {
    if d < 10 {
        (('0' as nat) + d) as char
    } else {
        (('a' as nat) + (d - 10)) as char
    }
}

/// How `serde_json` writes one character inside a JSON string: a quote and a backslash
/// after a backslash, the control characters backspace, tab, line feed, form feed and
/// carriage return as `\b \t \n \f \r`, the other control characters below 0x20 as
/// `\u00` and two hexadecimal digits, and every other character as it is.
pub open spec fn escaped_char(c: char) -> Seq<char> {
    if c == '"' {
        seq!['\\', '"']
    } else if c == '\\' {
        seq!['\\', '\\']
    } else if c == '\u{8}' {
        seq!['\\', 'b']
    } else if c == '\t' {
        seq!['\\', 't']
    } else if c == '\n' {
        seq!['\\', 'n']
    } else if c == '\u{c}' {
        seq!['\\', 'f']
    } else if c == '\r' {
        seq!['\\', 'r']
    } else if (c as u32) < 0x20 {
        seq!['\\', 'u', '0', '0', hex_digit((c as u32 / 16) as nat), hex_digit((c as u32 % 16) as nat)]
    } else {
        seq![c]
    }
}

/// The characters of `s`, each as `serde_json` writes it inside a JSON string.
pub open spec fn escaped(s: Seq<char>) -> Seq<char>
    decreases s.len(),
{
    if s.len() == 0 {
        Seq::empty()
    } else {
        escaped(s.drop_last()) + escaped_char(s.last())
    }
}

/// A JSON string holding `s`.
pub open spec fn string_text(s: Seq<char>) -> Seq<char> {
    seq!['"'] + escaped(s) + seq!['"']
}

/// The JSON text of one value.
pub open spec fn scalar_text(v: JsonScalar) -> Seq<char> {
    match v {
        JsonScalar::Str(s) => string_text(s),
        JsonScalar::UInt(n) => decimal(n),
        JsonScalar::Bool(b) => if b {
            seq!['t', 'r', 'u', 'e']
        } else {
            seq!['f', 'a', 'l', 's', 'e']
        },
        JsonScalar::StrList(items) => seq!['['] + join_seq(
            items.map_values(|i: Seq<char>| string_text(i)),
            seq![','],
        ) + seq![']'],
        JsonScalar::Null => seq!['n', 'u', 'l', 'l'],
    }
}

/// The order of `String`s, in which a `BTreeMap` keeps its keys: by code point, and
/// a proper prefix first.
pub open spec fn key_less(a: Seq<char>, b: Seq<char>) -> bool
    decreases a.len(),
{
    if a.len() == 0 {
        b.len() > 0
    } else if b.len() == 0 {
        false
    } else if a[0] != b[0] {
        (a[0] as u32) < (b[0] as u32)
    } else {
        key_less(a.drop_first(), b.drop_first())
    }
}

/// Whether `keys` are in increasing key order, each before the next.
pub open spec fn in_key_order(keys: Seq<Seq<char>>) -> bool {
    forall|i: int, j: int| 0 <= i < j < keys.len() ==> key_less(#[trigger] keys[i], #[trigger] keys[j])
}

/// The keys of `entries`, in key order.
pub open spec fn sorted_keys(entries: Map<Seq<char>, JsonScalar>) -> Seq<Seq<char>> {
    choose|keys: Seq<Seq<char>>| in_key_order(keys) && keys.to_set() == entries.dom()
}

/// The compact JSON text that `serde_json::to_string` writes for an object with these
/// entries: between braces, each key as a JSON string, a colon and its value, in key
/// order and separated by commas.
pub open spec fn json_text(entries: Map<Seq<char>, JsonScalar>) -> Seq<char> {
    seq!['{'] + join_seq(
        sorted_keys(entries).map_values(
            |k: Seq<char>| string_text(k) + seq![':'] + scalar_text(entries[k]),
        ),
        seq![','],
    ) + seq!['}']
}

proof fn lemma_key_less_irreflexive(a: Seq<char>)
    ensures
        !key_less(a, a),
    decreases a.len(),
{
    if a.len() > 0 {
        lemma_key_less_irreflexive(a.drop_first());
    }
}

proof fn lemma_key_less_asymmetric(a: Seq<char>, b: Seq<char>)
    requires
        key_less(a, b),
    ensures
        !key_less(b, a),
    decreases a.len(),
{
    if a.len() > 0 && b.len() > 0 && a[0] == b[0] {
        lemma_key_less_asymmetric(a.drop_first(), b.drop_first());
    }
}

proof fn lemma_key_order_unique(a: Seq<Seq<char>>, b: Seq<Seq<char>>)
    requires
        in_key_order(a),
        in_key_order(b),
        a.to_set() == b.to_set(),
    ensures
        a == b,
    decreases a.len(),
{
    if a.len() == 0 {
        if b.len() > 0 {
            assert(b.to_set().contains(b[0]));
        }
        assert(a =~= b);
    } else {
        assert(a.to_set().contains(a[0]));
        assert(b.to_set().contains(a[0]));
        let i = choose|i: int| 0 <= i < b.len() && b[i] == a[0];
        assert(b.to_set().contains(b[0]));
        let j = choose|j: int| 0 <= j < a.len() && a[j] == b[0];
        if i > 0 && j > 0 {
            assert(key_less(b[0], b[i]));
            assert(key_less(a[0], a[j]));
            lemma_key_less_asymmetric(a[0], b[0]);
        } else if i > 0 {
            lemma_key_less_irreflexive(b[0]);
            assert(key_less(b[0], b[i]));
        } else if j > 0 {
            lemma_key_less_irreflexive(a[0]);
            assert(key_less(a[0], a[j]));
        }
        assert(a[0] == b[0]);
        let a1 = a.drop_first();
        let b1 = b.drop_first();
        assert forall|x: Seq<char>| a1.to_set().contains(x) implies b1.to_set().contains(x) by {
            let k = choose|k: int| 0 <= k < a1.len() && a1[k] == x;
            assert(a.to_set().contains(a[k + 1]));
            assert(key_less(a[0], a[k + 1]));
            lemma_key_less_irreflexive(a[0]);
            let m = choose|m: int| 0 <= m < b.len() && b[m] == x;
            assert(m != 0);
            assert(b1[m - 1] == x);
        }
        assert forall|x: Seq<char>| b1.to_set().contains(x) implies a1.to_set().contains(x) by {
            let k = choose|k: int| 0 <= k < b1.len() && b1[k] == x;
            assert(b.to_set().contains(b[k + 1]));
            assert(key_less(b[0], b[k + 1]));
            lemma_key_less_irreflexive(b[0]);
            let m = choose|m: int| 0 <= m < a.len() && a[m] == x;
            assert(m != 0);
            assert(a1[m - 1] == x);
        }
        assert(a1.to_set() =~= b1.to_set());
        lemma_key_order_unique(a1, b1);
        assert(a =~= seq![a[0]] + a1);
        assert(b =~= seq![b[0]] + b1);
    }
}

/// The keys of a map are any listing of them in key order.
pub proof fn lemma_sorted_keys(entries: Map<Seq<char>, JsonScalar>, keys: Seq<Seq<char>>)
    requires
        in_key_order(keys),
        keys.to_set() == entries.dom(),
    ensures
        sorted_keys(entries) == keys,
{
    let c = sorted_keys(entries);
    assert(in_key_order(c) && c.to_set() == entries.dom());
    lemma_key_order_unique(c, keys);
}

/// The JSON text of an object with one entry.
pub proof fn lemma_one_entry_text(key: Seq<char>, value: JsonScalar)
    ensures
        json_text(no_entries().insert(key, value)) == seq!['{'] + string_text(key) + seq![':']
            + scalar_text(value) + seq!['}'],
{
    let m = no_entries().insert(key, value);
    assert forall|x: Seq<char>| seq![key].to_set().contains(x) <==> m.dom().contains(x) by {
        if x == key {
            assert(seq![key][0] == x);
        }
    }
    assert(seq![key].to_set() =~= m.dom());
    lemma_sorted_keys(m, seq![key]);
    let parts = seq![key].map_values(|k: Seq<char>| string_text(k) + seq![':'] + scalar_text(m[k]));
    assert(join_seq(parts, seq![',']) == parts[0]);
}

/// The JSON text of an object with two entries, `a` before `b` in key order.
pub proof fn lemma_two_entry_text(a: Seq<char>, va: JsonScalar, b: Seq<char>, vb: JsonScalar)
    requires
        key_less(a, b),
    ensures
        json_text(no_entries().insert(a, va).insert(b, vb)) == seq!['{'] + string_text(a)
            + seq![':'] + scalar_text(va) + seq![','] + string_text(b) + seq![':'] + scalar_text(vb)
            + seq!['}'],
{
    lemma_key_less_irreflexive(a);
    let m = no_entries().insert(a, va).insert(b, vb);
    assert forall|x: Seq<char>| seq![a, b].to_set().contains(x) <==> m.dom().contains(x) by {
        if x == a {
            assert(seq![a, b][0] == x);
        }
        if x == b {
            assert(seq![a, b][1] == x);
        }
    }
    assert(seq![a, b].to_set() =~= m.dom());
    lemma_sorted_keys(m, seq![a, b]);
    let parts = seq![a, b].map_values(|k: Seq<char>| string_text(k) + seq![':'] + scalar_text(m[k]));
    assert(parts.drop_last() =~= seq![parts[0]]);
    assert(join_seq(parts.drop_last(), seq![',']) == parts[0]);
    assert(join_seq(parts, seq![',']) == parts[0] + seq![','] + parts[1]);
    assert(m[a] == va);
}

/// An object with no entry.
pub open spec fn no_entries() -> Map<Seq<char>, JsonScalar> {
    Map::empty()
}

/// A new, empty object: calls `serde_json::Map::new`, which holds no entry.
#[verifier::external_body]
pub(crate) fn json_object_new() -> (obj: JsonObject)
    ensures
        json_entries(obj) == no_entries(),
        plain_object(obj),
{
    serde_json::Map::new()
}

/// What a JSON value holds, as a plain value.
pub uninterp spec fn json_value(v: serde_json::Value) -> JsonScalar;

/// A JSON string: the variant `serde_json::Value::String`, holding `s`.
#[verifier::external_body]
fn json_string(s: String) -> (v: serde_json::Value)
    ensures
        json_value(v) == JsonScalar::Str(s@),
        plain_value(v),
{
    serde_json::Value::String(s)
}

/// A JSON integer: `serde_json::Value::from` on a `u64`, which makes the number `n`.
#[verifier::external_body]
fn json_uint(n: u64) -> (v: serde_json::Value)
    ensures
        json_value(v) == JsonScalar::UInt(n as nat),
        plain_value(v),
{
    serde_json::Value::from(n)
}

/// A JSON boolean: the variant `serde_json::Value::Bool`, holding `b`.
#[verifier::external_body]
fn json_bool(b: bool) -> (v: serde_json::Value)
    ensures
        json_value(v) == JsonScalar::Bool(b),
        plain_value(v),
{
    serde_json::Value::Bool(b)
}

/// A JSON array of strings: `serde_json::Value::from` on a `Vec<String>`, which makes
/// an array of the strings, in order.
#[verifier::external_body]
fn json_string_list(items: Vec<String>) -> (v: serde_json::Value)
    ensures
        json_value(v) == JsonScalar::StrList(items.deep_view()),
        plain_value(v),
{
    serde_json::Value::from(items)
}

/// JSON `null`: the variant `serde_json::Value::Null`.
#[verifier::external_body]
fn json_null() -> (v: serde_json::Value)
    ensures
        json_value(v) == JsonScalar::Null,
        plain_value(v),
{
    serde_json::Value::Null
}

/// The JSON value that stands for `a`.
pub fn to_json_value(a: JsonArg) -> (v: serde_json::Value)
    ensures
        json_value(v) == a@,
        plain_value(v),
{
    match a {
        JsonArg::Str(s) => json_string(s),
        JsonArg::UInt(n) => json_uint(n),
        JsonArg::Bool(b) => json_bool(b),
        JsonArg::StrList(items) => json_string_list(items),
        JsonArg::Null => json_null(),
    }
}

/// Sets `key` to `value`: calls `serde_json::Map::insert`, which adds the entry, or
/// replaces the value of a key already present, and leaves the other entries as they were.
#[verifier::external_body]
fn map_insert(m: &mut JsonObject, key: &str, value: serde_json::Value)
    ensures
        json_entries(*final(m)) == json_entries(*old(m)).insert(key@, json_value(value)),
        plain_object(*old(m)) && plain_value(value) ==> plain_object(*final(m)),
{
    m.insert(key.to_string(), value);
}

/// Sets `key` to the JSON value that stands for `value`, leaving the other entries as
/// they were.
pub fn json_object_insert(m: &mut JsonObject, key: &str, value: JsonArg)
    ensures
        json_entries(*final(m)) == json_entries(*old(m)).insert(key@, value@),
        plain_object(*old(m)) ==> plain_object(*final(m)),
{
    let v = to_json_value(value);
    map_insert(m, key, v);
}

/// The JSON text of `m`, an object whose values are all of the kinds that `JsonScalar`
/// stands for: calls `serde_json::to_string`, which cannot fail on an object whose keys
/// are strings. The text is stated by `json_text`: compact, keys in the order
/// of the map (a `BTreeMap`, as the `preserve_order` feature is off), strings escaped
/// by the table in `serde_json`'s `ser.rs`, numbers in decimal.
#[verifier::external_body]
pub(crate) fn json_object_text(m: &JsonObject) -> (s: String)
    requires
        plain_object(*m),
    ensures
        s@ == json_text(json_entries(*m)),
{
    serde_json::to_string(m).unwrap()
}

} // verus!
