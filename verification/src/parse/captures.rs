//! What the named patterns of the interpreter found in a line of input, and the ways
//! the parsers read their groups.
use vstd::prelude::*;

use crate::text::{
    is_float_text, opt_view, owned, parse_usize, parse_usize_spec, reads_as_float, replace_char, str_eq,
    trim, trim_text,
};

verus! {

/// The groups of one pattern match, by number; group 0 is the whole match. A group that
/// took no part in the match is `None`.
pub struct Captures {
    pub groups: Vec<Option<String>>,
}

/// One named pattern that matched, with its groups.
pub struct NamedMatch {
    pub name: String,
    pub captures: Captures,
}

/// The named patterns that matched one line of input, in the order they were tried.
pub struct PatternMatches {
    pub matches: Vec<NamedMatch>,
}

/// The groups of a match, as plain values.
pub type GroupsView = Seq<Option<Seq<char>>>;

impl View for Captures {
    type V = GroupsView;

    open spec fn view(&self) -> GroupsView {
        self.groups@.map_values(|g: Option<String>| opt_view(g))
    }
}

/// The named patterns that matched, as plain values: each name with its groups.
pub type Found = Seq<(Seq<char>, GroupsView)>;

impl View for PatternMatches {
    type V = Found;

    open spec fn view(&self) -> Found {
        self.matches@.map_values(|m: NamedMatch| (m.name@, m.captures@))
    }
}

/// The groups of the first match named `name`, where there is one.
pub open spec fn lookup(m: Found, name: Seq<char>) -> Option<GroupsView>
    decreases m.len(),
{
    if m.len() == 0 {
        None
    } else if m[0].0 == name {
        Some(m[0].1)
    } else {
        lookup(m.drop_first(), name)
    }
}

/// Whether the pattern `name` matched.
pub open spec fn matched(m: Found, name: Seq<char>) -> bool {
    lookup(m, name) is Some
}

/// The groups of the pattern `name`, where it matched.
pub open spec fn caps(m: Found, name: Seq<char>) -> GroupsView {
    lookup(m, name)->Some_0
}

/// Group `i`, where it took part in the match.
pub open spec fn group(c: GroupsView, i: int) -> Option<Seq<char>> {
    if 0 <= i < c.len() {
        c[i]
    } else {
        None
    }
}

/// Whether group `i` took part in the match.
pub open spec fn has_group(c: GroupsView, i: int) -> bool {
    group(c, i) is Some
}

/// Group `i` without surrounding white space, or the empty string.
pub open spec fn cap_str_spec(c: GroupsView, i: int) -> Seq<char> {
    match group(c, i) {
        Some(t) => trim(t),
        None => Seq::empty(),
    }
}

/// Group `i` without surrounding white space, where that leaves some text.
pub open spec fn cap_opt_spec(c: GroupsView, i: int) -> Option<Seq<char>> {
    match group(c, i) {
        Some(t) => if trim(t).len() > 0 {
            Some(trim(t))
        } else {
            None
        },
        None => None,
    }
}

/// Group `i` without surrounding white space, where the group took part and reads as a
/// decimal number the way `str::parse::<f64>` reads one.
pub open spec fn cap_decimal_spec(c: GroupsView, i: int) -> Option<Seq<char>> {
    match group(c, i) {
        Some(t) => if is_float_text(trim(t)) {
            Some(trim(t))
        } else {
            None
        },
        None => None,
    }
}

/// Group `i`, else group `j`, without surrounding white space; or the empty string.
pub open spec fn cap_first_spec(c: GroupsView, i: int, j: int) -> Seq<char> {
    match group(c, i) {
        Some(t) => trim(t),
        None => cap_str_spec(c, j),
    }
}

/// Group `i`, else `default`, without surrounding white space.
pub open spec fn cap_str_or_spec(c: GroupsView, i: int, default: Seq<char>) -> Seq<char> {
    match group(c, i) {
        Some(t) => trim(t),
        None => trim(default),
    }
}

/// Group `i` without surrounding white space, with each space made an underscore.
pub open spec fn cap_word_spec(c: GroupsView, i: int) -> Seq<char> {
    replace_char(cap_str_spec(c, i), ' ', "_"@)
}

/// What `str::parse` gives for an unsigned number no greater than `max`.
pub open spec fn parse_bounded_spec(s: Seq<char>, max: nat) -> Option<usize> {
    match parse_usize_spec(s) {
        Some(n) => if n <= max {
            Some(n)
        } else {
            None
        },
        None => None,
    }
}

/// Group `i`, read as an unsigned number no greater than `max`.
pub open spec fn cap_number_spec(c: GroupsView, i: int, max: nat) -> Option<usize> {
    match group(c, i) {
        Some(t) => parse_bounded_spec(trim(t), max),
        None => None,
    }
}

/// Group `i`, read as an unsigned number that fits in a `u32`.
pub open spec fn cap_u32_spec(c: GroupsView, i: int) -> Option<u32> {
    match cap_number_spec(c, i, u32::MAX as nat) {
        Some(n) => Some(n as u32),
        None => None,
    }
}

/// The name the accounting service gives a receipt status: a receipt still waiting
/// for review is `pending_review`, however it was asked for.
pub open spec fn receipt_status_name(s: Seq<char>) -> Seq<char> {
    if s == "pending"@ || s == "unreviewed"@ {
        "pending_review"@
    } else {
        s
    }
}

/// The receipt status in group `i`, where the group took part.
pub open spec fn receipt_status_spec(c: GroupsView, i: int) -> Option<Seq<char>> {
    match group(c, i) {
        Some(t) => Some(receipt_status_name(trim(t))),
        None => None,
    }
}

/// The name the task service gives a reporting period.
pub open spec fn period_name(s: Seq<char>) -> Seq<char> {
    if s == "daily"@ {
        "day"@
    } else if s == "weekly"@ || s == "this week"@ {
        "week"@
    } else if s == "monthly"@ || s == "this month"@ {
        "month"@
    } else {
        s
    }
}

/// The reporting period in group `i`, where the group took part.
pub open spec fn period_spec(c: GroupsView, i: int) -> Option<Seq<char>> {
    match group(c, i) {
        Some(t) => Some(period_name(trim(t))),
        None => None,
    }
}

/// Whether a word names the whole fleet rather than one node.
pub open spec fn names_fleet(s: Seq<char>) -> bool {
    s == "fleet"@ || s == "all"@ || s == "nodes"@
}

/// The node named in group `i`: the trimmed group, unless it is empty or names the
/// whole fleet.
pub open spec fn node_spec(c: GroupsView, i: int) -> Option<Seq<char>> {
    match group(c, i) {
        Some(t) => if trim(t).len() > 0 && !names_fleet(trim(t)) {
            Some(trim(t))
        } else {
            None
        },
        None => None,
    }
}

impl Captures {
    /// Group `i`, where it took part in the match.
    pub fn get(&self, i: usize) -> (r: Option<&String>)
        ensures
            match r {
                Some(s) => group(self@, i as int) == Some(s@),
                None => group(self@, i as int) is None,
            },
    {
        if i < self.groups.len() {
            match &self.groups[i] {
                Some(s) => Some(s),
                None => None,
            }
        } else {
            None
        }
    }
}

impl PatternMatches {
    /// The groups of the first match named `name`, where the pattern matched.
    pub fn try_captures(&self, name: &str) -> (r: Option<&Captures>)
        ensures
            match r {
                Some(c) => lookup(self@, name@) == Some(c@),
                None => lookup(self@, name@) is None,
            },
    {
        let n = self.matches.len();
        let mut i: usize = 0;
        assert(self@.skip(0) =~= self@);
        while i < n
            invariant
                n == self.matches.len(),
                i <= n,
                lookup(self@, name@) == lookup(self@.skip(i as int), name@),
            decreases n - i,
        {
            assert(self@.skip(i as int)[0] == self@[i as int]);
            assert(self@.skip(i as int).drop_first() =~= self@.skip(i + 1));
            if crate::text::str_eq(self.matches[i].name.as_str(), name) {
                return Some(&self.matches[i].captures);
            }
            i = i + 1;
        }
        assert(self@.skip(n as int) =~= Seq::<(Seq<char>, GroupsView)>::empty());
        None
    }
}

/// Whether group `i` took part in the match.
pub fn cap_present(c: &Captures, i: usize) -> (r: bool)
    ensures
        r == has_group(c@, i as int),
{
    c.get(i).is_some()
}

/// Group `i` without surrounding white space, or the empty string.
pub fn cap_str(c: &Captures, i: usize) -> (r: String)
    ensures
        r@ == cap_str_spec(c@, i as int),
{
    match c.get(i) {
        Some(s) => trim_text(s.as_str()),
        None => String::new(),
    }
}

/// Group `i` without surrounding white space, where that leaves some text.
pub fn cap_opt(c: &Captures, i: usize) -> (r: Option<String>)
    ensures
        opt_view(r) == cap_opt_spec(c@, i as int),
{
    match c.get(i) {
        Some(s) => {
            let t = trim_text(s.as_str());
            if t.as_str().is_empty() {
                None
            } else {
                Some(t)
            }
        },
        None => None,
    }
}

/// Group `i` without surrounding white space, where the group took part and reads as a
/// decimal number the way `str::parse::<f64>` reads one.
pub fn cap_decimal(c: &Captures, i: usize) -> (r: Option<String>)
    ensures
        opt_view(r) == cap_decimal_spec(c@, i as int),
{
    match c.get(i) {
        Some(s) => {
            let t = trim_text(s.as_str());
            if reads_as_float(t.as_str()) {
                Some(t)
            } else {
                None
            }
        },
        None => None,
    }
}

/// Group `i`, else group `j`, without surrounding white space; or the empty string.
pub fn cap_first(c: &Captures, i: usize, j: usize) -> (r: String)
    ensures
        r@ == cap_first_spec(c@, i as int, j as int),
{
    match c.get(i) {
        Some(s) => trim_text(s.as_str()),
        None => cap_str(c, j),
    }
}

/// Group `i`, else `default`, without surrounding white space.
pub fn cap_str_or(c: &Captures, i: usize, default: &str) -> (r: String)
    ensures
        r@ == cap_str_or_spec(c@, i as int, default@),
{
    match c.get(i) {
        Some(s) => trim_text(s.as_str()),
        None => trim_text(default),
    }
}

/// Group `i` without surrounding white space, with each space made an underscore.
pub fn cap_word(c: &Captures, i: usize) -> (r: String)
    ensures
        r@ == cap_word_spec(c@, i as int),
{
    let s = cap_str(c, i);
    crate::text::spaces_to_underscores(s.as_str())
}

/// Group `i`, read as an unsigned number no greater than `max`.
pub fn cap_number(c: &Captures, i: usize, max: usize) -> (r: Option<usize>)
    ensures
        r == cap_number_spec(c@, i as int, max as nat),
{
    match c.get(i) {
        Some(s) => {
            let t = trim_text(s.as_str());
            match parse_usize(t.as_str()) {
                Some(n) => if n <= max {
                    Some(n)
                } else {
                    None
                },
                None => None,
            }
        },
        None => None,
    }
}

/// Group `i`, read as an unsigned number that fits in a `u32`.
pub fn cap_u32(c: &Captures, i: usize) -> (r: Option<u32>)
    ensures
        r == cap_u32_spec(c@, i as int),
{
    match cap_number(c, i, 4294967295usize) {
        Some(n) => Some(n as u32),
        None => None,
    }
}

/// The receipt status in group `i`, where the group took part.
pub fn receipt_status(c: &Captures, i: usize) -> (r: Option<String>)
    ensures
        opt_view(r) == receipt_status_spec(c@, i as int),
{
    match c.get(i) {
        Some(g) => {
            let s = trim_text(g.as_str());
            if str_eq(s.as_str(), "pending") || str_eq(s.as_str(), "unreviewed") {
                Some(owned("pending_review"))
            } else {
                Some(s)
            }
        },
        None => None,
    }
}

/// The reporting period in group `i`, where the group took part.
pub fn period(c: &Captures, i: usize) -> (r: Option<String>)
    ensures
        opt_view(r) == period_spec(c@, i as int),
{
    match c.get(i) {
        Some(g) => {
            let s = trim_text(g.as_str());
            if str_eq(s.as_str(), "daily") {
                Some(owned("day"))
            } else if str_eq(s.as_str(), "weekly") || str_eq(s.as_str(), "this week") {
                Some(owned("week"))
            } else if str_eq(s.as_str(), "monthly") || str_eq(s.as_str(), "this month") {
                Some(owned("month"))
            } else {
                Some(s)
            }
        },
        None => None,
    }
}

/// The node named in group `i`: the trimmed group, unless it is empty or names the
/// whole fleet.
pub fn node(c: &Captures, i: usize) -> (r: Option<String>)
    ensures
        opt_view(r) == node_spec(c@, i as int),
{
    match c.get(i) {
        Some(g) => {
            let s = trim_text(g.as_str());
            if s.as_str().is_empty() || str_eq(s.as_str(), "fleet") || str_eq(s.as_str(), "all")
                || str_eq(s.as_str(), "nodes") {
                None
            } else {
                Some(s)
            }
        },
        None => None,
    }
}

} // verus!
