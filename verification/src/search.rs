//! Case-insensitive search over names and message texts, backed by the
//! `regex` crate.
//!
//! The engine treats a query as a predicate on strings: a query matches a
//! text exactly when the case-insensitive regular expression built from
//! it does. What a pattern accepts is a function of the two strings
//! alone, so the outcome is given a name rather than an axiomatized
//! grammar; an ill-formed pattern constrains nothing, as the operator is
//! still typing it.

use vstd::prelude::*;

verus! {

/// Whether the regular expression engine accepts the pattern.
pub uninterp spec fn regex_accepts(pattern: Seq<char>) -> bool;

/// Whether the pattern matches somewhere in the text, for a pattern the
/// engine accepts.
pub uninterp spec fn regex_match_of(pattern: Seq<char>, text: Seq<char>) -> bool;

/// Relies on `regex::Regex::new`: whether a pattern compiles depends on
/// the pattern text alone.
#[verifier::external_body]
fn regex_pattern_ok(pattern: &str) -> (r: bool)
    ensures
        r == regex_accepts(pattern@),
{
    regex::Regex::new(pattern).is_ok()
}

/// Relies on `regex::Regex::new` and `regex::Regex::is_match`: whether a
/// pattern matches a text depends on the two strings alone.
#[verifier::external_body]
fn regex_find(pattern: &str, text: &str) -> (r: bool)
    ensures
        regex_accepts(pattern@) ==> r == regex_match_of(pattern@, text@),
        !regex_accepts(pattern@) ==> r == false,
{
    match regex::Regex::new(pattern) {
        Ok(re) => re.is_match(text),
        Err(_) => false,
    }
}

/// The pattern a query is compiled to: the query itself, matched without
/// regard to case.
pub open spec fn ci_pattern(query: Seq<char>) -> Seq<char> {
    "(?i)"@ + query
}

/// What a query means: the empty query constrains nothing, an ill-formed
/// query constrains nothing either, and any other query requires a
/// case-insensitive match somewhere in the text.
pub open spec fn query_matches(query: Seq<char>, text: Seq<char>) -> bool {
    if query.len() == 0 {
        true
    } else if regex_accepts(ci_pattern(query)) {
        regex_match_of(ci_pattern(query), text)
    } else {
        true
    }
}

/// Whether a query is usable as a search pattern: empty, or accepted by
/// the expression engine.
pub open spec fn query_is_valid(query: Seq<char>) -> bool {
    query.len() == 0 || regex_accepts(ci_pattern(query))
}

fn ci_pattern_string(query: &String) -> (p: String)
    ensures
        p@ == ci_pattern(query@),
{
    let mut p = String::from_str("(?i)");
    p.append(query.as_str());
    p
}

/// Decides whether the query lets the text through.
pub fn query_accepts(query: &String, text: &String) -> (r: bool)
    ensures
        r == query_matches(query@, text@),
{
    if query.unicode_len() == 0 {
        return true;
    }
    let p = ci_pattern_string(query);
    if regex_pattern_ok(p.as_str()) {
        regex_find(p.as_str(), text.as_str())
    } else {
        true
    }
}

/// Decides whether the query is usable as a search pattern.
pub fn query_valid(query: &String) -> (r: bool)
    ensures
        r == query_is_valid(query@),
{
    if query.unicode_len() == 0 {
        return true;
    }
    let p = ci_pattern_string(query);
    regex_pattern_ok(p.as_str())
}

} // verus!
