//! Regular expressions.

use vstd::prelude::*;
use regex::{Regex, RegexBuilder};

verus! {

/// Whether the regular expression is found in the text, as `Regex::is_match`
/// says: nothing where `Regex::new` refuses the expression.
pub uninterp spec fn pattern_found(pattern: Seq<char>, text: Seq<char>) -> Option<bool>;

/// Whether the regular expression is found in the text when the case of letters
/// does not count: nothing where `RegexBuilder::build` refuses the expression.
pub uninterp spec fn pattern_found_any_case(pattern: Seq<char>, text: Seq<char>) -> Option<bool>;

/// What the first group holds where the regular expression is first found in
/// the text, as `Regex::captures` says: nothing where it is not found, where
/// the group took no part, or where `Regex::new` refuses the expression.
pub uninterp spec fn first_group(pattern: Seq<char>, text: Seq<char>) -> Option<Seq<char>>;

/// What the first group holds at each place where the regular expression is
/// found in the text, as `Regex::captures_iter` says: nothing at a place where
/// the group took no part, and no place at all where `Regex::new` refuses the
/// expression.
pub uninterp spec fn every_first_group(pattern: Seq<char>, text: Seq<char>) -> Seq<
    Option<Seq<char>>,
>;

/// `Regex::new`, then `Regex::is_match`. The result depends on the two texts
/// alone.
#[verifier::external_body]
pub(crate) fn search(pattern: &str, text: &str) -> (r: Option<bool>)
    ensures
        r == pattern_found(pattern@, text@),
{
    match Regex::new(pattern) {
        Ok(regex) => Some(regex.is_match(text)),
        Err(_) => None,
    }
}

/// `RegexBuilder::build` with `case_insensitive`, then `Regex::is_match`. The
/// result depends on the two texts alone.
#[verifier::external_body]
pub(crate) fn search_any_case(pattern: &str, text: &str) -> (r: Option<bool>)
    ensures
        r == pattern_found_any_case(pattern@, text@),
{
    match RegexBuilder::new(pattern).case_insensitive(true).build() {
        Ok(regex) => Some(regex.is_match(text)),
        Err(_) => None,
    }
}

/// `Regex::new`, then the first group of `Regex::captures`. The result depends
/// on the two texts alone.
#[verifier::external_body]
pub(crate) fn capture(pattern: &str, text: &str) -> (r: Option<String>)
    ensures
        r.deep_view() == first_group(pattern@, text@),
{
    match Regex::new(pattern) {
        Ok(regex) => regex.captures(text)?.get(1).map(|group| group.as_str().to_string()),
        Err(_) => None,
    }
}

/// `Regex::new`, then the first group of each of `Regex::captures_iter`. The
/// result depends on the two texts alone.
#[verifier::external_body]
pub(crate) fn capture_all(pattern: &str, text: &str) -> (r: Vec<Option<String>>)
    ensures
        r.deep_view() == every_first_group(pattern@, text@),
{
    match Regex::new(pattern) {
        Ok(regex) => regex
            .captures_iter(text)
            .map(|found| found.get(1).map(|group| group.as_str().to_string()))
            .collect(),
        Err(_) => Vec::new(),
    }
}

} // verus!
