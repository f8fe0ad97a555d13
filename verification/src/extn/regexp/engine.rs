//! The matching engine.
//!
//! Patterns are compiled and matched by the `regex` crate. What it finds is
//! handed to the rest of the library as plain numbers: for each group of the
//! pattern the byte offsets, in the text that was searched, at which the
//! group matched.

use vstd::prelude::*;
use regex::Regex;

verus! {

/// What the engine finds when it searches `haystack` for the first match of
/// `pattern`: nothing at all if the pattern does not compile; else nothing if
/// the pattern matches nowhere; else, for each group of the pattern in the
/// order of their opening parentheses, group 0 being the whole match, the
/// byte offsets of its start and its end in `haystack`, or nothing for a
/// group that took no part in the match.
pub uninterp spec fn engine_captures(pattern: Seq<char>, haystack: Seq<char>) -> Option<
    Option<Seq<Option<(usize, usize)>>>,
>;

/// The names that `pattern` declares for its groups, in the order of their
/// opening parentheses, group 0 included, with nothing for a group without a
/// name; nothing at all if the pattern does not compile.
pub uninterp spec fn engine_capture_names(pattern: Seq<char>) -> Option<Seq<Option<Seq<char>>>>;

/// The view of an outcome of [`captures`].
pub open spec fn captures_view(found: Option<Option<Vec<Option<(usize, usize)>>>>) -> Option<
    Option<Seq<Option<(usize, usize)>>>,
> {
    match found {
        Some(Some(groups)) => Some(Some(groups@)),
        Some(None) => Some(None),
        None => None,
    }
}

/// The view of a list of optional names.
pub open spec fn names_view(names: Seq<Option<String>>) -> Seq<Option<Seq<char>>> {
    Seq::new(
        names.len(),
        |i: int|
            match names[i] {
                Some(name) => Some(name@),
                None => None,
            },
    )
}

/// The view of an outcome of [`capture_names`].
pub open spec fn capture_names_view(found: Option<Vec<Option<String>>>) -> Option<
    Seq<Option<Seq<char>>>,
> {
    match found {
        Some(names) => Some(names_view(names@)),
        None => None,
    }
}

/// `Regex::new`, `Regex::captures`, `Captures::iter`, `Match::start` and
/// `Match::end` of the `regex` crate: compile `pattern`, search `haystack`
/// for its first match and report where each group matched. Nothing is
/// claimed of the outcome but that it depends on the two texts alone.
#[verifier::external_body]
pub(crate) fn captures(pattern: &str, haystack: &str) -> (r: Option<
    Option<Vec<Option<(usize, usize)>>>,
>)
    ensures
        captures_view(r) == engine_captures(pattern@, haystack@),
{
    match Regex::new(pattern) {
        Ok(regex) => Some(
            regex.captures(haystack).map(
                |found| found.iter().map(|group| group.map(|m| (m.start(), m.end()))).collect(),
            ),
        ),
        Err(_) => None,
    }
}

/// `Regex::new` and `Regex::capture_names` of the `regex` crate: compile
/// `pattern` and list the names of its groups. Nothing is claimed of the
/// outcome but that it depends on the text of the pattern alone.
#[verifier::external_body]
pub(crate) fn capture_names(pattern: &str) -> (r: Option<Vec<Option<String>>>)
    ensures
        capture_names_view(r) == engine_capture_names(pattern@),
{
    match Regex::new(pattern) {
        Ok(regex) => Some(regex.capture_names().map(|name| name.map(|n| n.to_owned())).collect()),
        Err(_) => None,
    }
}

} // verus!
