//! Regular-expression matching, done by the `regex` crate.

use crate::model::{copy_optional_text, optional_text};
use vstd::prelude::*;

verus! {

/// The capture groups of one match: entry `0` is the whole match, entry `i` the text of group
/// `i`, or `None` for a group that took no part in the match.
pub type Groups = Seq<Option<Seq<char>>>;

/// What a search gives: the error text where the pattern does not compile, else the groups of
/// the leftmost match, or `None` where nothing matches.
pub type Search = Result<Option<Groups>, Seq<char>>;

/// The text of the error with which `regex::Regex::new` refuses `pattern`; `None` where it
/// accepts the pattern.
pub uninterp spec fn regex_compile_error(pattern: Seq<char>) -> Option<Seq<char>>;

/// The capture groups that `regex::Regex::captures` reports for the leftmost match of the
/// compiled `pattern` in `haystack`; `None` where there is no match.
pub uninterp spec fn regex_captures(pattern: Seq<char>, haystack: Seq<char>) -> Option<Groups>;

/// A compiled regular expression of the `regex` crate.
#[verifier::external_type_specification]
#[verifier::external_body]
pub struct ExRegex(regex::Regex);

/// A pattern together with what the `regex` crate compiled it to. A matcher is made by
/// [`compile`] only, so that the two always belong together.
pub struct Matcher {
    pattern: String,
    compiled: regex::Regex,
}

impl Matcher {
    /// The pattern that this matcher was compiled from.
    pub closed spec fn source(&self) -> Seq<char> {
        self.pattern@
    }
}

/// Compiling `pattern` and searching `haystack` with it.
pub open spec fn search(pattern: Seq<char>, haystack: Seq<char>) -> Search {
    match regex_compile_error(pattern) {
        Some(e) => Err(e),
        None => Ok(regex_captures(pattern, haystack)),
    }
}

/// The views of capture groups.
pub open spec fn groups_view(groups: Seq<Option<String>>) -> Groups {
    Seq::new(
        groups.len(),
        |i: int|
            match groups[i] {
                Some(s) => Some(s@),
                None => None,
            },
    )
}

/// The view of the groups of a match, `None` where there was none.
pub open spec fn found_view(found: Option<Vec<Option<String>>>) -> Option<Groups> {
    match found {
        Some(groups) => Some(groups_view(groups@)),
        None => None,
    }
}

/// The view of a search result.
pub open spec fn search_view(r: Result<Option<Vec<Option<String>>>, String>) -> Search {
    match r {
        Ok(found) => Ok(found_view(found)),
        Err(e) => Err(e@),
    }
}

/// Group `i` of a match, `None` where the match has no such group or the group took no part.
pub open spec fn group(groups: Groups, i: int) -> Option<Seq<char>> {
    if 0 <= i < groups.len() {
        groups[i]
    } else {
        None
    }
}

/// Compiles `pattern` with `regex::Regex::new` and keeps the pattern beside the result; the
/// error's text where the crate refuses the pattern.
#[verifier::external_body]
pub(crate) fn compile(pattern: &str) -> (r: Result<Matcher, String>)
    ensures
        (match regex_compile_error(pattern@) {
            Some(e) => r is Err && r->Err_0@ == e,
            None => r is Ok && r->Ok_0.source() == pattern@,
        }),
{
    regex::Regex::new(pattern).map(
        |compiled| Matcher { pattern: pattern.to_string(), compiled },
    ).map_err(|e| e.to_string())
}

/// Searches `haystack` with `regex::Regex::captures` and hands out the groups of the leftmost
/// match as owned strings, in the order of `regex::Captures::iter`.
#[verifier::external_body]
pub(crate) fn captures_in(matcher: &Matcher, haystack: &str) -> (r: Option<Vec<Option<String>>>)
    ensures
        found_view(r) == regex_captures(matcher.source(), haystack@),
{
    matcher.compiled.captures(haystack).map(
        |found| found.iter().map(|m| m.map(|m| m.as_str().to_string())).collect(),
    )
}

/// Compiles `pattern` and searches `haystack` with it, once.
pub fn capture(pattern: &str, haystack: &str) -> (r: Result<Option<Vec<Option<String>>>, String>)
    ensures
        search_view(r) == search(pattern@, haystack@),
{
    match compile(pattern) {
        Ok(matcher) => Ok(captures_in(&matcher, haystack)),
        Err(e) => Err(e),
    }
}

/// A copy of group `i`, `None` where the match has no such group or the group took no part.
pub fn group_text(groups: &Vec<Option<String>>, i: usize) -> (r: Option<String>)
    ensures
        optional_text(r) == group(groups_view(groups@), i as int),
{
    if i < groups.len() {
        copy_optional_text(&groups[i])
    } else {
        None
    }
}

} // verus!
