//! Line patterns: regular expressions compiled and matched by the `regex`
//! crate. What the engine answers is named here, not restated.

use crate::error::ProbeFault;
use regex::Regex;
use vstd::prelude::*;

verus! {

/// `regex::Regex`, a compiled expression, carried as an opaque value.
#[verifier::external_type_specification]
#[verifier::external_body]
pub struct ExRegex(regex::Regex);

/// `regex::Error`, the reason why a pattern was not compiled, carried as an
/// opaque value.
#[verifier::external_type_specification]
#[verifier::external_body]
pub struct ExRegexError(regex::Error);

/// The texts of one match, by capture group: the whole match first, nothing
/// in the place of a group that took no part.
pub type Groups = Vec<Option<Vec<char>>>;

/// What [`Groups`] stand for in contracts.
pub type GroupTexts = Seq<Option<Seq<char>>>;

/// Whether `Regex::new` accepts `pattern`.
pub uninterp spec fn regex_accepts(pattern: Seq<char>) -> bool;

/// The pattern that a compiled expression was made from, which
/// `Regex::as_str` gives back.
pub uninterp spec fn regex_source(re: Regex) -> Seq<char>;

/// What `Regex::captures` answers for an expression compiled from `pattern`
/// on `haystack`: nothing if there is no match, else the text of each
/// capture group of the leftmost match, the whole match first, with nothing
/// in the place of a group that took no part.
pub uninterp spec fn regex_captures(pattern: Seq<char>, haystack: Seq<char>) -> Option<
    Seq<Option<Seq<char>>>,
>;

/// The texts of one match, by capture group.
pub open spec fn groups_view(groups: Seq<Option<Vec<char>>>) -> GroupTexts {
    groups.map_values(
        |g: Option<Vec<char>>|
            match g {
                Some(text) => Some(text@),
                None => None,
            },
    )
}

/// The answer of a match attempt, by capture group.
pub open spec fn captures_view(found: Option<Groups>) -> Option<GroupTexts> {
    match found {
        Some(groups) => Some(groups_view(groups@)),
        None => None,
    }
}

/// The text of group `index` of a match, if the match has that group and the
/// group took part.
pub open spec fn group_text(groups: GroupTexts, index: int) -> Option<Seq<char>> {
    if 0 <= index < groups.len() {
        groups[index]
    } else {
        None
    }
}

/// A compiled line pattern. The expression inside is always one that
/// `Regex::new` made, with the engine's default settings.
pub struct LinePattern {
    regex: Regex,
}

/// Calls `regex::Regex::new`. The claim: it succeeds on the patterns that
/// [`regex_accepts`] names, a function of the pattern alone, and the
/// expression it gives reports that pattern as its source, as
/// `Regex::as_str` documents.
#[verifier::external_body]
fn regex_compile(pattern: &str) -> (r: Result<LinePattern, regex::Error>)
    ensures
        r is Ok <==> regex_accepts(pattern@),
        r matches Ok(compiled) ==> regex_source(compiled.regex) == pattern@,
{
    Regex::new(pattern).map(|regex| LinePattern { regex })
}

/// Calls `regex::Regex::captures` and copies out the text of each group as
/// `Captures::iter` yields them. The claim: the answer is
/// [`regex_captures`] of the pattern's source and the haystack, a function
/// of those two alone.
#[verifier::external_body]
fn regex_find_groups(pattern: &LinePattern, haystack: &Vec<char>) -> (r: Option<Groups>)
    ensures
        captures_view(r) == regex_captures(regex_source(pattern.regex), haystack@),
{
    let text: String = haystack.iter().collect();
    pattern.regex.captures(&text).map(
        |caps| caps.iter().map(|g| g.map(|m| m.as_str().chars().collect())).collect(),
    )
}

impl LinePattern {
    /// The pattern as it was written.
    pub closed spec fn source(&self) -> Seq<char> {
        regex_source(self.regex)
    }

    /// Compiles `pattern`; fails with [`ProbeFault::Pattern`] exactly when the
    /// engine does not accept it.
    pub fn compile(pattern: &str) -> (r: Result<LinePattern, ProbeFault>)
        ensures
            r is Ok <==> regex_accepts(pattern@),
            r matches Ok(p) ==> p.source() == pattern@,
            r matches Err(e) ==> e == ProbeFault::Pattern,
    {
        match regex_compile(pattern) {
            Ok(compiled) => Ok(compiled),
            Err(_) => Err(ProbeFault::Pattern),
        }
    }

    /// Matches the pattern against `line`.
    pub fn captures(&self, line: &Vec<char>) -> (r: Option<Groups>)
        ensures
            captures_view(r) == regex_captures(self.source(), line@),
    {
        regex_find_groups(self, line)
    }
}

/// The text of group `index` of a match.
pub fn group_of(groups: &Groups, index: usize) -> (r: Option<&Vec<char>>)
    ensures
        match r {
            Some(text) => group_text(groups_view(groups@), index as int) == Some(text@),
            None => group_text(groups_view(groups@), index as int) is None,
        },
{
    if index < groups.len() {
        groups[index].as_ref()
    } else {
        None
    }
}

} // verus!
