//! Regular expressions.

use vstd::prelude::*;

use crate::text::{begins_with, contains, contains_text, starts_with, trim, trimmed};

verus! {

/// The groups of the first place where the pattern matches, as `regex::Regex::captures` finds them.
pub uninterp spec fn captured(pattern: Seq<char>, text: Seq<char>) -> Option<
    Seq<Option<Seq<char>>>,
>;

/// The groups of each place where the pattern matches, as `regex::Regex::captures_iter` finds them.
pub uninterp spec fn all_captured(pattern: Seq<char>, text: Seq<char>) -> Seq<
    Seq<Option<Seq<char>>>,
>;

/// `regex::Regex::captures`: the groups of the first match, the whole match first; a group that
/// took no part is left out. Nothing where the pattern does not match, or is none.
#[verifier::external_body]
pub(crate) fn captures(pattern: &str, text: &str) -> (r: Option<Vec<Option<String>>>)
    ensures
        r.deep_view() == captured(pattern@, text@),
        r matches Some(groups) ==> groups@.len() > 0 && groups@[0] is Some,
{
    let found = regex::Regex::new(pattern).ok()?;
    let groups = found.captures(text)?;
    Some(groups.iter().map(|g| g.map(|m| m.as_str().to_string())).collect())
}

/// `regex::Regex::captures_iter`: the groups of each match, from left to right without overlap.
/// Nothing where the pattern does not match, or is none.
#[verifier::external_body]
pub(crate) fn captures_all(pattern: &str, text: &str) -> (r: Vec<Vec<Option<String>>>)
    ensures
        r.deep_view() == all_captured(pattern@, text@),
{
    regex::Regex::new(pattern).into_iter().flat_map(
        |found| {
            found.captures_iter(text).map(
                |c| c.iter().map(|g| g.map(|m| m.as_str().to_string())).collect(),
            ).collect::<Vec<_>>()
        },
    ).collect()
}

/// The text of a group, where the pattern matches and the group took part.
pub open spec fn group_in(pattern: Seq<char>, text: Seq<char>, n: int) -> Option<Seq<char>> {
    match captured(pattern, text) {
        Some(groups) => group_of(groups, n),
        None => None,
    }
}

pub open spec fn group_of(groups: Seq<Option<Seq<char>>>, n: int) -> Option<Seq<char>> {
    if 0 <= n < groups.len() {
        groups[n]
    } else {
        None
    }
}

pub fn get_group(groups: &Vec<Option<String>>, n: usize) -> (r: Option<String>)
    ensures
        r.deep_view() == group_of(groups.deep_view(), n as int),
{
    assert(groups.deep_view().len() == groups@.len());
    if n < groups.len() {
        assert(groups.deep_view()[n as int] == groups@[n as int].deep_view());
        match &groups[n] {
            Some(s) => Some(s.clone()),
            None => None,
        }
    } else {
        None
    }
}

pub fn find_group(pattern: &str, text: &str, n: usize) -> (r: Option<String>)
    ensures
        r.deep_view() == group_in(pattern@, text@, n as int),
{
    match captures(pattern, text) {
        Some(groups) => get_group(&groups, n),
        None => None,
    }
}

/// The groups of the first match, looked for only in a text that holds a word of the pattern. A
/// pattern that spells a word out matches no text without it, and the test spares its compilation.
pub open spec fn captured_with(word: Seq<char>, pattern: Seq<char>, text: Seq<char>) -> Option<
    Seq<Option<Seq<char>>>,
> {
    if contains_text(text, word) {
        captured(pattern, text)
    } else {
        None
    }
}

pub fn captures_with(word: &str, pattern: &str, text: &str) -> (r: Option<Vec<Option<String>>>)
    ensures
        r.deep_view() == captured_with(word@, pattern@, text@),
{
    if contains(text, word) {
        captures(pattern, text)
    } else {
        None
    }
}

/// The groups of the first match of a pattern that spells a word out right behind the space at the
/// start of a text, looked for only where the word stands there.
pub open spec fn captured_behind(word: Seq<char>, pattern: Seq<char>, text: Seq<char>) -> Option<
    Seq<Option<Seq<char>>>,
> {
    if begins_with(trimmed(text), word) {
        captured(pattern, text)
    } else {
        None
    }
}

pub fn captures_behind(word: &str, pattern: &str, text: &str) -> (r: Option<Vec<Option<String>>>)
    ensures
        r.deep_view() == captured_behind(word@, pattern@, text@),
{
    if starts_with(trim(text).as_str(), word) {
        captures(pattern, text)
    } else {
        None
    }
}

/// The text of a group of a pattern that spells a word out.
pub open spec fn group_with(word: Seq<char>, pattern: Seq<char>, text: Seq<char>, n: int) -> Option<
    Seq<char>,
> {
    match captured_with(word, pattern, text) {
        Some(groups) => group_of(groups, n),
        None => None,
    }
}

pub fn find_group_with(word: &str, pattern: &str, text: &str, n: usize) -> (r: Option<String>)
    ensures
        r.deep_view() == group_with(word@, pattern@, text@, n as int),
{
    match captures_with(word, pattern, text) {
        Some(groups) => get_group(&groups, n),
        None => None,
    }
}

} // verus!
