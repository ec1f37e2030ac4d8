//! Regular-expression matching, delegated to the `regex` crate.
//!
//! What the engine decides is not restated here. Each decision has a name, a
//! function of the pattern text and the haystack alone, and the wrappers below
//! promise that the engine's answer equals it. A wrapper takes the pattern as
//! text and compiles it before it asks, so that its promise holds of every
//! pattern and every haystack.

use vstd::prelude::*;

verus! {

#[verifier::external_type_specification]
#[verifier::external_body]
pub struct ExRegexError(regex::Error);

/// Whether `regex::Regex::new` accepts `pattern` under the default limits.
pub uninterp spec fn pattern_compiles(pattern: Seq<char>) -> bool;

/// Whether a compiled `pattern` matches anywhere in `text`
/// (`regex::Regex::is_match`).
pub uninterp spec fn pattern_found(pattern: Seq<char>, text: Seq<char>) -> bool;

/// The capture groups of the leftmost match of a compiled `pattern` in `text`
/// (`regex::Regex::captures`): `None` without a match, else one entry per group
/// in order, group 0 being the whole match, `None` for a group that took no part.
pub uninterp spec fn pattern_groups(pattern: Seq<char>, text: Seq<char>) -> Option<
    Seq<Option<Seq<char>>>,
>;

/// Group `index` of the leftmost match, if there is a match and the group took part.
pub open spec fn captured(pattern: Seq<char>, text: Seq<char>, index: int) -> Option<Seq<char>> {
    match pattern_groups(pattern, text) {
        Some(groups) => if 0 <= index < groups.len() {
            groups[index]
        } else {
            None
        },
        None => None,
    }
}

/// Calls `regex::Regex::new` and drops the compiled expression.
///
/// Trusted: the call succeeds exactly on the patterns that `pattern_compiles` names.
#[verifier::external_body]
pub(crate) fn check_pattern(pattern: &str) -> (r: Result<(), regex::Error>)
    ensures
        r is Ok <==> pattern_compiles(pattern@),
{
    regex::Regex::new(pattern).map(|_| ())
}

/// Compiles `pattern` and calls `regex::Regex::is_match` on `text`.
///
/// Trusted: a pattern that does not compile gives the engine's error; otherwise
/// the answer is the one `pattern_found` names.
#[verifier::external_body]
pub(crate) fn is_match(pattern: &str, text: &str) -> (r: Result<bool, regex::Error>)
    ensures
        r is Ok <==> pattern_compiles(pattern@),
        r is Ok ==> r.unwrap() == pattern_found(pattern@, text@),
{
    let re = regex::Regex::new(pattern)?;
    Ok(re.is_match(text))
}

/// Compiles `pattern`, calls `regex::Regex::captures` on `text` and copies each
/// group's text out.
///
/// Trusted: a pattern that does not compile gives the engine's error; otherwise
/// the groups are those `pattern_groups` names.
#[verifier::external_body]
pub(crate) fn captures(pattern: &str, text: &str) -> (r: Result<
    Option<Vec<Option<String>>>,
    regex::Error,
>)
    ensures
        r is Ok <==> pattern_compiles(pattern@),
        r is Ok ==> groups_view(r.unwrap()) == pattern_groups(pattern@, text@),
{
    let re = regex::Regex::new(pattern)?;
    Ok(re.captures(text).map(|c| c.iter().map(|m| m.map(|m| m.as_str().to_owned())).collect()))
}

/// The groups of a match as sequences of characters.
pub open spec fn groups_view(groups: Option<Vec<Option<String>>>) -> Option<
    Seq<Option<Seq<char>>>,
> {
    match groups {
        Some(v) => Some(
            Seq::new(
                v@.len(),
                |i: int|
                    match v@[i] {
                        Some(s) => Some(s@),
                        None => None,
                    },
            ),
        ),
        None => None,
    }
}

/// The characters of an optional text.
pub open spec fn option_text(s: Option<&str>) -> Option<Seq<char>> {
    match s {
        Some(t) => Some(t@),
        None => None,
    }
}

/// Group `index` of a match, if the group took part.
pub fn group_text(groups: &Option<Vec<Option<String>>>, index: usize) -> (r: Option<&str>)
    ensures
        option_text(r) == match groups_view(*groups) {
            Some(g) => if index < g.len() {
                g[index as int]
            } else {
                None
            },
            None => None,
        },
{
    match groups {
        Some(v) => {
            if index < v.len() {
                match &v[index] {
                    Some(s) => Some(s.as_str()),
                    None => None,
                }
            } else {
                None
            }
        },
        None => None,
    }
}

} // verus!
