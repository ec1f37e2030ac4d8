//! Reading what `nix --version` prints: the flavour of Nix and its version.

use vstd::prelude::*;
use vstd::string::{StrSliceExecFns, StringExecFns};
use crate::pattern::{captures, group_text, groups_view, pattern_compiles, pattern_groups};
use crate::text::{same_text, texts};

verus! {

/// The flavours of Nix that are told apart.
#[derive(Debug, Clone, Copy, PartialEq, Eq, Structural)]
pub enum NixVariant {
    Nix,
    Lix,
    Determinate,
}

/// The lower-case form of a text, as `str::to_lowercase` gives it.
pub uninterp spec fn lowercase_of(s: Seq<char>) -> Seq<char>;

/// `needle` occurs in `s` as a run of consecutive characters.
pub open spec fn has_substring(s: Seq<char>, needle: Seq<char>) -> bool {
    exists|i: int|
        0 <= i && i + needle.len() <= s.len() && #[trigger] s.subrange(i, i + needle.len())
            == needle
}

/// Calls `str::to_lowercase`.
///
/// Trusted: the result is the text that `lowercase_of` names.
#[verifier::external_body]
fn to_lowercase(s: &str) -> (r: String)
    ensures
        r@ == lowercase_of(s@),
{
    s.to_lowercase()
}

/// Whether `needle` stands in `s` at position `at`.
fn occurs_at(s: &str, needle: &str, at: usize) -> (b: bool)
    requires
        at + needle@.len() <= s@.len(),
    ensures
        b == (s@.subrange(at as int, at + needle@.len()) == needle@),
{
    let n: usize = s.unicode_len();
    let m: usize = needle.unicode_len();
    let mut j: usize = 0;
    while j < m
        invariant
            n == s@.len(),
            m == needle@.len(),
            at + m <= s@.len(),
            j <= m,
            forall|k: int| 0 <= k < j ==> s@[at + k] == #[trigger] needle@[k],
        decreases m - j,
    {
        if s.get_char(at + j) != needle.get_char(j) {
            assert(s@.subrange(at as int, at + m)[j as int] != needle@[j as int]);
            return false;
        }
        j = j + 1;
    }
    assert(s@.subrange(at as int, at + m) =~= needle@);
    true
}

/// Whether `needle` occurs in `s`.
pub fn contains_text(s: &str, needle: &str) -> (b: bool)
    ensures
        b == has_substring(s@, needle@),
{
    let n: usize = s.unicode_len();
    let m: usize = needle.unicode_len();
    if m > n {
        return false;
    }
    if m == 0 {
        assert(s@.subrange(0int, 0int + needle@.len()) =~= needle@);
        return true;
    }
    let mut i: usize = 0;
    while i <= n - m
        invariant
            n == s@.len(),
            m == needle@.len(),
            1 <= m <= n,
            i <= n - m + 1,
            forall|k: int| 0 <= k < i ==> #[trigger] s@.subrange(k, k + m) != needle@,
        decreases n - m + 1 - i,
    {
        if occurs_at(s, needle, i) {
            return true;
        }
        i = i + 1;
    }
    false
}

/// The variant that a lower-cased version banner names: Determinate if it
/// says so, else Lix if it says so, else plain Nix.
pub open spec fn variant_named(lower: Seq<char>) -> NixVariant {
    if has_substring(lower, "determinate"@) {
        NixVariant::Determinate
    } else if has_substring(lower, "lix"@) {
        NixVariant::Lix
    } else {
        NixVariant::Nix
    }
}

/// Tells the variant from a version banner that is already in lower case.
pub fn variant_from_lowercase(lower: &str) -> (v: NixVariant)
    ensures
        v == variant_named(lower@),
{
    if contains_text(lower, "determinate") {
        NixVariant::Determinate
    } else if contains_text(lower, "lix") {
        NixVariant::Lix
    } else {
        NixVariant::Nix
    }
}

/// Tells the variant of Nix from what `nix --version` printed. Without any
/// output it is taken to be plain Nix.
pub fn get_nix_variant(output: Option<&str>) -> (v: NixVariant)
    ensures
        v == match output {
            Some(o) => variant_named(lowercase_of(o@)),
            None => NixVariant::Nix,
        },
{
    match output {
        Some(o) => {
            let lower = to_lowercase(o);
            variant_from_lowercase(lower.as_str())
        },
        None => NixVariant::Nix,
    }
}

/// Major, minor and optional patch number, with an optional `pre` suffix.
pub open spec fn version_pattern() -> Seq<char> {
    "(\\d+)\\.(\\d+)(?:\\.(\\d+))?(?:pre\\d*)?"@
}

/// The characters at which the fallback cuts a version off.
pub open spec fn is_separator(c: char) -> bool {
    c == '-' || c == '+' || c == 'p' || c == '_'
}

/// `k` is where the first separator of `version` stands, or its length if
/// it has none.
pub open spec fn cuts_at(version: Seq<char>, k: int) -> bool {
    &&& 0 <= k <= version.len()
    &&& forall|j: int| 0 <= j < k ==> !is_separator(#[trigger] version[j])
    &&& k == version.len() || is_separator(version[k])
}

/// The part of `version` before its first separator.
pub open spec fn base_version(version: Seq<char>) -> Seq<char> {
    version.take(choose|k: int| cuts_at(version, k))
}

/// Number of dots in a text.
pub open spec fn dot_count(s: Seq<char>) -> nat
    decreases s.len(),
{
    if s.len() == 0 {
        0
    } else {
        dot_count(s.drop_last()) + if s.last() == '.' {
            1nat
        } else {
            0nat
        }
    }
}

/// A base version filled up to three components: one component gets `.0.0`,
/// two get `.0`, anything else stays as it is.
pub open spec fn filled_up(base: Seq<char>) -> Seq<char> {
    if dot_count(base) == 0 {
        base + ".0.0"@
    } else if dot_count(base) == 1 {
        base + ".0"@
    } else {
        base
    }
}

/// Group `index` of a match, or `default` if the group took no part.
pub open spec fn group_or(groups: Seq<Option<Seq<char>>>, index: int, default: Seq<char>) -> Seq<
    char,
> {
    if 0 <= index < groups.len() && groups[index] is Some {
        groups[index].unwrap()
    } else {
        default
    }
}

/// The normal form of `version`, given the groups that the version pattern
/// captured in it: with a match `major.minor.patch`, the patch being `0` if
/// it was not written; without a match the base version filled up.
pub open spec fn normalized(version: Seq<char>, groups: Option<Seq<Option<Seq<char>>>>) -> Seq<
    char,
> {
    match groups {
        Some(g) => group_or(g, 1, version) + "."@ + group_or(g, 2, version) + "."@ + group_or(
            g,
            3,
            "0"@,
        ),
        None => filled_up(base_version(version)),
    }
}

/// Counts the dots of `s`, stopping at two.
fn dots_up_to_two(s: &str) -> (d: usize)
    ensures
        d <= 2,
        d < 2 ==> d == dot_count(s@),
        d == 2 ==> dot_count(s@) >= 2,
{
    let n: usize = s.unicode_len();
    let mut d: usize = 0;
    let mut i: usize = 0;
    while i < n
        invariant
            n == s@.len(),
            i <= n,
            d <= 2,
            d < 2 ==> d == dot_count(s@.take(i as int)),
            d == 2 ==> dot_count(s@.take(i as int)) >= 2,
        decreases n - i,
    {
        assert(s@.take(i + 1).drop_last() =~= s@.take(i as int));
        assert(s@.take(i + 1).last() == s@[i as int]);
        if s.get_char(i) == '.' && d < 2 {
            d = d + 1;
        }
        i = i + 1;
    }
    assert(s@.take(i as int) =~= s@);
    d
}

/// Cuts `version` off at its first separator and fills the rest up to
/// three components.
pub fn normalize_fallback(version: &str) -> (r: String)
    ensures
        r@ == filled_up(base_version(version@)),
{
    let n: usize = version.unicode_len();
    let mut k: usize = 0;
    let mut cut: bool = false;
    while k < n && !cut
        invariant
            n == version@.len(),
            k <= n,
            forall|j: int| 0 <= j < k ==> !is_separator(#[trigger] version@[j]),
            cut ==> k < n && is_separator(version@[k as int]),
        decreases n - k + (if cut { 0int } else { 1int }),
    {
        let c: char = version.get_char(k);
        if c == '-' || c == '+' || c == 'p' || c == '_' {
            cut = true;
        } else {
            k = k + 1;
        }
    }
    proof {
        assert(cuts_at(version@, k as int));
        let chosen = choose|c: int| cuts_at(version@, c);
        assert(cuts_at(version@, chosen));
        if chosen < k {
            assert(!is_separator(version@[chosen]));
        }
        if k < chosen {
            assert(!is_separator(version@[k as int]));
        }
        assert(chosen == k);
    }
    let base = version.substring_char(0, k);
    assert(base@ == base_version(version@));
    let dots = dots_up_to_two(base);
    let mut r = base.to_owned();
    if dots == 0 {
        r.append(".0.0");
    } else if dots == 1 {
        r.append(".0");
    }
    r
}

/// Normalizes `version` from the groups that the version pattern captured
/// in it, `None` standing for no match.
pub fn normalize_with(version: &str, groups: &Option<Vec<Option<String>>>) -> (r: String)
    ensures
        r@ == normalized(version@, groups_view(*groups)),
{
    if groups.is_none() {
        return normalize_fallback(version);
    }
    let major = group_text(groups, 1);
    let minor = group_text(groups, 2);
    let patch = group_text(groups, 3);
    let mut r = match major {
        Some(m) => m.to_owned(),
        None => version.to_owned(),
    };
    r.append(".");
    match minor {
        Some(m) => r.append(m),
        None => r.append(version),
    }
    r.append(".");
    match patch {
        Some(p) => r.append(p),
        None => r.append("0"),
    }
    assert(r@ =~= normalized(version@, groups_view(*groups)));
    r
}

/// Normalizes a version as Nix vendors write it, so that it has exactly
/// the components `major.minor.patch` wherever the version pattern finds
/// them: `2.25.0-pre` gives `2.25.0`, `2.30pre20250521_76a4d4c2` gives
/// `2.30.0`. Where the pattern finds nothing, or the engine refuses the
/// pattern, the version is cut at its first separator and filled up.
pub fn normalize_version_string(version: &str) -> (r: String)
    ensures
        r@ == normalized(
            version@,
            if pattern_compiles(version_pattern()) {
                pattern_groups(version_pattern(), version@)
            } else {
                None
            },
        ),
{
    match captures("(\\d+)\\.(\\d+)(?:\\.(\\d+))?(?:pre\\d*)?", version) {
        Ok(groups) => normalize_with(version, &groups),
        Err(_) => normalize_fallback(version),
    }
}

/// The required features that are not among the enabled ones, in the order
/// in which they are required.
pub open spec fn missing_features(required: Seq<Seq<char>>, enabled: Seq<Seq<char>>) -> Seq<
    Seq<char>,
>
    decreases required.len(),
{
    if required.len() == 0 {
        Seq::empty()
    } else if enabled.contains(required.last()) {
        missing_features(required.drop_last(), enabled)
    } else {
        missing_features(required.drop_last(), enabled).push(required.last())
    }
}

fn has_feature(enabled: &Vec<String>, feature: &str) -> (b: bool)
    ensures
        b == texts(enabled@).contains(feature@),
{
    let n: usize = enabled.len();
    let mut i: usize = 0;
    while i < n
        invariant
            n == enabled@.len(),
            i <= n,
            forall|j: int| 0 <= j < i ==> #[trigger] texts(enabled@)[j] != feature@,
        decreases n - i,
    {
        if same_text(enabled[i].as_str(), feature) {
            assert(texts(enabled@)[i as int] == feature@);
            return true;
        }
        i = i + 1;
    }
    false
}

/// Picks out of `required` the experimental features that are not enabled.
pub fn get_missing_experimental_features(required: &Vec<String>, enabled: &Vec<String>) -> (r: Vec<
    String,
>)
    ensures
        texts(r@) == missing_features(texts(required@), texts(enabled@)),
{
    let mut r: Vec<String> = Vec::new();
    let n: usize = required.len();
    let mut i: usize = 0;
    let ghost all = texts(required@);
    let ghost on = texts(enabled@);
    assert(texts(r@) =~= missing_features(all.take(0), on));
    while i < n
        invariant
            n == required@.len(),
            i <= n,
            all == texts(required@),
            on == texts(enabled@),
            texts(r@) == missing_features(all.take(i as int), on),
        decreases n - i,
    {
        let ghost before = texts(r@);
        assert(all.take(i + 1).drop_last() =~= all.take(i as int));
        assert(all.take(i + 1).last() == all[i as int]);
        if !has_feature(enabled, required[i].as_str()) {
            r.push(required[i].clone());
            assert(texts(r@) =~= before.push(all[i as int]));
        }
        i = i + 1;
    }
    assert(all.take(n as int) =~= all);
    r
}

/// What the system says its name is.
#[derive(Debug)]
pub enum SystemName {
    /// The name could not be asked for.
    Unavailable,
    /// The name is not valid Unicode.
    NotUnicode,
    Name(String),
}

/// The name that stands for a host: the one supplied if there is one, else
/// the system's; `unknown-hostname` if that is not Unicode; `None` if it
/// could not be had.
pub open spec fn hostname_of(supplied: Option<String>, system: SystemName) -> Option<Seq<char>> {
    match supplied {
        Some(h) => Some(h@),
        None => match system {
            SystemName::Unavailable => None,
            SystemName::NotUnicode => Some("unknown-hostname"@),
            SystemName::Name(n) => Some(n@),
        },
    }
}

/// Settles on the hostname of the current system.
pub fn get_hostname(supplied: Option<String>, system: SystemName) -> (r: Option<String>)
    ensures
        r is Some <==> hostname_of(supplied, system) is Some,
        r is Some ==> r.unwrap()@ == hostname_of(supplied, system).unwrap(),
{
    if let Some(h) = supplied {
        return Some(h);
    }
    match system {
        SystemName::Unavailable => None,
        SystemName::NotUnicode => Some("unknown-hostname".to_owned()),
        SystemName::Name(n) => Some(n),
    }
}

} // verus!
