//! Is the installed Nix recent enough?

use vstd::prelude::*;

verus! {

#[verifier::external_type_specification]
#[verifier::external_body]
pub struct ExSemverError(semver::Error);

/// Whether `semver::Version::parse` accepts `text`.
pub uninterp spec fn is_semver(text: Seq<char>) -> bool;

/// Whether the version that `a` writes comes before the one that `b` writes
/// in the order of `semver::Version`.
pub uninterp spec fn semver_precedes(a: Seq<char>, b: Seq<char>) -> bool;

/// Parses both texts with `semver::Version::parse` and compares the versions
/// with `<`.
///
/// Trusted: the call fails exactly if one of the texts is no version; else
/// the answer is the one `semver_precedes` names.
#[verifier::external_body]
fn older_than(current: &str, required: &str) -> (r: Result<bool, semver::Error>)
    ensures
        r is Ok <==> (is_semver(current@) && is_semver(required@)),
        r is Ok ==> r.unwrap() == semver_precedes(current@, required@),
{
    let current = semver::Version::parse(current)?;
    let required = semver::Version::parse(required)?;
    Ok(current < required)
}

/// What the check of the version found.
#[derive(Clone, Copy, Debug, PartialEq, Eq, Structural)]
pub enum VersionCheck {
    /// The version is recent enough, or checks are switched off.
    Fine,
    /// The version is older than the recommended minimum: worth a warning,
    /// no reason to stop.
    Outdated,
}

/// Why the version could not be checked.
#[derive(Clone, Copy, Debug, PartialEq, Eq, Structural)]
pub enum VersionError {
    /// The version, or the minimum, is not written as a semantic version.
    NotAVersion,
}

/// The oldest version that is recommended, for Lix and for Nix.
pub open spec fn minimum(is_lix: bool) -> Seq<char> {
    if is_lix {
        "2.91.1"@
    } else {
        "2.24.14"@
    }
}

/// The oldest version that is recommended.
pub fn minimum_version(is_lix: bool) -> (v: &'static str)
    ensures
        v@ == minimum(is_lix),
{
    if is_lix {
        "2.91.1"
    } else {
        "2.24.14"
    }
}

/// Turns the comparison with the minimum into the result of the check.
pub fn version_verdict(older: bool) -> (v: VersionCheck)
    ensures
        v == (if older {
            VersionCheck::Outdated
        } else {
            VersionCheck::Fine
        }),
{
    if older {
        VersionCheck::Outdated
    } else {
        VersionCheck::Fine
    }
}

/// Checks the installed version against the recommended minimum. With
/// `no_checks` nothing is looked at.
pub fn check_nix_version(no_checks: bool, version: &str, is_lix: bool) -> (r: Result<
    VersionCheck,
    VersionError,
>)
    ensures
        no_checks ==> r == Ok::<VersionCheck, VersionError>(VersionCheck::Fine),
        !no_checks && !(is_semver(version@) && is_semver(minimum(is_lix))) ==> r == Err::<
            VersionCheck,
            VersionError,
        >(VersionError::NotAVersion),
        !no_checks && is_semver(version@) && is_semver(minimum(is_lix)) ==> r == Ok::<
            VersionCheck,
            VersionError,
        >(
            if semver_precedes(version@, minimum(is_lix)) {
                VersionCheck::Outdated
            } else {
                VersionCheck::Fine
            },
        ),
{
    if no_checks {
        return Ok(VersionCheck::Fine);
    }
    match older_than(version, minimum_version(is_lix)) {
        Ok(older) => Ok(version_verdict(older)),
        Err(_) => Err(VersionError::NotAVersion),
    }
}

} // verus!
