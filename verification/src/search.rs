//! Package search: its options and the channels it accepts.

use vstd::prelude::*;
use crate::pattern::{is_match, pattern_compiles, pattern_found};
use crate::text::same_text;

verus! {

/// Options of a package search on search.nixos.org.
#[derive(Debug)]
pub struct SearchArgs {
    /// Number of search results to display.
    pub limit: u64,
    /// Name of the channel to query.
    pub channel: String,
    /// Show supported platforms for each package.
    pub platforms: bool,
    /// Output results as JSON.
    pub json: bool,
    /// Name of the package to search.
    pub query: Vec<String>,
}

/// Where the package set of a search comes from.
#[derive(Debug, Clone, Copy, PartialEq, Eq, Structural)]
pub enum SearchNixpkgsFrom {
    Flake,
    Path,
}

/// A release channel: `nixos-`, digits, a dot, digits, anywhere in the name.
pub open spec fn release_pattern() -> Seq<char> {
    "nixos-[0-9]+\\.[0-9]+"@
}

/// The channels that can be searched: `nixos-unstable`, and every release
/// channel but the retired `nixos-24.05`.
pub open spec fn is_supported(branch: Seq<char>) -> bool {
    branch == "nixos-unstable"@ || (branch != "nixos-24.05"@ && pattern_compiles(
        release_pattern(),
    ) && pattern_found(release_pattern(), branch))
}

/// Whether the channel `branch` can be searched.
pub fn supported_branch(branch: &str) -> (b: bool)
    ensures
        b == is_supported(branch@),
{
    if same_text(branch, "nixos-unstable") {
        return true;
    }
    if same_text(branch, "nixos-24.05") {
        return false;
    }
    match is_match("nixos-[0-9]+\\.[0-9]+", branch) {
        Ok(b) => b,
        Err(_) => false,
    }
}

} // verus!
