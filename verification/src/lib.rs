//! Retention planning for Nix profile generations and indirect garbage-collector
//! roots, together with the small pure helpers of the `nh` command line.
//!
//! Every function here works on plain values: the caller lists directories,
//! reads link targets and clocks, and hands the results in.

pub mod time;
pub mod pattern;
pub mod text;
pub mod generations;
pub mod planner;
pub mod gcroots;
pub mod discovery;
pub mod clean;
pub mod report;
pub mod passthrough;
pub mod util;
pub mod search;
pub mod args;
pub mod checks;
