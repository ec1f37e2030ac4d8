use nh::gcroots::{is_candidate, judge, GcRootEntry, GcRootPlan, Probe, ScanError, Verdict};
use nh::time::{Span, Timestamp};

const HOUR: i128 = 3_600_000_000_000;
const NOW: Timestamp = Timestamp { nanos: 1_000 * HOUR };

fn ago(nanos: i128) -> Option<Timestamp> {
    Some(Timestamp { nanos: NOW.nanos - nanos })
}

fn root(target: &str) -> GcRootEntry {
    GcRootEntry { root_link: "/nix/var/nix/gcroots/auto/abc".to_string(), target: target.to_string() }
}

fn one_hour() -> Span {
    Span { nanos: HOUR as u128 }
}

fn entries(plan: &GcRootPlan) -> Vec<(String, bool)> {
    (0..plan.len()).map(|i| (plan.target(i).clone(), plan.is_removed(i))).collect()
}

#[test]
fn allow_list_takes_direnv_caches_and_build_results() {
    assert_eq!(is_candidate("/home/u/proj/.direnv/flake-profile"), Ok(true));
    assert_eq!(is_candidate("/home/u/proj/result"), Ok(true));
    assert_eq!(is_candidate("/home/u/proj/result-dev"), Ok(true));
    assert_eq!(is_candidate("/home/u/results/x"), Ok(true));
    assert_eq!(is_candidate("/home/u/proj/Xdirenv/x"), Ok(true));
    assert_eq!(is_candidate("/home/u/proj/.direnv"), Ok(false));
    assert_eq!(is_candidate("/nix/var/nix/profiles/system"), Ok(false));
    assert_eq!(is_candidate(""), Ok(false));
}

#[test]
fn a_target_off_the_allow_list_never_enters_the_plan() {
    let mut plan = GcRootPlan::new();
    for probe in [Probe::Accessible, Probe::NotFound, Probe::PermissionDenied, Probe::Failed(5)] {
        for keep_since in [0u128, HOUR as u128, u128::MAX] {
            let r = plan.record(&root("/home/u/other"), probe, ago(0), NOW, Span { nanos: keep_since });
            assert_eq!(r, Ok(Verdict::Ignore));
        }
    }
    assert!(plan.is_empty());
}

#[test]
fn an_absent_or_forbidden_target_never_enters_the_plan() {
    let mut plan = GcRootPlan::new();
    let r = plan.record(&root("/home/u/result"), Probe::NotFound, ago(0), NOW, one_hour());
    assert_eq!(r, Ok(Verdict::Ignore));
    let r = plan.record(&root("/home/u/result"), Probe::PermissionDenied, None, NOW, one_hour());
    assert_eq!(r, Ok(Verdict::Ignore));
    assert!(plan.is_empty());
}

#[test]
fn roots_are_judged_by_age_alone() {
    let mut plan = GcRootPlan::new();
    assert_eq!(
        plan.record(&root("/a/result"), Probe::Accessible, ago(2 * HOUR), NOW, one_hour()),
        Ok(Verdict::Remove)
    );
    assert_eq!(
        plan.record(&root("/b/.direnv/x"), Probe::Accessible, ago(HOUR), NOW, one_hour()),
        Ok(Verdict::Keep)
    );
    assert_eq!(
        plan.record(&root("/c/result"), Probe::Accessible, ago(-1), NOW, one_hour()),
        Ok(Verdict::Ignore)
    );
    assert_eq!(
        entries(&plan),
        vec![("/a/result".to_string(), true), ("/b/.direnv/x".to_string(), false)]
    );
}

#[test]
fn a_target_reached_twice_has_one_entry_with_the_later_flag() {
    let mut plan = GcRootPlan::new();
    plan.insert("/a/result", true);
    plan.insert("/b/result", true);
    plan.insert("/a/result", false);
    assert_eq!(
        entries(&plan),
        vec![("/a/result".to_string(), false), ("/b/result".to_string(), true)]
    );
}

#[test]
fn other_probe_failures_and_unreadable_times_stop_the_scan() {
    let mut plan = GcRootPlan::new();
    plan.insert("/a/result", true);
    assert_eq!(
        plan.record(&root("/b/result"), Probe::Failed(40), ago(0), NOW, one_hour()),
        Err(ScanError::ProbeFailed(40))
    );
    assert_eq!(
        plan.record(&root("/b/result"), Probe::Accessible, None, NOW, one_hour()),
        Err(ScanError::NoModificationTime)
    );
    assert_eq!(entries(&plan), vec![("/a/result".to_string(), true)]);
}

#[test]
fn judge_follows_the_table() {
    assert_eq!(judge(false, Probe::Failed(1), None, NOW, one_hour()), Ok(Verdict::Ignore));
    assert_eq!(judge(true, Probe::NotFound, ago(0), NOW, one_hour()), Ok(Verdict::Ignore));
    assert_eq!(judge(true, Probe::PermissionDenied, ago(0), NOW, one_hour()), Ok(Verdict::Ignore));
    assert_eq!(judge(true, Probe::Failed(1), ago(0), NOW, one_hour()), Err(ScanError::ProbeFailed(1)));
    assert_eq!(judge(true, Probe::Accessible, ago(0), NOW, Span { nanos: 0 }), Ok(Verdict::Keep));
    assert_eq!(judge(true, Probe::Accessible, ago(1), NOW, Span { nanos: 0 }), Ok(Verdict::Remove));
}

#[test]
fn the_plan_lists_targets_in_ascending_order() {
    let mut plan = GcRootPlan::new();
    for target in ["/m/result", "/a/result", "/z/result", "/a/.direnv/x", "/m/result-2"] {
        plan.insert(target, true);
    }
    plan.insert("/m/result", false);
    assert_eq!(
        entries(&plan),
        vec![
            ("/a/.direnv/x".to_string(), true),
            ("/a/result".to_string(), true),
            ("/m/result".to_string(), false),
            ("/m/result-2".to_string(), true),
            ("/z/result".to_string(), true),
        ]
    );
}
