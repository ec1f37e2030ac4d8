use nh::generations::{Generation, GenerationPlan};
use nh::planner::{
    cleanable_generations, generation_from_capture, generation_pattern_text, LinkEntry, PlanError,
    RetentionPolicy,
};
use nh::text::{parse_u32, rank_text, same_text, Rank};
use nh::time::{elapsed_since, is_recent, Span, Timestamp};

const SECOND: i128 = 1_000_000_000;
const MINUTE: i128 = 60 * SECOND;
const HOUR: i128 = 60 * MINUTE;
const DAY: i128 = 24 * HOUR;
const NOW: i128 = 1_700_000_000 * SECOND;

fn at(nanos: i128) -> Timestamp {
    Timestamp { nanos }
}

fn link(name: &str, age: i128) -> LinkEntry {
    LinkEntry {
        name: name.to_string(),
        path: format!("/nix/var/nix/profiles/{name}"),
        modified: Some(at(NOW - age)),
    }
}

fn policy(keep: u32, keep_since: i128) -> RetentionPolicy {
    RetentionPolicy { keep, keep_since: Span { nanos: keep_since as u128 } }
}

fn tags(plan: &GenerationPlan) -> Vec<(u32, bool)> {
    (0..plan.len()).map(|i| (plan.generation(i).number, plan.is_removed(i))).collect()
}

fn system_links() -> Vec<LinkEntry> {
    vec![
        link("system-2-link", 10 * DAY),
        link("system-3-link", 30 * MINUTE),
        link("system-1-link", 30 * DAY),
        link("system", 30 * MINUTE),
        link("other-7-link", 0),
    ]
}

#[test]
fn keep_one_and_one_hour_keeps_only_the_newest() {
    let plan = cleanable_generations("system", &system_links(), at(NOW), policy(1, HOUR)).unwrap();
    assert_eq!(tags(&plan), vec![(1, true), (2, true), (3, false)]);
}

#[test]
fn keep_two_saves_a_generation_that_is_too_old() {
    let plan = cleanable_generations("system", &system_links(), at(NOW), policy(2, HOUR)).unwrap();
    assert_eq!(tags(&plan), vec![(1, true), (2, false), (3, false)]);
}

#[test]
fn count_rule_keeps_exactly_the_highest_numbers() {
    let entries: Vec<LinkEntry> =
        (1..=6).rev().map(|n| link(&format!("p-{n}-link"), n as i128 * DAY)).collect();
    for keep in 0..=6u32 {
        let plan = cleanable_generations("p", &entries, at(NOW), policy(keep, 0)).unwrap();
        let expected: Vec<(u32, bool)> = (1..=6u32).map(|n| (n, n <= 6 - keep)).collect();
        assert_eq!(tags(&plan), expected);
    }
}

#[test]
fn keep_larger_than_the_plan_keeps_everything() {
    let plan = cleanable_generations("system", &system_links(), at(NOW), policy(10, 0)).unwrap();
    assert_eq!(tags(&plan), vec![(1, false), (2, false), (3, false)]);
}

#[test]
fn age_rule_keeps_whatever_the_count() {
    let plan =
        cleanable_generations("system", &system_links(), at(NOW), policy(0, 10 * DAY)).unwrap();
    assert_eq!(tags(&plan), vec![(1, true), (2, false), (3, false)]);
}

#[test]
fn age_equal_to_keep_since_is_kept_and_one_nanosecond_more_is_not() {
    let entries = vec![link("p-1-link", HOUR), link("p-2-link", HOUR + 1)];
    let plan = cleanable_generations("p", &entries, at(NOW), policy(0, HOUR)).unwrap();
    assert_eq!(tags(&plan), vec![(1, false), (2, true)]);
}

#[test]
fn default_policy_keeps_the_single_newest() {
    let p = RetentionPolicy::default();
    assert_eq!(p.keep, 1);
    assert_eq!(p.keep_since, Span { nanos: 0 });
    let plan = cleanable_generations("system", &system_links(), at(NOW), p).unwrap();
    assert_eq!(tags(&plan), vec![(1, true), (2, true), (3, false)]);
}

#[test]
fn a_modification_time_in_the_future_is_not_kept_by_age() {
    let entries = vec![link("p-1-link", -5 * MINUTE), link("p-2-link", DAY)];
    let plan = cleanable_generations("p", &entries, at(NOW), policy(1, 365 * DAY)).unwrap();
    assert_eq!(tags(&plan), vec![(1, true), (2, false)]);
}

#[test]
fn entries_without_a_modification_time_or_a_match_get_no_record() {
    let mut entries = system_links();
    entries.push(LinkEntry {
        name: "system-4-link".to_string(),
        path: "/nix/var/nix/profiles/system-4-link".to_string(),
        modified: None,
    });
    entries.push(link("system-x-link", 0));
    entries.push(link("xsystem-9-link", 0));
    let plan = cleanable_generations("system", &entries, at(NOW), policy(1, 0)).unwrap();
    assert_eq!(tags(&plan), vec![(1, true), (2, true), (3, false)]);
}

#[test]
fn plan_lists_paths_in_ascending_order_of_number() {
    let entries = vec![link("p-10-link", DAY), link("p-9-link", DAY), link("p-100-link", DAY)];
    let plan = cleanable_generations("p", &entries, at(NOW), policy(1, 0)).unwrap();
    let paths: Vec<&str> = (0..plan.len()).map(|i| plan.generation(i).path.as_str()).collect();
    assert_eq!(
        paths,
        vec![
            "/nix/var/nix/profiles/p-9-link",
            "/nix/var/nix/profiles/p-10-link",
            "/nix/var/nix/profiles/p-100-link"
        ]
    );
}

#[test]
fn equal_numbers_are_ordered_by_time_then_path() {
    let entries = vec![link("p-1-linkb", DAY), link("p-01-link", DAY), link("p-1-link", 2 * DAY)];
    let plan = cleanable_generations("p", &entries, at(NOW), policy(1, 0)).unwrap();
    let paths: Vec<&str> = (0..plan.len()).map(|i| plan.generation(i).path.as_str()).collect();
    assert_eq!(
        paths,
        vec![
            "/nix/var/nix/profiles/p-1-link",
            "/nix/var/nix/profiles/p-01-link",
            "/nix/var/nix/profiles/p-1-linkb"
        ]
    );
    assert_eq!(tags(&plan), vec![(1, true), (1, true), (1, false)]);
}

#[test]
fn the_same_entry_twice_is_planned_once() {
    let entries = vec![link("p-1-link", DAY), link("p-1-link", DAY)];
    let plan = cleanable_generations("p", &entries, at(NOW), policy(0, 0)).unwrap();
    assert_eq!(tags(&plan), vec![(1, true)]);
}

#[test]
fn a_number_that_does_not_fit_is_fatal() {
    let entries = vec![link("p-1-link", DAY), link("p-4294967296-link", DAY)];
    let r = cleanable_generations("p", &entries, at(NOW), policy(1, 0));
    assert_eq!(r.unwrap_err(), PlanError::MalformedNumber);
    let entries = vec![link("p-4294967295-link", DAY)];
    let plan = cleanable_generations("p", &entries, at(NOW), policy(0, 0)).unwrap();
    assert_eq!(tags(&plan), vec![(4294967295, true)]);
}

#[test]
fn digits_outside_ascii_are_fatal() {
    let entries = vec![link("p-\u{0663}-link", DAY)];
    let r = cleanable_generations("p", &entries, at(NOW), policy(1, 0));
    assert_eq!(r.unwrap_err(), PlanError::MalformedNumber);
}

#[test]
fn a_profile_name_that_breaks_the_pattern_is_fatal() {
    let r = cleanable_generations("sys(tem", &system_links(), at(NOW), policy(1, 0));
    assert_eq!(r.unwrap_err(), PlanError::BadPattern);
    let r = cleanable_generations("sys(tem", &Vec::new(), at(NOW), policy(1, 0));
    assert_eq!(r.unwrap_err(), PlanError::BadPattern);
}

#[test]
fn an_empty_directory_gives_an_empty_plan() {
    let plan = cleanable_generations("system", &Vec::new(), at(NOW), policy(1, 0)).unwrap();
    assert_eq!(plan.len(), 0);
}

#[test]
fn pattern_text_wraps_the_name() {
    assert_eq!(generation_pattern_text("system"), "^system-(\\d+)-link");
    assert_eq!(generation_pattern_text(""), "^-(\\d+)-link");
}

#[test]
fn capture_becomes_a_generation() {
    let g = generation_from_capture(Some("42"), "/p/x-42-link", Some(at(7))).unwrap().unwrap();
    assert_eq!(g.number, 42);
    assert_eq!(g.last_modified, at(7));
    assert_eq!(g.path, "/p/x-42-link");
    assert!(generation_from_capture(None, "/p/x", Some(at(7))).unwrap().is_none());
    assert!(generation_from_capture(Some("42"), "/p/x", None).unwrap().is_none());
    assert_eq!(
        generation_from_capture(Some("4x"), "/p/x", None).unwrap_err(),
        PlanError::MalformedNumber
    );
}

#[test]
fn rules_only_clear_flags() {
    let mut plan = GenerationPlan::new();
    for n in [3u32, 1, 2] {
        plan.insert(Generation {
            number: n,
            last_modified: at(NOW - n as i128 * DAY),
            path: format!("/p/x-{n}-link"),
        });
    }
    assert_eq!(tags(&plan), vec![(1, true), (2, true), (3, true)]);
    plan.apply_age_rule(at(NOW), Span { nanos: DAY as u128 });
    assert_eq!(tags(&plan), vec![(1, false), (2, true), (3, true)]);
    plan.apply_count_rule(1);
    assert_eq!(tags(&plan), vec![(1, false), (2, true), (3, false)]);
    plan.apply_count_rule(0);
    plan.apply_age_rule(at(NOW), Span { nanos: 0 });
    assert_eq!(tags(&plan), vec![(1, false), (2, true), (3, false)]);
    plan.retain(at(NOW), policy(3, 0));
    assert_eq!(tags(&plan), vec![(1, false), (2, false), (3, false)]);
}

#[test]
fn inserting_a_planned_generation_tags_it_again() {
    let mut plan = GenerationPlan::new();
    plan.insert(Generation { number: 1, last_modified: at(5), path: "a".to_string() });
    plan.apply_count_rule(1);
    assert_eq!(tags(&plan), vec![(1, false)]);
    plan.insert(Generation { number: 1, last_modified: at(5), path: "a".to_string() });
    assert_eq!(tags(&plan), vec![(1, true)]);
}

#[test]
fn parse_u32_reads_ascii_digits_only() {
    assert_eq!(parse_u32("0"), Some(0));
    assert_eq!(parse_u32("007"), Some(7));
    assert_eq!(parse_u32("4294967295"), Some(u32::MAX));
    assert_eq!(parse_u32("4294967296"), None);
    assert_eq!(parse_u32("99999999999999999999999999"), None);
    assert_eq!(parse_u32(""), None);
    assert_eq!(parse_u32("+1"), None);
    assert_eq!(parse_u32("1a"), None);
}

#[test]
fn texts_are_ranked_by_code_point() {
    assert_eq!(rank_text("abc", "abd"), Rank::Before);
    assert_eq!(rank_text("abd", "abc"), Rank::After);
    assert_eq!(rank_text("ab", "abc"), Rank::Before);
    assert_eq!(rank_text("abc", "ab"), Rank::After);
    assert_eq!(rank_text("abc", "abc"), Rank::Same);
    assert_eq!(rank_text("", ""), Rank::Same);
    assert_eq!(rank_text("z", "\u{e9}"), Rank::Before);
    assert!(same_text("link", "link"));
    assert!(!same_text("link", "linc"));
    assert!(!same_text("link", "links"));
}

#[test]
fn elapsed_time_is_the_difference_or_nothing() {
    assert_eq!(elapsed_since(at(10), at(3)), Some(Span { nanos: 7 }));
    assert_eq!(elapsed_since(at(3), at(3)), Some(Span { nanos: 0 }));
    assert_eq!(elapsed_since(at(3), at(10)), None);
    assert_eq!(elapsed_since(at(-3), at(-10)), Some(Span { nanos: 7 }));
    assert_eq!(elapsed_since(at(i128::MAX), at(i128::MIN)), Some(Span { nanos: u128::MAX }));
    assert!(is_recent(at(10), at(3), Span { nanos: 7 }));
    assert!(!is_recent(at(10), at(3), Span { nanos: 6 }));
    assert!(!is_recent(at(3), at(10), Span { nanos: 100 }));
}
