use nh::clean::{
    collector_command, record_profile, CleanArgs, CleanMode, CleanProfileArgs, ProfilePlan,
    RunError, Start,
};
use nh::discovery::{
    all_directories, profiles_in_dir, scans_account, user_directories, Account, DirLink,
};
use nh::gcroots::GcRootPlan;
use nh::generations::{Generation, GenerationPlan};
use nh::time::{Span, Timestamp};

fn args() -> CleanArgs {
    CleanArgs {
        keep: 1,
        keep_since: Span { nanos: 0 },
        dry: false,
        ask: false,
        no_gc: false,
        no_gcroots: false,
        optimise: false,
        max: None,
    }
}

fn profile_plan(name: &str, flags: &[bool]) -> ProfilePlan {
    let mut plan = GenerationPlan::new();
    for n in 1..=flags.len() as u32 {
        plan.insert(Generation {
            number: n,
            last_modified: Timestamp { nanos: 0 },
            path: format!("/profiles/{name}-{n}-link"),
        });
    }
    for (i, remove) in flags.iter().enumerate() {
        plan.remove[i] = *remove;
    }
    ProfilePlan { profile: format!("/profiles/{name}"), generations: plan }
}

fn roots() -> GcRootPlan {
    let mut roots = GcRootPlan::new();
    roots.insert("/a/result", true);
    roots.insert("/b/result", false);
    roots.insert("/c/.direnv/x", true);
    roots
}

#[test]
fn user_mode_as_root_fails_before_any_scan() {
    assert_eq!(CleanMode::User(args()).start(true), Err(RunError::RunAsRoot));
    assert_eq!(CleanMode::User(args()).start(false), Ok(Start::ScanUser));
}

#[test]
fn all_mode_elevates_before_any_scan() {
    assert_eq!(CleanMode::All(args()).start(false), Ok(Start::Elevate));
    assert_eq!(CleanMode::All(args()).start(true), Ok(Start::ScanAll));
}

#[test]
fn profile_mode_takes_the_given_profile_and_no_roots() {
    for no_gcroots in [false, true] {
        let mode = CleanMode::Profile(CleanProfileArgs {
            common: CleanArgs { no_gcroots, ..args() },
            profile: "/profiles/system".to_string(),
        });
        assert_eq!(mode.start(false), Ok(Start::SingleProfile));
        assert_eq!(mode.start(true), Ok(Start::SingleProfile));
        assert!(!mode.scans_gcroots());
    }
    assert!(CleanMode::All(args()).scans_gcroots());
    assert!(CleanMode::User(args()).scans_gcroots());
    assert!(!CleanMode::All(CleanArgs { no_gcroots: true, ..args() }).scans_gcroots());
}

#[test]
fn policy_comes_from_the_options() {
    let mode = CleanMode::User(CleanArgs { keep: 4, keep_since: Span { nanos: 9 }, ..args() });
    assert_eq!(mode.policy().keep, 4);
    assert_eq!(mode.policy().keep_since, Span { nanos: 9 });
    assert_eq!(mode.args().keep, 4);
}

#[test]
fn confirmation_is_needed_when_asked_and_not_dry() {
    assert!(CleanMode::All(CleanArgs { ask: true, ..args() }).needs_confirmation());
    assert!(!CleanMode::All(CleanArgs { ask: true, dry: true, ..args() }).needs_confirmation());
    assert!(!CleanMode::All(args()).needs_confirmation());
}

#[test]
fn execution_deletes_roots_first_then_generations_newest_first() {
    let profiles = vec![
        profile_plan("system", &[true, true, false]),
        profile_plan("home", &[true, false, true]),
    ];
    let e = CleanMode::All(args()).execution(None, &roots(), &profiles).unwrap();
    assert_eq!(
        e.removals,
        vec![
            "/a/result",
            "/c/.direnv/x",
            "/profiles/system-2-link",
            "/profiles/system-1-link",
            "/profiles/home-3-link",
            "/profiles/home-1-link",
        ]
    );
    assert_eq!(e.collector, Some(vec!["store".to_string(), "gc".to_string()]));
    assert!(!e.optimise);
    assert!(!e.dry);
}

#[test]
fn dry_run_deletes_nothing() {
    let profiles = vec![profile_plan("system", &[true, true, false])];
    for ask in [false, true] {
        let mode = CleanMode::All(CleanArgs { dry: true, ask, ..args() });
        let e = mode.execution(None, &roots(), &profiles).unwrap();
        assert!(e.removals.is_empty());
        assert!(e.dry);
        assert_eq!(e.collector, Some(vec!["store".to_string(), "gc".to_string()]));
    }
}

#[test]
fn declined_confirmation_vetoes_everything() {
    let profiles = vec![profile_plan("system", &[true, true, false])];
    let mode = CleanMode::All(CleanArgs { ask: true, ..args() });
    assert_eq!(mode.execution(Some(false), &roots(), &profiles).unwrap_err(), RunError::Rejected);
    assert_eq!(mode.execution(None, &roots(), &profiles).unwrap_err(), RunError::Rejected);
    let e = mode.execution(Some(true), &roots(), &profiles).unwrap();
    assert_eq!(e.removals.len(), 4);
}

#[test]
fn collector_options_are_handed_on() {
    let mode = CleanMode::User(CleanArgs {
        max: Some("10G".to_string()),
        optimise: true,
        ..args()
    });
    let e = mode.execution(None, &GcRootPlan::new(), &Vec::new()).unwrap();
    assert!(e.removals.is_empty());
    assert_eq!(
        e.collector,
        Some(vec!["store".to_string(), "gc".to_string(), "--max".to_string(), "10G".to_string()])
    );
    assert!(e.optimise);
    let mode = CleanMode::User(CleanArgs { no_gc: true, ..args() });
    assert_eq!(mode.execution(None, &GcRootPlan::new(), &Vec::new()).unwrap().collector, None);
    assert_eq!(collector_command(&None), vec!["store", "gc"]);
}

#[test]
fn a_profile_planned_twice_is_filed_once() {
    let mut profiles = Vec::new();
    let a = profile_plan("system", &[true]);
    let b = profile_plan("home", &[true]);
    let c = profile_plan("system", &[true, false]);
    record_profile(&mut profiles, a.profile, a.generations);
    record_profile(&mut profiles, b.profile, b.generations);
    record_profile(&mut profiles, c.profile, c.generations);
    assert_eq!(profiles.len(), 2);
    assert_eq!(profiles[0].profile, "/profiles/system");
    assert_eq!(profiles[0].generations.len(), 2);
    assert_eq!(profiles[1].profile, "/profiles/home");
}

#[test]
fn profiles_are_the_symlinks_to_generation_links() {
    let entries = vec![
        DirLink { path: "/p/system".to_string(), target_name: Some("system-12-link".to_string()) },
        DirLink { path: "/p/system-12-link".to_string(), target_name: Some("abc-nixos-system".to_string()) },
        DirLink { path: "/p/plain".to_string(), target_name: None },
        DirLink { path: "/p/home".to_string(), target_name: Some("home-manager-3-link".to_string()) },
        DirLink { path: "/p/odd".to_string(), target_name: Some("x-3-linked".to_string()) },
        DirLink { path: "/p/nonum".to_string(), target_name: Some("x--link".to_string()) },
        DirLink { path: "/p/bare".to_string(), target_name: Some("-1-link".to_string()) },
    ];
    assert_eq!(profiles_in_dir(&entries).unwrap(), vec!["/p/system", "/p/home", "/p/bare"]);
    assert!(profiles_in_dir(&Vec::new()).unwrap().is_empty());
}

#[test]
fn accounts_in_scope_are_root_and_the_first_hundred_regular_ones() {
    assert!(scans_account(0, false));
    assert!(scans_account(0, true));
    assert!(scans_account(1000, false));
    assert!(scans_account(1099, false));
    assert!(!scans_account(1100, false));
    assert!(!scans_account(999, false));
    assert!(!scans_account(501, false));
    assert!(scans_account(501, true));
    assert!(scans_account(600, true));
    assert!(!scans_account(601, true));
    assert!(!scans_account(1000, true));
    assert!(!scans_account(u32::MAX, false));
}

#[test]
fn user_run_scans_the_state_directory_then_the_system_profiles() {
    assert_eq!(
        user_directories("/home/ann", "ann"),
        vec!["/home/ann/.local/state/nix/profiles", "/nix/var/nix/profiles/per-user/ann"]
    );
}

#[test]
fn full_run_scans_system_per_user_and_eligible_accounts() {
    let per_user = vec!["/nix/var/nix/profiles/per-user/ann".to_string()];
    let accounts = vec![
        Account { uid: 0, home: "/root".to_string() },
        Account { uid: 65534, home: "/var/empty".to_string() },
        Account { uid: 1000, home: "/home/ann".to_string() },
        Account { uid: 502, home: "/home/bob".to_string() },
    ];
    assert_eq!(
        all_directories(&per_user, &accounts, false),
        vec![
            "/nix/var/nix/profiles",
            "/nix/var/nix/profiles/per-user/ann",
            "/root/.local/state/nix/profiles",
            "/home/ann/.local/state/nix/profiles",
        ]
    );
    assert_eq!(
        all_directories(&Vec::new(), &accounts, true),
        vec![
            "/nix/var/nix/profiles",
            "/root/.local/state/nix/profiles",
            "/home/bob/.local/state/nix/profiles",
        ]
    );
}

#[test]
fn a_run_that_skips_roots_deletes_none() {
    let profiles = vec![profile_plan("system", &[true, false])];
    let scoped = CleanMode::Profile(CleanProfileArgs {
        common: args(),
        profile: "/profiles/system".to_string(),
    });
    let e = scoped.execution(None, &roots(), &profiles).unwrap();
    assert_eq!(e.removals, vec!["/profiles/system-1-link"]);
    let switched_off = CleanMode::All(CleanArgs { no_gcroots: true, ..args() });
    let e = switched_off.execution(None, &roots(), &profiles).unwrap();
    assert_eq!(e.removals, vec!["/profiles/system-1-link"]);
}
