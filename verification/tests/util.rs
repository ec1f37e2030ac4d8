use nh::args::{DiffType, UpdateArgs};
use nh::passthrough::{decimal_text, NixBuildPassthroughArgs};
use nh::checks::{check_nix_version, minimum_version, version_verdict, VersionError, VersionCheck};
use nh::util::{
    contains_text, get_hostname, get_nix_variant, SystemName, normalize_fallback, normalize_version_string, normalize_with,
    variant_from_lowercase, NixVariant,
};

fn no_options() -> NixBuildPassthroughArgs {
    NixBuildPassthroughArgs {
        max_jobs: None,
        cores: None,
        log_format: None,
        keep_going: false,
        keep_failed: false,
        fallback: false,
        repair: false,
        builders: None,
        include_paths: Vec::new(),
        print_build_logs: false,
        show_trace: false,
        accept_flake_config: false,
        refresh: false,
        impure: false,
        offline: false,
        no_net: false,
        recreate_lock_file: false,
        no_update_lock_file: false,
        no_write_lock_file: false,
        no_use_registries: false,
        no_registries: false,
        commit_lock_file: false,
        no_build_output: false,
        use_substitutes: false,
        json: false,
    }
}

#[test]
fn versions_are_normalized_to_three_components() {
    assert_eq!(normalize_version_string("2.25.0-pre"), "2.25.0");
    assert_eq!(normalize_version_string("2.24.14-1"), "2.24.14");
    assert_eq!(normalize_version_string("2.30pre20250521_76a4d4c2"), "2.30.0");
    assert_eq!(normalize_version_string("2.91.1"), "2.91.1");
    assert_eq!(normalize_version_string("nix (Nix) 2.28.3"), "2.28.3");
}

#[test]
fn versions_without_a_match_are_cut_and_filled_up() {
    assert_eq!(normalize_version_string("2"), "2.0.0");
    assert_eq!(normalize_version_string("2-rc1"), "2.0.0");
    assert_eq!(normalize_version_string(""), ".0.0");
    assert_eq!(normalize_version_string("alpha"), "al.0.0");
    assert_eq!(normalize_fallback("2.30"), "2.30.0");
    assert_eq!(normalize_fallback("2.30.1_x"), "2.30.1");
    assert_eq!(normalize_fallback("1.2.3.4+b"), "1.2.3.4");
    assert_eq!(normalize_fallback("v_1"), "v.0.0");
}

#[test]
fn normalization_from_given_groups() {
    let groups = Some(vec![
        Some("2.30pre1".to_string()),
        Some("2".to_string()),
        Some("30".to_string()),
        None,
    ]);
    assert_eq!(normalize_with("2.30pre1", &groups), "2.30.0");
    let groups = Some(vec![Some("1.2.3".to_string()), None, Some("2".to_string()), Some("3".to_string())]);
    assert_eq!(normalize_with("x", &groups), "x.2.3");
    assert_eq!(normalize_with("7", &None), "7.0.0");
}

#[test]
fn variant_is_read_from_the_banner() {
    assert_eq!(get_nix_variant(None), NixVariant::Nix);
    assert_eq!(get_nix_variant(Some("nix (Nix) 2.28.3")), NixVariant::Nix);
    assert_eq!(get_nix_variant(Some("nix (Lix, like Nix) 2.93.0")), NixVariant::Lix);
    assert_eq!(get_nix_variant(Some("nix (Determinate Nix 3.6.2) 2.29.0")), NixVariant::Determinate);
    assert_eq!(get_nix_variant(Some("DETERMINATE LIX")), NixVariant::Determinate);
    assert_eq!(variant_from_lowercase("Lix"), NixVariant::Nix);
    assert_eq!(variant_from_lowercase("helix"), NixVariant::Lix);
}

#[test]
fn no_options_give_no_arguments() {
    assert!(no_options().generate_passthrough_args().is_empty());
}

#[test]
fn options_come_out_in_a_fixed_order() {
    let args = NixBuildPassthroughArgs {
        max_jobs: Some(8),
        cores: Some(0),
        log_format: Some("bar".to_string()),
        keep_going: true,
        keep_failed: true,
        fallback: true,
        repair: true,
        builders: Some("ssh://x".to_string()),
        include_paths: vec!["a=b".to_string(), "c".to_string()],
        print_build_logs: true,
        show_trace: true,
        accept_flake_config: true,
        refresh: true,
        impure: true,
        offline: true,
        no_net: true,
        recreate_lock_file: true,
        no_update_lock_file: true,
        no_write_lock_file: true,
        no_use_registries: true,
        no_registries: true,
        commit_lock_file: true,
        no_build_output: true,
        use_substitutes: true,
        json: true,
    };
    assert_eq!(
        args.generate_passthrough_args(),
        vec![
            "--max-jobs", "8", "--cores", "0", "--log-format", "bar", "--keep-going",
            "--keep-failed", "--fallback", "--repair", "--builders", "ssh://x", "--include",
            "a=b", "--include", "c", "--print-build-logs", "--show-trace",
            "--accept-flake-config", "--refresh", "--impure", "--offline", "--no-net",
            "--recreate-lock-file", "--no-update-lock-file", "--no-write-lock-file",
            "--no-use-registries", "--no-use-registries", "--no-build-output", "--json",
        ]
    );
}

#[test]
fn deprecated_registry_switch_gives_the_new_spelling() {
    let args = NixBuildPassthroughArgs { no_registries: true, ..no_options() };
    assert_eq!(args.generate_passthrough_args(), vec!["--no-use-registries"]);
}

#[test]
fn numbers_are_written_in_base_ten() {
    assert_eq!(decimal_text(0), "0");
    assert_eq!(decimal_text(9), "9");
    assert_eq!(decimal_text(10), "10");
    assert_eq!(decimal_text(1234567890), "1234567890");
    assert_eq!(decimal_text(usize::MAX), usize::MAX.to_string());
}

#[test]
fn diff_and_update_switches() {
    assert_eq!(DiffType::default(), DiffType::Auto);
    assert!(DiffType::Auto.shows_diff());
    assert!(DiffType::Always.shows_diff());
    assert!(!DiffType::Never.shows_diff());
    assert!(UpdateArgs { update_all: true, update_input: None }.wants_update());
    assert!(UpdateArgs { update_all: false, update_input: Some(Vec::new()) }.wants_update());
    assert!(!UpdateArgs { update_all: false, update_input: None }.wants_update());
}

#[test]
fn version_is_checked_against_the_minimum() {
    assert_eq!(minimum_version(true), "2.91.1");
    assert_eq!(minimum_version(false), "2.24.14");
    assert_eq!(check_nix_version(false, "2.24.14", false), Ok(VersionCheck::Fine));
    assert_eq!(check_nix_version(false, "2.24.13", false), Ok(VersionCheck::Outdated));
    assert_eq!(check_nix_version(false, "2.9.99", false), Ok(VersionCheck::Outdated));
    assert_eq!(check_nix_version(false, "2.24.14-pre", false), Ok(VersionCheck::Outdated));
    assert_eq!(check_nix_version(false, "2.31.0", false), Ok(VersionCheck::Fine));
    assert_eq!(check_nix_version(false, "2.31.0", true), Ok(VersionCheck::Outdated));
    assert_eq!(check_nix_version(false, "2.91.1", true), Ok(VersionCheck::Fine));
    assert_eq!(check_nix_version(false, "2.93.0", true), Ok(VersionCheck::Fine));
    assert_eq!(version_verdict(true), VersionCheck::Outdated);
    assert_eq!(version_verdict(false), VersionCheck::Fine);
}

#[test]
fn a_text_that_is_no_version_fails_the_check_unless_switched_off() {
    assert_eq!(check_nix_version(false, "2.30", false), Err(VersionError::NotAVersion));
    assert_eq!(check_nix_version(false, "nix (Nix) 2.28.3", false), Err(VersionError::NotAVersion));
    assert_eq!(check_nix_version(false, "", true), Err(VersionError::NotAVersion));
    assert_eq!(check_nix_version(true, "nonsense", false), Ok(VersionCheck::Fine));
    assert_eq!(check_nix_version(true, "0.0.1", true), Ok(VersionCheck::Fine));
}

#[test]
fn supplied_hostname_wins() {
    let name = |s: &str| SystemName::Name(s.to_string());
    assert_eq!(get_hostname(Some("given".to_string()), name("sys")), Some("given".to_string()));
    assert_eq!(
        get_hostname(Some("given".to_string()), SystemName::Unavailable),
        Some("given".to_string())
    );
    assert_eq!(get_hostname(None, name("sys")), Some("sys".to_string()));
    assert_eq!(get_hostname(None, SystemName::NotUnicode), Some("unknown-hostname".to_string()));
    assert_eq!(get_hostname(None, SystemName::Unavailable), None);
}

#[test]
fn substring_search() {
    assert!(contains_text("determinate nix", "nix"));
    assert!(contains_text("determinate nix", "determinate"));
    assert!(contains_text("abc", ""));
    assert!(contains_text("", ""));
    assert!(!contains_text("", "a"));
    assert!(!contains_text("ab", "abc"));
    assert!(!contains_text("aab", "abb"));
    assert!(contains_text("aaab", "aab"));
    assert!(contains_text("h\u{e9}lix", "lix"));
}
