use nh::search::supported_branch;

#[test]
fn test_supported_branch() {
    assert!(supported_branch("nixos-unstable"));
    assert!(!supported_branch("nixos-unstable-small"));
    assert!(!supported_branch("nixos-24.05")); // Now deprecated
    assert!(supported_branch("nixos-24.11"));
    assert!(!supported_branch("24.05"));
    assert!(!supported_branch("nixpkgs-darwin"));
    assert!(!supported_branch("nixpks-21.11-darwin"));
}

#[test]
fn release_channel_is_found_anywhere_in_the_name() {
    assert!(supported_branch("nixos-23.11-small"));
    assert!(supported_branch("my-nixos-25.05"));
    assert!(!supported_branch("nixos-25"));
    assert!(!supported_branch(""));
}
