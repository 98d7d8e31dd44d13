//! The release-track lookup table: exact constants, and no constant shared
//! between the two tracks.

use brave_debloater::cli::BraveVersion;
use brave_debloater::platforms::{
    get_brave_registry_path, get_linux_policy_path, get_macos_bundle_id, get_version_suffix,
};

#[test]
fn registry_paths_are_exact() {
    assert_eq!(
        get_brave_registry_path(&BraveVersion::Normal),
        "SOFTWARE\\Policies\\BraveSoftware\\Brave"
    );
    assert_eq!(
        get_brave_registry_path(&BraveVersion::Nightly),
        "SOFTWARE\\Policies\\BraveSoftware\\Brave-Nightly"
    );
}

#[test]
fn bundle_ids_are_exact() {
    assert_eq!(get_macos_bundle_id(&BraveVersion::Normal), "com.brave.Browser");
    assert_eq!(get_macos_bundle_id(&BraveVersion::Nightly), "com.brave.Browser.nightly");
}

#[test]
fn policy_paths_are_exact() {
    assert_eq!(
        get_linux_policy_path(&BraveVersion::Normal),
        "/etc/brave/policies/managed/brave.json"
    );
    assert_eq!(
        get_linux_policy_path(&BraveVersion::Nightly),
        "/etc/brave-nightly/policies/managed/brave.json"
    );
}

#[test]
fn version_suffixes_are_exact() {
    assert_eq!(get_version_suffix(&BraveVersion::Normal), "Brave-Browser");
    assert_eq!(get_version_suffix(&BraveVersion::Nightly), "Brave-Browser-Nightly");
}

#[test]
fn tracks_never_share_a_constant() {
    assert_ne!(
        get_brave_registry_path(&BraveVersion::Normal),
        get_brave_registry_path(&BraveVersion::Nightly)
    );
    assert_ne!(
        get_macos_bundle_id(&BraveVersion::Normal),
        get_macos_bundle_id(&BraveVersion::Nightly)
    );
    assert_ne!(
        get_linux_policy_path(&BraveVersion::Normal),
        get_linux_policy_path(&BraveVersion::Nightly)
    );
    assert_ne!(
        get_version_suffix(&BraveVersion::Normal),
        get_version_suffix(&BraveVersion::Nightly)
    );
}
