//! The platform renderers and the release-track lookup table: registry
//! path, bundle identifier, policy file path, and user-data directory
//! segment, each a fixed constant per track.

pub mod windows;
pub mod macos;
pub mod linux;
pub mod shell;

use vstd::prelude::*;
use crate::cli::BraveVersion;

verus! {

/// One rendered output: the file name to write it under, the whole script
/// text, and whether the file should carry the executable bit.
#[derive(Debug)]
pub struct ScriptArtifact {
    pub filename: String,
    pub content: String,
    pub executable: bool,
}

/// The Windows registry subkey (under HKEY_LOCAL_MACHINE) that holds the
/// browser policies for the given release track.
pub open spec fn registry_path_text(version: BraveVersion) -> Seq<char> {
    match version {
        BraveVersion::Normal => "SOFTWARE\\Policies\\BraveSoftware\\Brave"@,
        BraveVersion::Nightly => "SOFTWARE\\Policies\\BraveSoftware\\Brave-Nightly"@,
    }
}

/// The macOS bundle identifier whose managed-preferences plist holds the
/// policies for the given release track.
pub open spec fn bundle_id_text(version: BraveVersion) -> Seq<char> {
    match version {
        BraveVersion::Normal => "com.brave.Browser"@,
        BraveVersion::Nightly => "com.brave.Browser.nightly"@,
    }
}

/// The Linux managed-policy file path for the given release track.
pub open spec fn policy_path_text(version: BraveVersion) -> Seq<char> {
    match version {
        BraveVersion::Normal => "/etc/brave/policies/managed/brave.json"@,
        BraveVersion::Nightly => "/etc/brave-nightly/policies/managed/brave.json"@,
    }
}

/// The user-data directory segment for the given release track.
pub open spec fn version_suffix_text(version: BraveVersion) -> Seq<char> {
    match version {
        BraveVersion::Normal => "Brave-Browser"@,
        BraveVersion::Nightly => "Brave-Browser-Nightly"@,
    }
}

/// The registry subkey constant for the given release track.
pub fn get_brave_registry_path(version: &BraveVersion) -> (r: &'static str)
    ensures
        r@ == registry_path_text(*version),
{
    match version {
        BraveVersion::Normal => "SOFTWARE\\Policies\\BraveSoftware\\Brave",
        BraveVersion::Nightly => "SOFTWARE\\Policies\\BraveSoftware\\Brave-Nightly",
    }
}

/// The bundle identifier constant for the given release track.
pub fn get_macos_bundle_id(version: &BraveVersion) -> (r: &'static str)
    ensures
        r@ == bundle_id_text(*version),
{
    match version {
        BraveVersion::Normal => "com.brave.Browser",
        BraveVersion::Nightly => "com.brave.Browser.nightly",
    }
}

/// The policy file path constant for the given release track.
pub fn get_linux_policy_path(version: &BraveVersion) -> (r: &'static str)
    ensures
        r@ == policy_path_text(*version),
{
    match version {
        BraveVersion::Normal => "/etc/brave/policies/managed/brave.json",
        BraveVersion::Nightly => "/etc/brave-nightly/policies/managed/brave.json",
    }
}

/// The user-data directory segment constant for the given release track.
pub fn get_version_suffix(version: &BraveVersion) -> (r: &'static str)
    ensures
        r@ == version_suffix_text(*version),
{
    match version {
        BraveVersion::Normal => "Brave-Browser",
        BraveVersion::Nightly => "Brave-Browser-Nightly",
    }
}

/// The two release tracks never share a platform-specific constant: the
/// registry path, the bundle identifier, the policy file path and the
/// user-data directory segment each differ between Normal and Nightly.
pub proof fn lemma_version_constants_distinct()
    ensures
        registry_path_text(BraveVersion::Normal) != registry_path_text(BraveVersion::Nightly),
        bundle_id_text(BraveVersion::Normal) != bundle_id_text(BraveVersion::Nightly),
        policy_path_text(BraveVersion::Normal) != policy_path_text(BraveVersion::Nightly),
        version_suffix_text(BraveVersion::Normal) != version_suffix_text(BraveVersion::Nightly),
{
    reveal_strlit("SOFTWARE\\Policies\\BraveSoftware\\Brave");
    reveal_strlit("SOFTWARE\\Policies\\BraveSoftware\\Brave-Nightly");
    reveal_strlit("com.brave.Browser");
    reveal_strlit("com.brave.Browser.nightly");
    reveal_strlit("/etc/brave/policies/managed/brave.json");
    reveal_strlit("/etc/brave-nightly/policies/managed/brave.json");
    reveal_strlit("Brave-Browser");
    reveal_strlit("Brave-Browser-Nightly");
    assert(("SOFTWARE\\Policies\\BraveSoftware\\Brave")@.len() != (
    "SOFTWARE\\Policies\\BraveSoftware\\Brave-Nightly")@.len());
    assert(("com.brave.Browser")@.len() != ("com.brave.Browser.nightly")@.len());
    assert(("/etc/brave/policies/managed/brave.json")@.len() != (
    "/etc/brave-nightly/policies/managed/brave.json")@.len());
    assert(("Brave-Browser")@.len() != ("Brave-Browser-Nightly")@.len());
}

} // verus!
