//! The Linux renderer: one bash script that writes the whole configuration
//! as pretty-printed JSON to the track-specific policy path (with the
//! forcelist inserted when extensions are given) and then rewrites the user
//! preference files through jq filters.  It is the only renderer whose
//! output file carries the executable bit.

use vstd::prelude::*;
use crate::cli::BraveVersion;
use crate::config::{
    Config, ConfigValue, EntryModel, Extension, ValueModel, ids_of, keys_unique,
    lemma_insert_lookup, lemma_lookup_present, lookup, spec_insert,
};
use crate::json::{json_object_text, push_json_object};
use crate::platforms::{
    ScriptArtifact, get_linux_policy_path, get_version_suffix, policy_path_text,
    version_suffix_text,
};
use crate::platforms::shell::{jq_local_state_text, jq_prefs_text, push_jq_local_state, push_jq_prefs};
use crate::preferences::handlers::{
    SearchModel, deref_opt, get_default_dashboard_config, get_default_experimental_features,
    get_default_search_provider, resolved_dashboard, resolved_features, resolved_search_provider,
};
use crate::preferences::types::{NewTabPage, PreferencesInputConfig};

verus! {

/// The output file name for the given release track.
pub open spec fn linux_filename_text(version: BraveVersion) -> Seq<char> {
    match version {
        BraveVersion::Normal => "brave_debloat_linux.sh"@,
        BraveVersion::Nightly => "brave_nightly_debloat_linux.sh"@,
    }
}

/// The output file name constant for the given release track.
pub fn linux_filename(version: &BraveVersion) -> (r: &'static str)
    ensures
        r@ == linux_filename_text(*version),
{
    match version {
        BraveVersion::Normal => "brave_debloat_linux.sh",
        BraveVersion::Nightly => "brave_nightly_debloat_linux.sh",
    }
}

/// The constant opening of the script: shebang, colors, banner, privilege
/// check (which only sets a flag), and the check for a running browser.
pub open spec fn linux_head_text() -> Seq<char> {
    "#!/bin/bash\n# Unified Brave Browser Debloater Script for Linux\n# This script applies both policies and user preferences\n# Run with sudo for system-wide changes\n\n# Colors for output\nRED='\\033[0;31m'\nGREEN='\\033[0;32m'\nYELLOW='\\033[1;33m'\nNC='\\033[0m' # No Color\n\necho -e \"${GREEN}Brave Browser Debloater for Linux${NC}\"\necho -e \"${GREEN}===================================${NC}\"\necho\n\nif [ \"$EUID\" -ne 0 ]; then\n    echo -e \"${YELLOW}Note: Running without sudo. System policies will be skipped.${NC}\"\n    echo -e \"${YELLOW}Run with sudo for complete configuration.${NC}\"\n    SKIP_POLICIES=1\nelse\n    SKIP_POLICIES=0\nfi\necho\n\necho \"Checking if Brave is running...\"\nif pgrep -f brave > /dev/null; then\n    echo -e \"${YELLOW}WARNING: Brave browser is running!${NC}\"\n    echo \"Please close Brave browser before running this script.\"\n    echo \"Press Enter to continue anyway, or Ctrl+C to exit.\"\n    read\n    pkill -f brave 2>/dev/null\n    sleep 2\nfi\necho\n\n"@
}

/// The entries the policy file holds: the configuration itself, with the
/// forcelist key bound to the extension id list when the list is
/// non-empty.
pub open spec fn linux_policy_entries(
    entries: Seq<EntryModel>,
    ids: Seq<Seq<char>>,
) -> Seq<EntryModel> {
    if ids.len() > 0 {
        spec_insert(entries, "ExtensionInstallForcelist"@, ValueModel::TextList(ids))
    } else {
        entries
    }
}

/// For a non-empty extension list, the policy map binds the forcelist key
/// to exactly the extension ids in order, maps every other key to what the
/// configuration maps it to, and keeps every configuration key present.
pub proof fn lemma_linux_policy_map(entries: Seq<EntryModel>, ids: Seq<Seq<char>>)
    requires
        keys_unique(entries),
        ids.len() > 0,
    ensures
        lookup(linux_policy_entries(entries, ids), "ExtensionInstallForcelist"@) == Some(
            ValueModel::TextList(ids),
        ),
        forall|k: Seq<char>|
            k != "ExtensionInstallForcelist"@ ==> lookup(linux_policy_entries(entries, ids), k)
                == lookup(entries, k),
        forall|i: int|
            0 <= i < entries.len() ==> lookup(
                linux_policy_entries(entries, ids),
                entries[i].key,
            ) is Some,
        keys_unique(linux_policy_entries(entries, ids)),
{
    lemma_insert_lookup(entries, "ExtensionInstallForcelist"@, ValueModel::TextList(ids));
    assert forall|i: int| 0 <= i < entries.len() implies lookup(
        linux_policy_entries(entries, ids),
        entries[i].key,
    ) is Some by {
        if entries[i].key != "ExtensionInstallForcelist"@ {
            lemma_lookup_present(entries, i);
        }
    }
}

/// The system-policies section: guarded by the privilege flag, it writes
/// the policy JSON to the track's policy path.
pub open spec fn linux_policies_text(
    path: Seq<char>,
    entries: Seq<EntryModel>,
    ids: Seq<Seq<char>>,
) -> Seq<char> {
    "if [ \"$SKIP_POLICIES\" -eq 0 ]; then\n    echo -e \"${GREEN}Applying system policies...${NC}\"\n    mkdir -p \"$(dirname '"@
        + path + "')\"\n    cat << 'EOF' > '"@ + path + "'\n"@ + json_object_text(
        linux_policy_entries(entries, ids),
    ) + "\nEOF\n    chmod 644 '"@ + path
        + "'\n    echo -e \"${GREEN}System policies applied successfully!${NC}\"\nelse\n    echo -e \"${YELLOW}Skipping system policies (not running as sudo)${NC}\"\nfi\necho\n\n"@
}

/// The constant jq installation check: try apt-get, dnf, pacman and zypper
/// in that order, fatal when none succeeds.
pub open spec fn linux_jq_check_text() -> Seq<char> {
    "if ! command -v jq &> /dev/null; then\n    echo -e \"${YELLOW}jq not found. Attempting to install...${NC}\"\n    if command -v apt-get &> /dev/null; then\n        sudo apt-get update && sudo apt-get install -y jq\n    elif command -v dnf &> /dev/null; then\n        sudo dnf install -y jq\n    elif command -v pacman &> /dev/null; then\n        sudo pacman -S jq\n    elif command -v zypper &> /dev/null; then\n        sudo zypper install jq\n    else\n        echo -e \"${RED}Error: jq is required but could not be installed automatically${NC}\"\n        echo \"Please install jq manually for your distribution\"\n        exit 1\n    fi\n    if ! command -v jq &> /dev/null; then\n        echo -e \"${RED}Error: jq installation failed${NC}\"\n        exit 1\n    fi\nfi\n\n"@
}

/// The user-preferences section: Flatpak-aware data directory setup,
/// backups, the jq check, and the two jq blocks.
pub open spec fn linux_prefs_text(
    suffix: Seq<char>,
    search: SearchModel,
    dash: NewTabPage,
    fs: Seq<Seq<char>>,
) -> Seq<char> {
    "echo -e \"${GREEN}Modifying user preferences...${NC}\"\nif command -v flatpak &> /dev/null && flatpak list | grep -q com.brave.Browser; then\n    BRAVE_DATA=\"$HOME/.var/app/com.brave.Browser/config/BraveSoftware/"@
        + suffix
        + "\"\n    echo \"Detected Flatpak Brave installation\"\nelse\n    BRAVE_DATA=\"$HOME/.config/BraveSoftware/"@
        + suffix
        + "\"\n    echo \"Detected native Brave installation\"\nfi\n\nPREFS_FILE=\"$BRAVE_DATA/Default/Preferences\"\nLOCAL_STATE=\"$BRAVE_DATA/Local State\"\n\nmkdir -p \"$BRAVE_DATA/Default\"\n\n[ -f \"$PREFS_FILE\" ] && cp \"$PREFS_FILE\" \"$PREFS_FILE.backup\"\n[ -f \"$LOCAL_STATE\" ] && cp \"$LOCAL_STATE\" \"$LOCAL_STATE.backup\"\n\n"@
        + linux_jq_check_text() + jq_prefs_text(search, dash) + jq_local_state_text(fs)
        + "echo -e \"${GREEN}User preferences applied successfully!${NC}\"\necho\n\n"@
}

/// The constant closing of the script.
pub open spec fn linux_foot_text() -> Seq<char> {
    "echo -e \"${GREEN}Configuration complete!${NC}\"\necho -e \"${GREEN}Please restart Brave browser for changes to take effect.${NC}\"\n"@
}

/// The whole Linux script.
pub open spec fn linux_script_text(
    entries: Seq<EntryModel>,
    ids: Seq<Seq<char>>,
    version: BraveVersion,
    prefs_config: Option<PreferencesInputConfig>,
) -> Seq<char> {
    linux_head_text() + linux_policies_text(policy_path_text(version), entries, ids)
        + linux_prefs_text(
        version_suffix_text(version),
        resolved_search_provider(prefs_config),
        resolved_dashboard(prefs_config),
        resolved_features(prefs_config),
    ) + linux_foot_text()
}

fn push_linux_policies(out: &mut String, config: &Config, extensions: &Vec<Extension>, path: &str)
    requires
        keys_unique(config@),
    ensures
        final(out)@ == old(out)@ + linux_policies_text(path@, config@, ids_of(extensions@)),
{
    out.append(
        "if [ \"$SKIP_POLICIES\" -eq 0 ]; then\n    echo -e \"${GREEN}Applying system policies...${NC}\"\n    mkdir -p \"$(dirname '",
    );
    out.append(path);
    out.append("')\"\n    cat << 'EOF' > '");
    out.append(path);
    out.append("'\n");
    let mut policy_config = config.clone();
    if extensions.len() > 0 {
        let mut ids: Vec<String> = Vec::new();
        let mut i: usize = 0;
        while i < extensions.len()
            invariant
                0 <= i <= extensions@.len(),
                ids@.len() == i,
                forall|j: int| 0 <= j < i ==> ids@[j] == extensions@[j].id,
            decreases extensions@.len() - i,
        {
            ids.push(extensions[i].id.clone());
            i += 1;
        }
        proof {
            assert(crate::config::texts_of(ids@) =~= ids_of(extensions@));
        }
        policy_config.insert(
            String::from_str("ExtensionInstallForcelist"),
            ConfigValue::TextList(ids),
        );
    }
    proof {
        assert(policy_config@ == linux_policy_entries(config@, ids_of(extensions@)));
    }
    push_json_object(out, &policy_config);
    out.append("\nEOF\n    chmod 644 '");
    out.append(path);
    out.append(
        "'\n    echo -e \"${GREEN}System policies applied successfully!${NC}\"\nelse\n    echo -e \"${YELLOW}Skipping system policies (not running as sudo)${NC}\"\nfi\necho\n\n",
    );
    proof {
        assert(out@ =~= old(out)@ + linux_policies_text(path@, config@, ids_of(extensions@)));
    }
}

#[verifier::rlimit(60)]
fn push_linux_prefs(out: &mut String, suffix: &str, prefs_config: Option<&PreferencesInputConfig>)
    ensures
        final(out)@ == old(out)@ + linux_prefs_text(
            suffix@,
            resolved_search_provider(deref_opt(prefs_config)),
            resolved_dashboard(deref_opt(prefs_config)),
            resolved_features(deref_opt(prefs_config)),
        ),
{
    let search = get_default_search_provider(prefs_config);
    let dashboard = get_default_dashboard_config(prefs_config);
    let features = get_default_experimental_features(prefs_config);
    out.append(
        "echo -e \"${GREEN}Modifying user preferences...${NC}\"\nif command -v flatpak &> /dev/null && flatpak list | grep -q com.brave.Browser; then\n    BRAVE_DATA=\"$HOME/.var/app/com.brave.Browser/config/BraveSoftware/",
    );
    out.append(suffix);
    out.append(
        "\"\n    echo \"Detected Flatpak Brave installation\"\nelse\n    BRAVE_DATA=\"$HOME/.config/BraveSoftware/",
    );
    out.append(suffix);
    out.append(
        "\"\n    echo \"Detected native Brave installation\"\nfi\n\nPREFS_FILE=\"$BRAVE_DATA/Default/Preferences\"\nLOCAL_STATE=\"$BRAVE_DATA/Local State\"\n\nmkdir -p \"$BRAVE_DATA/Default\"\n\n[ -f \"$PREFS_FILE\" ] && cp \"$PREFS_FILE\" \"$PREFS_FILE.backup\"\n[ -f \"$LOCAL_STATE\" ] && cp \"$LOCAL_STATE\" \"$LOCAL_STATE.backup\"\n\n",
    );
    out.append(
        "if ! command -v jq &> /dev/null; then\n    echo -e \"${YELLOW}jq not found. Attempting to install...${NC}\"\n    if command -v apt-get &> /dev/null; then\n        sudo apt-get update && sudo apt-get install -y jq\n    elif command -v dnf &> /dev/null; then\n        sudo dnf install -y jq\n    elif command -v pacman &> /dev/null; then\n        sudo pacman -S jq\n    elif command -v zypper &> /dev/null; then\n        sudo zypper install jq\n    else\n        echo -e \"${RED}Error: jq is required but could not be installed automatically${NC}\"\n        echo \"Please install jq manually for your distribution\"\n        exit 1\n    fi\n    if ! command -v jq &> /dev/null; then\n        echo -e \"${RED}Error: jq installation failed${NC}\"\n        exit 1\n    fi\nfi\n\n",
    );
    push_jq_prefs(out, &search, &dashboard);
    push_jq_local_state(out, &features);
    out.append("echo -e \"${GREEN}User preferences applied successfully!${NC}\"\necho\n\n");
    proof {
        assert(out@ =~= old(out)@ + linux_prefs_text(
            suffix@,
            resolved_search_provider(deref_opt(prefs_config)),
            resolved_dashboard(deref_opt(prefs_config)),
            resolved_features(deref_opt(prefs_config)),
        ));
    }
}

/// The Linux renderer.
#[derive(Debug)]
pub struct LinuxGenerator;

impl LinuxGenerator {
    /// Renders the whole bash script for the given inputs.  The artifact is
    /// marked executable: Linux is the only platform whose output file gets
    /// the executable bit.
    pub fn generate_unified_script(
        config: &Config,
        extensions: &Vec<Extension>,
        version: &BraveVersion,
        preferences_config: Option<&PreferencesInputConfig>,
    ) -> (r: ScriptArtifact)
        requires
            keys_unique(config@),
        ensures
            r.filename@ == linux_filename_text(*version),
            r.content@ == linux_script_text(
                config@,
                ids_of(extensions@),
                *version,
                deref_opt(preferences_config),
            ),
            r.executable == true,
    {
        let filename = linux_filename(version);
        let policy_path = get_linux_policy_path(version);
        let version_suffix = get_version_suffix(version);
        let mut content = String::new();
        content.append(
            "#!/bin/bash\n# Unified Brave Browser Debloater Script for Linux\n# This script applies both policies and user preferences\n# Run with sudo for system-wide changes\n\n# Colors for output\nRED='\\033[0;31m'\nGREEN='\\033[0;32m'\nYELLOW='\\033[1;33m'\nNC='\\033[0m' # No Color\n\necho -e \"${GREEN}Brave Browser Debloater for Linux${NC}\"\necho -e \"${GREEN}===================================${NC}\"\necho\n\nif [ \"$EUID\" -ne 0 ]; then\n    echo -e \"${YELLOW}Note: Running without sudo. System policies will be skipped.${NC}\"\n    echo -e \"${YELLOW}Run with sudo for complete configuration.${NC}\"\n    SKIP_POLICIES=1\nelse\n    SKIP_POLICIES=0\nfi\necho\n\necho \"Checking if Brave is running...\"\nif pgrep -f brave > /dev/null; then\n    echo -e \"${YELLOW}WARNING: Brave browser is running!${NC}\"\n    echo \"Please close Brave browser before running this script.\"\n    echo \"Press Enter to continue anyway, or Ctrl+C to exit.\"\n    read\n    pkill -f brave 2>/dev/null\n    sleep 2\nfi\necho\n\n",
        );
        push_linux_policies(&mut content, config, extensions, policy_path);
        push_linux_prefs(&mut content, version_suffix, preferences_config);
        content.append(
            "echo -e \"${GREEN}Configuration complete!${NC}\"\necho -e \"${GREEN}Please restart Brave browser for changes to take effect.${NC}\"\n",
        );
        proof {
            assert(content@ =~= linux_script_text(
                config@,
                ids_of(extensions@),
                *version,
                deref_opt(preferences_config),
            ));
        }
        ScriptArtifact {
            filename: String::from_str(filename),
            content,
            executable: true,
        }
    }
}

} // verus!
