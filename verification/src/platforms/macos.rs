//! The macOS renderer: one zsh script that writes a managed-preferences
//! plist for the track-specific bundle identifier and then rewrites the
//! user preference files through jq filters.

use vstd::prelude::*;
use crate::cli::BraveVersion;
use crate::config::{Config, ConfigValue, EntryModel, Extension, ValueModel, ids_of};
use crate::platforms::{
    ScriptArtifact, bundle_id_text, get_macos_bundle_id, get_version_suffix, version_suffix_text,
};
use crate::platforms::shell::{jq_local_state_text, jq_prefs_text, push_jq_local_state, push_jq_prefs};
use crate::preferences::handlers::{
    SearchModel, deref_opt, get_default_dashboard_config, get_default_experimental_features,
    get_default_search_provider, resolved_dashboard, resolved_features, resolved_search_provider,
};
use crate::preferences::types::{NewTabPage, PreferencesInputConfig};
use crate::text::{concat_texts, dec_int_text, lemma_concat_texts_push, push_i32_dec, str_eq};

verus! {

/// The output file name for the given release track.
pub open spec fn macos_filename_text(version: BraveVersion) -> Seq<char> {
    match version {
        BraveVersion::Normal => "brave_debloat_macos.sh"@,
        BraveVersion::Nightly => "brave_nightly_debloat_macos.sh"@,
    }
}

/// The output file name constant for the given release track.
pub fn macos_filename(version: &BraveVersion) -> (r: &'static str)
    ensures
        r@ == macos_filename_text(*version),
{
    match version {
        BraveVersion::Normal => "brave_debloat_macos.sh",
        BraveVersion::Nightly => "brave_nightly_debloat_macos.sh",
    }
}

/// The constant opening of the script: shebang, colors, banner, privilege
/// check (which only sets a flag), and the check for a running browser.
pub open spec fn mac_head_text() -> Seq<char> {
    "#!/bin/zsh\n# Unified Brave Browser Debloater Script for macOS\n# This script applies both policies and user preferences\n# Run with sudo for system-wide changes\n\n# Colors for output\nRED='\\033[0;31m'\nGREEN='\\033[0;32m'\nYELLOW='\\033[1;33m'\nNC='\\033[0m' # No Color\n\necho -e \"${GREEN}Brave Browser Debloater for macOS${NC}\"\necho -e \"${GREEN}====================================${NC}\"\necho\n\nif [ \"$EUID\" -ne 0 ]; then\n    echo -e \"${YELLOW}Note: Running without sudo. System policies will be skipped.${NC}\"\n    echo -e \"${YELLOW}Run with sudo for complete configuration.${NC}\"\n    SKIP_POLICIES=1\nelse\n    SKIP_POLICIES=0\nfi\necho\n\necho \"Checking if Brave is running...\"\nif pgrep -f \"Brave Browser\" > /dev/null; then\n    echo -e \"${YELLOW}WARNING: Brave browser is running!${NC}\"\n    echo \"Please close Brave browser before running this script.\"\n    echo \"Press Enter to continue anyway, or Ctrl+C to exit.\"\n    read\n    pkill -f \"Brave Browser\" 2>/dev/null\n    sleep 2\nfi\necho\n\n"@
}

/// One plist array element line.
pub open spec fn plist_item_line(s: Seq<char>) -> Seq<char> {
    "        <string>"@ + s + "</string>\n"@
}

/// The element lines of a plist array, in order.
pub open spec fn plist_items_text(items: Seq<Seq<char>>) -> Seq<char> {
    concat_texts(Seq::new(items.len(), |i: int| plist_item_line(items[i])))
}

/// The plist encoding of one policy value, indented one level.
pub open spec fn plist_value_text(v: ValueModel) -> Seq<char> {
    match v {
        ValueModel::Bool(b) => if b {
            "    <true/>"@
        } else {
            "    <false/>"@
        },
        ValueModel::Text(s) => "    <string>"@ + s + "</string>"@,
        ValueModel::Integer(n) => "    <integer>"@ + dec_int_text(n) + "</integer>"@,
        ValueModel::TextList(items) => "    <array>\n"@ + plist_items_text(items) + "    </array>"@,
    }
}

/// Holds for the keys the generic plist loop never emits: the forcelist
/// key (emitted separately, from the extension list alone) and the two
/// reporting keys that are deliberately excluded from the plist path.
pub open spec fn excluded_plist_key(k: Seq<char>) -> bool {
    k == "ExtensionInstallForcelist"@ || k == "ReportAppInventory"@ || k
        == "ReportWebsiteTelemetry"@
}

/// The plist fragment one entry contributes: nothing for an excluded key,
/// else the key line and the encoded value.
pub open spec fn plist_entry_text(e: EntryModel) -> Seq<char> {
    if excluded_plist_key(e.key) {
        Seq::<char>::empty()
    } else {
        "    <key>"@ + e.key + "</key>\n"@ + plist_value_text(e.value) + "\n"@
    }
}

/// The generic plist fragments of all entries, in entry order.
pub open spec fn plist_entries_text(entries: Seq<EntryModel>) -> Seq<char>
    decreases entries.len(),
{
    if entries.len() == 0 {
        Seq::<char>::empty()
    } else {
        plist_entries_text(entries.drop_last()) + plist_entry_text(entries.last())
    }
}

/// The forcelist block: always present, an array of exactly the extension
/// ids in list order (empty array for an empty list).
pub open spec fn plist_forcelist_text(ids: Seq<Seq<char>>) -> Seq<char> {
    "    <key>ExtensionInstallForcelist</key>\n    <array>\n"@ + plist_items_text(ids)
        + "    </array>\n"@
}

/// The entries that remain once the excluded keys are dropped, in order.
pub open spec fn retained_plist_entries(entries: Seq<EntryModel>) -> Seq<EntryModel>
    decreases entries.len(),
{
    if entries.len() == 0 {
        entries
    } else {
        let kept = retained_plist_entries(entries.drop_last());
        if excluded_plist_key(entries.last().key) {
            kept
        } else {
            kept.push(entries.last())
        }
    }
}

/// No retained entry carries an excluded key.
pub proof fn lemma_retained_plist_entries_clean(entries: Seq<EntryModel>)
    ensures
        forall|i: int|
            0 <= i < retained_plist_entries(entries).len() ==> !excluded_plist_key(
                retained_plist_entries(entries)[i].key,
            ),
    decreases entries.len(),
{
    if entries.len() > 0 {
        lemma_retained_plist_entries_clean(entries.drop_last());
    }
}

/// The generic plist text comes from the retained entries alone: the keys
/// `ExtensionInstallForcelist`, `ReportAppInventory` and
/// `ReportWebsiteTelemetry` contribute nothing to it.
pub proof fn lemma_plist_skips_excluded_keys(entries: Seq<EntryModel>)
    ensures
        plist_entries_text(entries) == plist_entries_text(retained_plist_entries(entries)),
    decreases entries.len(),
{
    if entries.len() > 0 {
        let d = entries.drop_last();
        let l = entries.last();
        lemma_plist_skips_excluded_keys(d);
        if excluded_plist_key(l.key) {
            assert(plist_entry_text(l) == Seq::<char>::empty());
            assert(plist_entries_text(d) + Seq::<char>::empty() =~= plist_entries_text(d));
        } else {
            let kept = retained_plist_entries(d);
            assert(kept.push(l).drop_last() =~= kept);
            assert(kept.push(l).last() == l);
        }
    }
}

/// The plist dictionary: the generic fragments of the non-excluded entries
/// followed by the forcelist array, which is present for every extension
/// list, the empty one included.
pub proof fn lemma_plist_dict_shape(entries: Seq<EntryModel>, ids: Seq<Seq<char>>)
    ensures
        plist_entries_text(entries) + plist_forcelist_text(ids) == plist_entries_text(
            retained_plist_entries(entries),
        ) + ("    <key>ExtensionInstallForcelist</key>\n    <array>\n"@ + plist_items_text(ids)
            + "    </array>\n"@),
        forall|i: int|
            0 <= i < retained_plist_entries(entries).len() ==> !excluded_plist_key(
                retained_plist_entries(entries)[i].key,
            ),
{
    lemma_plist_skips_excluded_keys(entries);
    lemma_retained_plist_entries_clean(entries);
}

/// The system-policies section: guarded by the privilege flag, it writes
/// the plist for the track's bundle identifier.
pub open spec fn mac_policies_text(
    bundle: Seq<char>,
    entries: Seq<EntryModel>,
    ids: Seq<Seq<char>>,
) -> Seq<char> {
    "if [ \"$SKIP_POLICIES\" -eq 0 ]; then\n    echo -e \"${GREEN}Applying system policies...${NC}\"\n    mkdir -p /Library/Managed\\ Preferences\n    cat << 'EOF' > /Library/Managed\\ Preferences/"@
        + bundle
        + ".plist\n<?xml version=\"1.0\" encoding=\"UTF-8\"?>\n<!DOCTYPE plist PUBLIC \"-//Apple//DTD PLIST 1.0//EN\" \"http://www.apple.com/DTDs/PropertyList-1.0.dtd\">\n<plist version=\"1.0\">\n<dict>\n"@
        + plist_entries_text(entries) + plist_forcelist_text(ids)
        + "</dict>\n</plist>\nEOF\n    chmod 644 /Library/Managed\\ Preferences/"@ + bundle
        + ".plist\n    echo -e \"${GREEN}System policies applied successfully!${NC}\"\nelse\n    echo -e \"${YELLOW}Skipping system policies (not running as sudo)${NC}\"\nfi\necho\n\n"@
}

/// The constant jq installation check: install through Homebrew, fatal
/// when Homebrew itself is unavailable.
pub open spec fn mac_jq_check_text() -> Seq<char> {
    "if ! command -v jq &> /dev/null; then\n    echo -e \"${YELLOW}jq not found. Installing via Homebrew...${NC}\"\n    if command -v brew &> /dev/null; then\n        brew install jq\n    else\n        echo -e \"${RED}Error: jq is required but not installed and Homebrew is not available${NC}\"\n        echo \"Please install jq manually: https://stedolan.github.io/jq/download/\"\n        exit 1\n    fi\nfi\n\n"@
}

/// The user-preferences section: data directory setup, backups, the jq
/// check, and the two jq blocks.
pub open spec fn mac_prefs_text(
    suffix: Seq<char>,
    search: SearchModel,
    dash: NewTabPage,
    fs: Seq<Seq<char>>,
) -> Seq<char> {
    "echo -e \"${GREEN}Modifying user preferences...${NC}\"\nBRAVE_DATA=\"$HOME/Library/Application Support/BraveSoftware/"@
        + suffix
        + "\"\nPREFS_FILE=\"$BRAVE_DATA/Default/Preferences\"\nLOCAL_STATE=\"$BRAVE_DATA/Local State\"\n\nmkdir -p \"$BRAVE_DATA/Default\"\n\n[ -f \"$PREFS_FILE\" ] && cp \"$PREFS_FILE\" \"$PREFS_FILE.backup\"\n[ -f \"$LOCAL_STATE\" ] && cp \"$LOCAL_STATE\" \"$LOCAL_STATE.backup\"\n\n"@
        + mac_jq_check_text() + jq_prefs_text(search, dash) + jq_local_state_text(fs)
        + "echo -e \"${GREEN}User preferences applied successfully!${NC}\"\necho\n\n"@
}

/// The constant closing of the script.
pub open spec fn mac_foot_text() -> Seq<char> {
    "echo -e \"${GREEN}Configuration complete!${NC}\"\necho -e \"${GREEN}Please restart Brave browser for changes to take effect.${NC}\"\n"@
}

/// The whole macOS script.
pub open spec fn macos_script_text(
    entries: Seq<EntryModel>,
    ids: Seq<Seq<char>>,
    version: BraveVersion,
    prefs_config: Option<PreferencesInputConfig>,
) -> Seq<char> {
    mac_head_text() + mac_policies_text(bundle_id_text(version), entries, ids)
        + mac_prefs_text(
        version_suffix_text(version),
        resolved_search_provider(prefs_config),
        resolved_dashboard(prefs_config),
        resolved_features(prefs_config),
    ) + mac_foot_text()
}

fn push_plist_items(out: &mut String, items: &Vec<String>)
    ensures
        final(out)@ == old(out)@ + plist_items_text(crate::config::texts_of(items@)),
{
    let ghost texts = crate::config::texts_of(items@);
    let ghost lines = Seq::new(texts.len(), |i: int| plist_item_line(texts[i]));
    let n = items.len();
    let mut i: usize = 0;
    while i < n
        invariant
            texts == crate::config::texts_of(items@),
            lines == Seq::new(texts.len(), |k: int| plist_item_line(texts[k])),
            lines.len() == texts.len(),
            n == items@.len(),
            n == texts.len(),
            0 <= i <= n,
            out@ == old(out)@ + concat_texts(lines.take(i as int)),
        decreases n - i,
    {
        let ghost pre = out@;
        out.append("        <string>");
        out.append(items[i].as_str());
        out.append("</string>\n");
        proof {
            assert(lines.take(i + 1) =~= lines.take(i as int).push(lines[i as int]));
            lemma_concat_texts_push(lines.take(i as int), lines[i as int]);
            assert(lines[i as int] == plist_item_line(texts[i as int]));
            assert(out@ =~= pre + lines[i as int]);
            assert(out@ =~= old(out)@ + concat_texts(lines.take(i + 1)));
        }
        i += 1;
    }
    proof {
        assert(lines.take(n as int) =~= lines);
    }
}

fn push_plist_entries(out: &mut String, config: &Config)
    ensures
        final(out)@ == old(out)@ + plist_entries_text(config@),
{
    let ghost entries = config@;
    let n = config.len();
    let mut i: usize = 0;
    while i < n
        invariant
            entries == config@,
            n == entries.len(),
            0 <= i <= n,
            out@ == old(out)@ + plist_entries_text(entries.take(i as int)),
        decreases n - i,
    {
        let ghost pre = out@;
        let e = config.entry(i);
        let excluded = str_eq(e.key.as_str(), "ExtensionInstallForcelist") || str_eq(
            e.key.as_str(),
            "ReportAppInventory",
        ) || str_eq(e.key.as_str(), "ReportWebsiteTelemetry");
        if !excluded {
            out.append("    <key>");
            out.append(e.key.as_str());
            out.append("</key>\n");
            match &e.value {
                ConfigValue::Bool(b) => {
                    if *b {
                        out.append("    <true/>");
                    } else {
                        out.append("    <false/>");
                    }
                },
                ConfigValue::Text(s) => {
                    out.append("    <string>");
                    out.append(s.as_str());
                    out.append("</string>");
                },
                ConfigValue::Integer(num) => {
                    out.append("    <integer>");
                    push_i32_dec(out, *num);
                    out.append("</integer>");
                },
                ConfigValue::TextList(items) => {
                    out.append("    <array>\n");
                    push_plist_items(out, items);
                    out.append("    </array>");
                },
            }
            out.append("\n");
        }
        proof {
            assert(entries.take(i + 1).drop_last() =~= entries.take(i as int));
            assert(entries.take(i + 1).last() == entries[i as int]);
            assert(out@ =~= pre + plist_entry_text(entries[i as int]));
            assert(out@ =~= old(out)@ + plist_entries_text(entries.take(i + 1)));
        }
        i += 1;
    }
    proof {
        assert(entries.take(n as int) =~= entries);
    }
}

fn push_mac_policies(out: &mut String, config: &Config, extensions: &Vec<Extension>, bundle: &str)
    ensures
        final(out)@ == old(out)@ + mac_policies_text(bundle@, config@, ids_of(extensions@)),
{
    out.append(
        "if [ \"$SKIP_POLICIES\" -eq 0 ]; then\n    echo -e \"${GREEN}Applying system policies...${NC}\"\n    mkdir -p /Library/Managed\\ Preferences\n    cat << 'EOF' > /Library/Managed\\ Preferences/",
    );
    out.append(bundle);
    out.append(
        ".plist\n<?xml version=\"1.0\" encoding=\"UTF-8\"?>\n<!DOCTYPE plist PUBLIC \"-//Apple//DTD PLIST 1.0//EN\" \"http://www.apple.com/DTDs/PropertyList-1.0.dtd\">\n<plist version=\"1.0\">\n<dict>\n",
    );
    push_plist_entries(out, config);
    out.append("    <key>ExtensionInstallForcelist</key>\n    <array>\n");
    let mut ids: Vec<String> = Vec::new();
    let mut i: usize = 0;
    while i < extensions.len()
        invariant
            0 <= i <= extensions@.len(),
            ids@.len() == i,
            forall|j: int| 0 <= j < i ==> ids@[j] == extensions@[j].id,
        decreases extensions@.len() - i,
    {
        ids.push(extensions[i].id.clone());
        i += 1;
    }
    proof {
        assert(crate::config::texts_of(ids@) =~= ids_of(extensions@));
    }
    push_plist_items(out, &ids);
    out.append("    </array>\n");
    out.append("</dict>\n</plist>\nEOF\n    chmod 644 /Library/Managed\\ Preferences/");
    out.append(bundle);
    out.append(
        ".plist\n    echo -e \"${GREEN}System policies applied successfully!${NC}\"\nelse\n    echo -e \"${YELLOW}Skipping system policies (not running as sudo)${NC}\"\nfi\necho\n\n",
    );
    proof {
        assert(out@ =~= old(out)@ + mac_policies_text(bundle@, config@, ids_of(extensions@)));
    }
}

#[verifier::rlimit(60)]
fn push_mac_prefs(out: &mut String, suffix: &str, prefs_config: Option<&PreferencesInputConfig>)
    ensures
        final(out)@ == old(out)@ + mac_prefs_text(
            suffix@,
            resolved_search_provider(deref_opt(prefs_config)),
            resolved_dashboard(deref_opt(prefs_config)),
            resolved_features(deref_opt(prefs_config)),
        ),
{
    let search = get_default_search_provider(prefs_config);
    let dashboard = get_default_dashboard_config(prefs_config);
    let features = get_default_experimental_features(prefs_config);
    out.append(
        "echo -e \"${GREEN}Modifying user preferences...${NC}\"\nBRAVE_DATA=\"$HOME/Library/Application Support/BraveSoftware/",
    );
    out.append(suffix);
    out.append(
        "\"\nPREFS_FILE=\"$BRAVE_DATA/Default/Preferences\"\nLOCAL_STATE=\"$BRAVE_DATA/Local State\"\n\nmkdir -p \"$BRAVE_DATA/Default\"\n\n[ -f \"$PREFS_FILE\" ] && cp \"$PREFS_FILE\" \"$PREFS_FILE.backup\"\n[ -f \"$LOCAL_STATE\" ] && cp \"$LOCAL_STATE\" \"$LOCAL_STATE.backup\"\n\n",
    );
    out.append(
        "if ! command -v jq &> /dev/null; then\n    echo -e \"${YELLOW}jq not found. Installing via Homebrew...${NC}\"\n    if command -v brew &> /dev/null; then\n        brew install jq\n    else\n        echo -e \"${RED}Error: jq is required but not installed and Homebrew is not available${NC}\"\n        echo \"Please install jq manually: https://stedolan.github.io/jq/download/\"\n        exit 1\n    fi\nfi\n\n",
    );
    push_jq_prefs(out, &search, &dashboard);
    push_jq_local_state(out, &features);
    out.append("echo -e \"${GREEN}User preferences applied successfully!${NC}\"\necho\n\n");
    proof {
        assert(out@ =~= old(out)@ + mac_prefs_text(
            suffix@,
            resolved_search_provider(deref_opt(prefs_config)),
            resolved_dashboard(deref_opt(prefs_config)),
            resolved_features(deref_opt(prefs_config)),
        ));
    }
}

/// The macOS renderer.
#[derive(Debug)]
pub struct MacOSGenerator;

impl MacOSGenerator {
    /// Renders the whole zsh script for the given inputs.
    pub fn generate_unified_script(
        config: &Config,
        extensions: &Vec<Extension>,
        version: &BraveVersion,
        preferences_config: Option<&PreferencesInputConfig>,
    ) -> (r: ScriptArtifact)
        ensures
            r.filename@ == macos_filename_text(*version),
            r.content@ == macos_script_text(
                config@,
                ids_of(extensions@),
                *version,
                deref_opt(preferences_config),
            ),
            r.executable == false,
    {
        let filename = macos_filename(version);
        let bundle = get_macos_bundle_id(version);
        let version_suffix = get_version_suffix(version);
        let mut content = String::new();
        content.append(
            "#!/bin/zsh\n# Unified Brave Browser Debloater Script for macOS\n# This script applies both policies and user preferences\n# Run with sudo for system-wide changes\n\n# Colors for output\nRED='\\033[0;31m'\nGREEN='\\033[0;32m'\nYELLOW='\\033[1;33m'\nNC='\\033[0m' # No Color\n\necho -e \"${GREEN}Brave Browser Debloater for macOS${NC}\"\necho -e \"${GREEN}====================================${NC}\"\necho\n\nif [ \"$EUID\" -ne 0 ]; then\n    echo -e \"${YELLOW}Note: Running without sudo. System policies will be skipped.${NC}\"\n    echo -e \"${YELLOW}Run with sudo for complete configuration.${NC}\"\n    SKIP_POLICIES=1\nelse\n    SKIP_POLICIES=0\nfi\necho\n\necho \"Checking if Brave is running...\"\nif pgrep -f \"Brave Browser\" > /dev/null; then\n    echo -e \"${YELLOW}WARNING: Brave browser is running!${NC}\"\n    echo \"Please close Brave browser before running this script.\"\n    echo \"Press Enter to continue anyway, or Ctrl+C to exit.\"\n    read\n    pkill -f \"Brave Browser\" 2>/dev/null\n    sleep 2\nfi\necho\n\n",
        );
        push_mac_policies(&mut content, config, extensions, bundle);
        push_mac_prefs(&mut content, version_suffix, preferences_config);
        content.append(
            "echo -e \"${GREEN}Configuration complete!${NC}\"\necho -e \"${GREEN}Please restart Brave browser for changes to take effect.${NC}\"\n",
        );
        proof {
            assert(content@ =~= macos_script_text(
                config@,
                ids_of(extensions@),
                *version,
                deref_opt(preferences_config),
            ));
        }
        ScriptArtifact {
            filename: String::from_str(filename),
            content,
            executable: false,
        }
    }
}

} // verus!
