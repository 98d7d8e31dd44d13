//! The macOS renderer: the plist never carries the two reporting keys or a
//! generic forcelist entry, and always carries the forcelist array built
//! from the extension list alone.

use brave_debloater::cli::BraveVersion;
use brave_debloater::config::{Config, ConfigValue, Extension};
use brave_debloater::platforms::macos::MacOSGenerator;

fn extension(id: &str) -> Extension {
    Extension {
        id: id.to_string(),
        name: format!("{id} name"),
        description: format!("{id} description"),
    }
}

#[test]
fn reserved_keys_never_reach_the_plist() {
    let mut config = Config::new();
    config.insert("ReportAppInventory".to_string(), ConfigValue::Bool(true));
    config.insert("ReportWebsiteTelemetry".to_string(), ConfigValue::Bool(false));
    config.insert(
        "ExtensionInstallForcelist".to_string(),
        ConfigValue::TextList(vec!["stale".to_string()]),
    );
    config.insert("KeepMe".to_string(), ConfigValue::Bool(true));
    let artifact = MacOSGenerator::generate_unified_script(
        &config,
        &vec![extension("ext1")],
        &BraveVersion::Normal,
        None,
    );
    assert!(!artifact.content.contains("<key>ReportAppInventory</key>"));
    assert!(!artifact.content.contains("<key>ReportWebsiteTelemetry</key>"));
    assert!(!artifact.content.contains("stale"));
    assert!(artifact.content.contains("    <key>KeepMe</key>\n    <true/>\n"));
    assert_eq!(artifact.content.matches("<key>ExtensionInstallForcelist</key>").count(), 1);
    assert!(artifact.content.contains(
        "    <key>ExtensionInstallForcelist</key>\n    <array>\n        <string>ext1</string>\n    </array>\n"
    ));
}

#[test]
fn forcelist_array_present_even_without_extensions() {
    let mut config = Config::new();
    config.insert("A".to_string(), ConfigValue::Bool(true));
    let artifact = MacOSGenerator::generate_unified_script(
        &config,
        &vec![],
        &BraveVersion::Normal,
        None,
    );
    assert!(artifact.content.contains(
        "    <key>ExtensionInstallForcelist</key>\n    <array>\n    </array>\n"
    ));
}

#[test]
fn forcelist_ids_in_list_order() {
    let config = Config::new();
    let artifact = MacOSGenerator::generate_unified_script(
        &config,
        &vec![extension("first"), extension("second")],
        &BraveVersion::Normal,
        None,
    );
    assert!(artifact.content.contains(
        "    <array>\n        <string>first</string>\n        <string>second</string>\n    </array>\n"
    ));
}

#[test]
fn plist_value_encodings() {
    let mut config = Config::new();
    config.insert("Flag".to_string(), ConfigValue::Bool(false));
    config.insert("Name".to_string(), ConfigValue::Text("hello".to_string()));
    config.insert("Count".to_string(), ConfigValue::Integer(-3));
    config.insert(
        "Items".to_string(),
        ConfigValue::TextList(vec!["one".to_string(), "two".to_string()]),
    );
    let artifact = MacOSGenerator::generate_unified_script(
        &config,
        &vec![],
        &BraveVersion::Normal,
        None,
    );
    assert!(artifact.content.contains("    <key>Flag</key>\n    <false/>\n"));
    assert!(artifact.content.contains("    <key>Name</key>\n    <string>hello</string>\n"));
    assert!(artifact.content.contains("    <key>Count</key>\n    <integer>-3</integer>\n"));
    assert!(artifact.content.contains(
        "    <key>Items</key>\n    <array>\n        <string>one</string>\n        <string>two</string>\n    </array>\n"
    ));
}

#[test]
fn bundle_id_follows_the_track() {
    let config = Config::new();
    let normal = MacOSGenerator::generate_unified_script(
        &config,
        &vec![],
        &BraveVersion::Normal,
        None,
    );
    assert_eq!(normal.filename, "brave_debloat_macos.sh");
    assert!(!normal.executable);
    assert!(normal.content.contains("/Library/Managed\\ Preferences/com.brave.Browser.plist"));
    let nightly = MacOSGenerator::generate_unified_script(
        &config,
        &vec![],
        &BraveVersion::Nightly,
        None,
    );
    assert_eq!(nightly.filename, "brave_nightly_debloat_macos.sh");
    assert!(nightly
        .content
        .contains("/Library/Managed\\ Preferences/com.brave.Browser.nightly.plist"));
}
