//! The Linux renderer: the policy JSON embedded in the script parses back
//! to the configuration plus the forcelist, and the artifact is the only
//! executable one.

use brave_debloater::cli::BraveVersion;
use brave_debloater::config::{Config, ConfigValue, Extension};
use brave_debloater::platforms::linux::LinuxGenerator;
use brave_debloater::preferences::types::{NewTabPage, PreferencesInputConfig, SearchProvider};

fn extension(id: &str) -> Extension {
    Extension {
        id: id.to_string(),
        name: format!("{id} name"),
        description: format!("{id} description"),
    }
}

fn embedded_policy_json(content: &str, path: &str) -> serde_json::Value {
    let marker = format!("    cat << 'EOF' > '{path}'\n");
    let start = content.find(&marker).expect("policy heredoc present") + marker.len();
    let end = content[start..].find("\nEOF\n").expect("heredoc terminator present") + start;
    serde_json::from_str(&content[start..end]).expect("embedded policy JSON parses")
}

#[test]
fn policy_json_round_trips_with_forcelist() {
    let mut config = Config::new();
    config.insert("A".to_string(), ConfigValue::Bool(true));
    config.insert("B".to_string(), ConfigValue::Text("x".to_string()));
    config.insert("C".to_string(), ConfigValue::Integer(7));
    let artifact = LinuxGenerator::generate_unified_script(
        &config,
        &vec![extension("ext1")],
        &BraveVersion::Normal,
        None,
    );
    assert!(artifact.content.contains("/etc/brave/policies/managed/brave.json"));
    let parsed = embedded_policy_json(&artifact.content, "/etc/brave/policies/managed/brave.json");
    let mut expected_map = serde_json::Map::new();
    expected_map.insert("A".to_string(), serde_json::Value::Bool(true));
    expected_map.insert("B".to_string(), serde_json::Value::String("x".to_string()));
    expected_map.insert("C".to_string(), serde_json::Value::from(7));
    expected_map.insert(
        "ExtensionInstallForcelist".to_string(),
        serde_json::Value::Array(vec![serde_json::Value::String("ext1".to_string())]),
    );
    assert_eq!(parsed, serde_json::Value::Object(expected_map));
}

#[test]
fn policy_json_keeps_original_entries_unchanged() {
    let mut config = Config::new();
    config.insert("Keep".to_string(), ConfigValue::Text("value".to_string()));
    config.insert(
        "List".to_string(),
        ConfigValue::TextList(vec!["a".to_string(), "b".to_string()]),
    );
    let artifact = LinuxGenerator::generate_unified_script(
        &config,
        &vec![extension("one"), extension("two")],
        &BraveVersion::Normal,
        None,
    );
    let parsed = embedded_policy_json(&artifact.content, "/etc/brave/policies/managed/brave.json");
    let object = parsed.as_object().expect("object");
    assert_eq!(object.len(), 3);
    assert_eq!(object["Keep"], serde_json::Value::String("value".to_string()));
    assert_eq!(
        object["List"],
        serde_json::Value::Array(vec![
            serde_json::Value::String("a".to_string()),
            serde_json::Value::String("b".to_string()),
        ])
    );
    assert_eq!(
        object["ExtensionInstallForcelist"],
        serde_json::Value::Array(vec![
            serde_json::Value::String("one".to_string()),
            serde_json::Value::String("two".to_string()),
        ])
    );
}

#[test]
fn no_forcelist_key_without_extensions() {
    let mut config = Config::new();
    config.insert("A".to_string(), ConfigValue::Bool(false));
    let artifact = LinuxGenerator::generate_unified_script(
        &config,
        &vec![],
        &BraveVersion::Normal,
        None,
    );
    let parsed = embedded_policy_json(&artifact.content, "/etc/brave/policies/managed/brave.json");
    let object = parsed.as_object().expect("object");
    assert_eq!(object.len(), 1);
    assert!(!object.contains_key("ExtensionInstallForcelist"));
}

#[test]
fn existing_forcelist_entry_is_replaced() {
    let mut config = Config::new();
    config.insert(
        "ExtensionInstallForcelist".to_string(),
        ConfigValue::TextList(vec!["stale".to_string()]),
    );
    let artifact = LinuxGenerator::generate_unified_script(
        &config,
        &vec![extension("fresh")],
        &BraveVersion::Normal,
        None,
    );
    let parsed = embedded_policy_json(&artifact.content, "/etc/brave/policies/managed/brave.json");
    let object = parsed.as_object().expect("object");
    assert_eq!(object.len(), 1);
    assert_eq!(
        object["ExtensionInstallForcelist"],
        serde_json::Value::Array(vec![serde_json::Value::String("fresh".to_string())])
    );
}

#[test]
fn artifact_is_executable_and_track_aware() {
    let config = Config::new();
    let normal = LinuxGenerator::generate_unified_script(
        &config,
        &vec![],
        &BraveVersion::Normal,
        None,
    );
    assert_eq!(normal.filename, "brave_debloat_linux.sh");
    assert!(normal.executable);
    assert!(normal.content.starts_with("#!/bin/bash\n"));
    let nightly = LinuxGenerator::generate_unified_script(
        &config,
        &vec![],
        &BraveVersion::Nightly,
        None,
    );
    assert_eq!(nightly.filename, "brave_nightly_debloat_linux.sh");
    assert!(nightly.content.contains("/etc/brave-nightly/policies/managed/brave.json"));
}

#[test]
fn preferences_document_flows_into_jq_blocks() {
    let prefs = PreferencesInputConfig {
        search_engines: vec![SearchProvider {
            keyword: "ddg".to_string(),
            name: "DuckDuckGo".to_string(),
            search_url: "https://duckduckgo.com/?q={searchTerms}".to_string(),
        }],
        dashboard: NewTabPage {
            show_clock: Some(false),
            show_background_image: None,
            show_stats: None,
            show_shortcuts: None,
            show_branded_background_image: None,
            show_cards: None,
            show_search_widget: None,
            show_brave_news: None,
            show_together: None,
        },
        experimental_features: vec!["flag-a@1".to_string(), "flag-b@2".to_string()],
    };
    let config = Config::new();
    let artifact = LinuxGenerator::generate_unified_script(
        &config,
        &vec![],
        &BraveVersion::Normal,
        Some(&prefs),
    );
    assert!(artifact.content.contains("    \"keyword\": \"ddg\",\n"));
    assert!(artifact.content.contains("    \"name\": \"DuckDuckGo\",\n"));
    assert!(artifact
        .content
        .contains("    \"search_url\": \"https://duckduckgo.com/?q={searchTerms}\"\n"));
    assert_eq!(artifact.content.matches("  .brave.new_tab_page.show_").count(), 1);
    assert!(artifact.content.contains("  .brave.new_tab_page.show_clock = false |\n"));
    assert!(artifact.content.contains("    \"flag-a@1\",\n    \"flag-b@2\"\n"));
}

#[test]
fn flatpak_paths_follow_the_track() {
    let config = Config::new();
    let artifact = LinuxGenerator::generate_unified_script(
        &config,
        &vec![],
        &BraveVersion::Normal,
        None,
    );
    assert!(artifact
        .content
        .contains("$HOME/.var/app/com.brave.Browser/config/BraveSoftware/Brave-Browser"));
    assert!(artifact.content.contains("$HOME/.config/BraveSoftware/Brave-Browser"));
    assert!(artifact.content.contains("sudo apt-get update && sudo apt-get install -y jq"));
}
