//! The facade: renderer selection by platform, inputs passed through
//! unchanged, and the end-to-end Linux scenario.

use brave_debloater::cli::{BraveVersion, Platform};
use brave_debloater::config::{Config, ConfigValue, Extension};
use brave_debloater::generator::DebloaterGenerator;

fn inputs() -> (Config, Vec<Extension>) {
    let mut config = Config::new();
    config.insert("A".to_string(), ConfigValue::Bool(true));
    config.insert("B".to_string(), ConfigValue::Text("x".to_string()));
    config.insert("C".to_string(), ConfigValue::Integer(7));
    let extensions = vec![Extension {
        id: "ext1".to_string(),
        name: "Extension One".to_string(),
        description: "The first extension".to_string(),
    }];
    (config, extensions)
}

#[test]
fn facade_selects_windows_renderer() {
    let (config, extensions) = inputs();
    let generator = DebloaterGenerator::new(
        config,
        extensions,
        Platform::Windows,
        BraveVersion::Normal,
        "output".to_string(),
        None,
    );
    let artifact = generator.render();
    assert_eq!(artifact.filename, "brave_debloat.bat");
    assert!(!artifact.executable);
    assert!(artifact.content.starts_with("@echo off\n"));
    assert_eq!(generator.output_dir, "output");
}

#[test]
fn facade_selects_macos_renderer() {
    let (config, extensions) = inputs();
    let generator = DebloaterGenerator::new(
        config,
        extensions,
        Platform::MacOS,
        BraveVersion::Nightly,
        "out".to_string(),
        None,
    );
    let artifact = generator.render();
    assert_eq!(artifact.filename, "brave_nightly_debloat_macos.sh");
    assert!(!artifact.executable);
    assert!(artifact.content.starts_with("#!/bin/zsh\n"));
}

#[test]
fn end_to_end_linux_scenario() {
    let (config, extensions) = inputs();
    let generator = DebloaterGenerator::new(
        config,
        extensions,
        Platform::Linux,
        BraveVersion::Normal,
        "output".to_string(),
        None,
    );
    let artifact = generator.render();
    assert_eq!(artifact.filename, "brave_debloat_linux.sh");
    assert!(artifact.executable);
    assert!(artifact.content.contains("/etc/brave/policies/managed/brave.json"));

    let marker = "    cat << 'EOF' > '/etc/brave/policies/managed/brave.json'\n";
    let start = artifact.content.find(marker).expect("heredoc present") + marker.len();
    let end = artifact.content[start..].find("\nEOF\n").expect("terminator") + start;
    let parsed: serde_json::Value =
        serde_json::from_str(&artifact.content[start..end]).expect("embedded JSON parses");
    let mut expected = serde_json::Map::new();
    expected.insert("A".to_string(), serde_json::Value::Bool(true));
    expected.insert("B".to_string(), serde_json::Value::String("x".to_string()));
    expected.insert("C".to_string(), serde_json::Value::from(7));
    expected.insert(
        "ExtensionInstallForcelist".to_string(),
        serde_json::Value::Array(vec![serde_json::Value::String("ext1".to_string())]),
    );
    assert_eq!(parsed, serde_json::Value::Object(expected));
}
