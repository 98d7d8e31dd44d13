//! The Windows renderer: one `reg add` line per simple entry, forcelist
//! lines numbered from 1 in list order, string lists silently dropped.

use brave_debloater::cli::BraveVersion;
use brave_debloater::config::{Config, ConfigValue, Extension};
use brave_debloater::platforms::windows::WindowsGenerator;
use brave_debloater::preferences::types::{NewTabPage, PreferencesInputConfig};

fn extension(id: &str) -> Extension {
    Extension {
        id: id.to_string(),
        name: format!("{id} name"),
        description: format!("{id} description"),
    }
}

fn simple_config() -> Config {
    let mut config = Config::new();
    config.insert("A".to_string(), ConfigValue::Bool(true));
    config.insert("B".to_string(), ConfigValue::Text("x".to_string()));
    config.insert("C".to_string(), ConfigValue::Integer(7));
    config
}

#[test]
fn one_reg_add_line_per_simple_entry() {
    let config = simple_config();
    let artifact = WindowsGenerator::generate_unified_script(
        &config,
        &vec![],
        &BraveVersion::Normal,
        None,
    );
    let reg_lines: Vec<&str> =
        artifact.content.lines().filter(|l| l.starts_with("reg add ")).collect();
    assert_eq!(reg_lines.len(), 3);
    assert!(artifact.content.contains(
        "reg add \"HKEY_LOCAL_MACHINE\\SOFTWARE\\Policies\\BraveSoftware\\Brave\" /v \"A\" /t REG_DWORD /d 1 /f >nul 2>&1\n"
    ));
    assert!(artifact.content.contains(
        "reg add \"HKEY_LOCAL_MACHINE\\SOFTWARE\\Policies\\BraveSoftware\\Brave\" /v \"B\" /t REG_SZ /d \"x\" /f >nul 2>&1\n"
    ));
    assert!(artifact.content.contains(
        "reg add \"HKEY_LOCAL_MACHINE\\SOFTWARE\\Policies\\BraveSoftware\\Brave\" /v \"C\" /t REG_DWORD /d 7 /f >nul 2>&1\n"
    ));
}

#[test]
fn forcelist_lines_numbered_in_order() {
    let config = Config::new();
    let extensions = vec![extension("ext1"), extension("ext2"), extension("ext3")];
    let artifact = WindowsGenerator::generate_unified_script(
        &config,
        &extensions,
        &BraveVersion::Normal,
        None,
    );
    let lines: Vec<&str> = artifact
        .content
        .lines()
        .filter(|l| l.contains("\\ExtensionInstallForcelist\""))
        .collect();
    assert_eq!(lines.len(), 3);
    assert!(lines[0].contains("/v \"1\""));
    assert!(lines[0].contains("/d \"ext1\""));
    assert!(lines[1].contains("/v \"2\""));
    assert!(lines[1].contains("/d \"ext2\""));
    assert!(lines[2].contains("/v \"3\""));
    assert!(lines[2].contains("/d \"ext3\""));
}

#[test]
fn string_list_entries_and_forcelist_key_are_skipped() {
    let mut config = Config::new();
    config.insert(
        "List".to_string(),
        ConfigValue::TextList(vec!["a".to_string(), "b".to_string()]),
    );
    config.insert("ExtensionInstallForcelist".to_string(), ConfigValue::Bool(true));
    let artifact = WindowsGenerator::generate_unified_script(
        &config,
        &vec![],
        &BraveVersion::Normal,
        None,
    );
    let reg_lines: Vec<&str> =
        artifact.content.lines().filter(|l| l.starts_with("reg add ")).collect();
    assert_eq!(reg_lines.len(), 0);
}

#[test]
fn negative_integer_rendered_in_decimal() {
    let mut config = Config::new();
    config.insert("N".to_string(), ConfigValue::Integer(-42));
    let artifact = WindowsGenerator::generate_unified_script(
        &config,
        &vec![],
        &BraveVersion::Normal,
        None,
    );
    assert!(artifact.content.contains("/v \"N\" /t REG_DWORD /d -42 /f"));
}

#[test]
fn filename_and_suffix_follow_the_track() {
    let mut config = Config::new();
    config.insert("A".to_string(), ConfigValue::Bool(true));
    let normal = WindowsGenerator::generate_unified_script(
        &config,
        &vec![],
        &BraveVersion::Normal,
        None,
    );
    assert_eq!(normal.filename, "brave_debloat.bat");
    assert!(!normal.executable);
    assert!(normal.content.contains("BraveSoftware\\Brave-Browser\\User Data"));
    let nightly = WindowsGenerator::generate_unified_script(
        &config,
        &vec![],
        &BraveVersion::Nightly,
        None,
    );
    assert_eq!(nightly.filename, "brave_nightly_debloat.bat");
    assert!(nightly.content.contains("BraveSoftware\\Brave-Browser-Nightly\\User Data"));
    assert!(nightly.content.contains("SOFTWARE\\Policies\\BraveSoftware\\Brave-Nightly"));
}

#[test]
fn sparse_dashboard_emits_only_present_toggles() {
    let prefs = PreferencesInputConfig {
        search_engines: vec![],
        dashboard: NewTabPage {
            show_clock: Some(false),
            show_background_image: None,
            show_stats: None,
            show_shortcuts: None,
            show_branded_background_image: None,
            show_cards: None,
            show_search_widget: None,
            show_brave_news: None,
            show_together: None,
        },
        experimental_features: vec!["flag-a@1".to_string()],
    };
    let config = Config::new();
    let artifact = WindowsGenerator::generate_unified_script(
        &config,
        &vec![],
        &BraveVersion::Normal,
        Some(&prefs),
    );
    assert_eq!(artifact.content.matches("$prefs.brave.new_tab_page.show_").count(), 1);
    assert!(artifact.content.contains("$prefs.brave.new_tab_page.show_clock = $false\n"));
}

#[test]
fn dashboard_defaults_appear_in_powershell_block() {
    let config = Config::new();
    let artifact = WindowsGenerator::generate_unified_script(
        &config,
        &vec![],
        &BraveVersion::Normal,
        None,
    );
    assert!(artifact.content.contains("$prefs.brave.new_tab_page.show_clock = $true\n"));
    assert!(artifact.content.contains("$prefs.brave.new_tab_page.show_brave_news = $false\n"));
    assert!(artifact.content.contains("$prefs.brave.stats.enabled = $false\n"));
    assert!(artifact
        .content
        .contains("$prefs.brave.today.should_show_brave_today_widget = $false\n"));
    assert!(artifact.content.contains("$prefs.default_search_provider_data.keyword = 'brave'\n"));
    assert!(artifact.content.contains("    'brave-adblock-experimental-list-default@1'\n"));
}
