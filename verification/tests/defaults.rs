//! The preferences defaulting rules: fixed defaults when the input
//! document is absent, the document's values verbatim when it is present.

use brave_debloater::preferences::handlers::{
    get_default_dashboard_config, get_default_experimental_features, get_default_search_provider,
};
use brave_debloater::preferences::types::{NewTabPage, PreferencesInputConfig, SearchProvider};

fn sparse_dashboard() -> NewTabPage {
    NewTabPage {
        show_clock: Some(false),
        show_background_image: None,
        show_stats: None,
        show_shortcuts: None,
        show_branded_background_image: None,
        show_cards: None,
        show_search_widget: None,
        show_brave_news: None,
        show_together: None,
    }
}

#[test]
fn search_provider_defaults_when_absent() {
    let provider = get_default_search_provider(None);
    assert_eq!(provider.keyword, "brave");
    assert_eq!(provider.name, "Brave Search");
    assert_eq!(provider.search_url, "https://search.brave.com/search?q={searchTerms}");
}

#[test]
fn search_provider_takes_first_engine() {
    let prefs = PreferencesInputConfig {
        search_engines: vec![
            SearchProvider {
                keyword: "ddg".to_string(),
                name: "DuckDuckGo".to_string(),
                search_url: "https://duckduckgo.com/?q={searchTerms}".to_string(),
            },
            SearchProvider {
                keyword: "other".to_string(),
                name: "Other".to_string(),
                search_url: "https://example.com/?q={searchTerms}".to_string(),
            },
        ],
        dashboard: sparse_dashboard(),
        experimental_features: vec![],
    };
    let provider = get_default_search_provider(Some(&prefs));
    assert_eq!(provider.keyword, "ddg");
    assert_eq!(provider.name, "DuckDuckGo");
    assert_eq!(provider.search_url, "https://duckduckgo.com/?q={searchTerms}");
}

#[test]
fn search_provider_defaults_when_engine_list_empty() {
    let prefs = PreferencesInputConfig {
        search_engines: vec![],
        dashboard: sparse_dashboard(),
        experimental_features: vec![],
    };
    let provider = get_default_search_provider(Some(&prefs));
    assert_eq!(provider.keyword, "brave");
    assert_eq!(provider.name, "Brave Search");
    assert_eq!(provider.search_url, "https://search.brave.com/search?q={searchTerms}");
}

#[test]
fn dashboard_defaults_when_absent() {
    let dashboard = get_default_dashboard_config(None);
    assert_eq!(dashboard.show_clock, Some(true));
    assert_eq!(dashboard.show_background_image, Some(false));
    assert_eq!(dashboard.show_stats, Some(false));
    assert_eq!(dashboard.show_shortcuts, Some(false));
    assert_eq!(dashboard.show_branded_background_image, Some(false));
    assert_eq!(dashboard.show_cards, Some(false));
    assert_eq!(dashboard.show_search_widget, Some(false));
    assert_eq!(dashboard.show_brave_news, Some(false));
    assert_eq!(dashboard.show_together, Some(false));
}

#[test]
fn dashboard_sparse_document_is_taken_verbatim() {
    let prefs = PreferencesInputConfig {
        search_engines: vec![],
        dashboard: sparse_dashboard(),
        experimental_features: vec![],
    };
    let dashboard = get_default_dashboard_config(Some(&prefs));
    assert_eq!(dashboard.show_clock, Some(false));
    assert_eq!(dashboard.show_background_image, None);
    assert_eq!(dashboard.show_stats, None);
    assert_eq!(dashboard.show_shortcuts, None);
    assert_eq!(dashboard.show_branded_background_image, None);
    assert_eq!(dashboard.show_cards, None);
    assert_eq!(dashboard.show_search_widget, None);
    assert_eq!(dashboard.show_brave_news, None);
    assert_eq!(dashboard.show_together, None);
}

#[test]
fn features_default_when_absent() {
    let features = get_default_experimental_features(None);
    assert_eq!(features, vec!["brave-adblock-experimental-list-default@1".to_string()]);
}

#[test]
fn features_taken_verbatim_when_present() {
    let prefs = PreferencesInputConfig {
        search_engines: vec![],
        dashboard: sparse_dashboard(),
        experimental_features: vec!["flag-a@1".to_string(), "flag-b@2".to_string()],
    };
    let features = get_default_experimental_features(Some(&prefs));
    assert_eq!(features, vec!["flag-a@1".to_string(), "flag-b@2".to_string()]);
}
