//! The shapes of the preferences documents: the optional input document the
//! tool reads, and the browser-side Preferences / Local State structures the
//! generated scripts modify.

use vstd::prelude::*;

verus! {

/// A search provider: three required strings.
#[derive(Debug)]
pub struct SearchProvider {
    pub keyword: String,
    pub name: String,
    pub search_url: String,
}

impl Clone for SearchProvider {
    /// Produces a provider equal to this one.
    fn clone(&self) -> (r: Self)
        ensures
            r == *self,
    {
        SearchProvider {
            keyword: self.keyword.clone(),
            name: self.name.clone(),
            search_url: self.search_url.clone(),
        }
    }
}

/// The new-tab-page dashboard toggles.  An absent field means "emit no
/// instruction for it", which is distinct from `Some(false)`.
#[derive(Debug, Clone, Copy)]
pub struct NewTabPage {
    pub show_clock: Option<bool>,
    pub show_background_image: Option<bool>,
    pub show_stats: Option<bool>,
    pub show_shortcuts: Option<bool>,
    pub show_branded_background_image: Option<bool>,
    pub show_cards: Option<bool>,
    pub show_search_widget: Option<bool>,
    pub show_brave_news: Option<bool>,
    pub show_together: Option<bool>,
}

/// The browser statistics-reporting toggle.
#[derive(Debug, Clone, Copy)]
pub struct BraveStats {
    pub enabled: Option<bool>,
}

/// The news-widget toggle.
#[derive(Debug, Clone, Copy)]
pub struct BraveToday {
    pub should_show_brave_today_widget: Option<bool>,
}

/// The browser-specific section of the Preferences file.
#[derive(Debug, Clone, Copy)]
pub struct BravePreferences {
    pub new_tab_page: Option<NewTabPage>,
    pub stats: Option<BraveStats>,
    pub today: Option<BraveToday>,
}

/// The browser section holding the experimental feature flags.
#[derive(Debug)]
pub struct BrowserPreferences {
    pub enabled_labs_experiments: Option<Vec<String>>,
}

/// The per-profile Preferences file structure.
#[derive(Debug)]
pub struct UserPreferences {
    pub default_search_provider_data: Option<SearchProvider>,
    pub brave: Option<BravePreferences>,
    pub browser: Option<BrowserPreferences>,
}

/// The browser-level Local State file structure.
#[derive(Debug)]
pub struct LocalState {
    pub browser: Option<BrowserPreferences>,
}

/// The optional preferences input document.  Its absence is a valid
/// "use defaults" signal, not an error.
#[derive(Debug)]
pub struct PreferencesInputConfig {
    pub search_engines: Vec<SearchProvider>,
    pub dashboard: NewTabPage,
    pub experimental_features: Vec<String>,
}

/// A pair of preference documents, as stored on the target system.
#[derive(Debug)]
pub struct PreferencesConfig {
    pub preferences: Option<UserPreferences>,
    pub local_state: Option<LocalState>,
}

} // verus!
