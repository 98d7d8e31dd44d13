//! Resolves the optional preferences input document into three concrete
//! values, falling back to fixed defaults per field.  Total functions: they
//! never fail.

use vstd::prelude::*;
use crate::config::texts_of;
use crate::preferences::types::{NewTabPage, PreferencesInputConfig, SearchProvider};

verus! {

/// The model of a resolved search provider.
pub struct SearchModel {
    pub keyword: Seq<char>,
    pub name: Seq<char>,
    pub search_url: Seq<char>,
}

/// The fixed default search provider.
pub open spec fn default_search_model() -> SearchModel {
    SearchModel {
        keyword: "brave"@,
        name: "Brave Search"@,
        search_url: "https://search.brave.com/search?q={searchTerms}"@,
    }
}

/// The preferences document behind an optional reference, as a value.
pub open spec fn deref_opt(p: Option<&PreferencesInputConfig>) -> Option<PreferencesInputConfig> {
    match p {
        Option::Some(r) => Option::Some(*r),
        Option::None => Option::None,
    }
}

/// The resolved search provider: the first configured engine when the input
/// document is present and lists one, else the fixed default.
pub open spec fn resolved_search_provider(
    prefs_config: Option<PreferencesInputConfig>,
) -> SearchModel {
    match prefs_config {
        Option::Some(p) => if p.search_engines@.len() > 0 {
            SearchModel {
                keyword: p.search_engines@[0].keyword@,
                name: p.search_engines@[0].name@,
                search_url: p.search_engines@[0].search_url@,
            }
        } else {
            default_search_model()
        },
        Option::None => default_search_model(),
    }
}

/// The fixed default dashboard: the clock on, the eight other toggles off.
pub open spec fn default_dashboard() -> NewTabPage {
    NewTabPage {
        show_clock: Some(true),
        show_background_image: Some(false),
        show_stats: Some(false),
        show_shortcuts: Some(false),
        show_branded_background_image: Some(false),
        show_cards: Some(false),
        show_search_widget: Some(false),
        show_brave_news: Some(false),
        show_together: Some(false),
    }
}

/// The resolved dashboard: the input's dashboard verbatim when the document
/// is present (absent fields stay absent), else the fixed default.
pub open spec fn resolved_dashboard(prefs_config: Option<PreferencesInputConfig>) -> NewTabPage {
    match prefs_config {
        Option::Some(p) => p.dashboard,
        Option::None => default_dashboard(),
    }
}

/// The resolved experimental feature list: the input's list verbatim when
/// the document is present, else the fixed single-element default.
pub open spec fn resolved_features(prefs_config: Option<PreferencesInputConfig>) -> Seq<
    Seq<char>,
> {
    match prefs_config {
        Option::Some(p) => texts_of(p.experimental_features@),
        Option::None => seq!["brave-adblock-experimental-list-default@1"@],
    }
}

/// The search provider the renderers embed: the first configured engine, or
/// the fixed default when the input document is absent or lists none.
pub fn get_default_search_provider(prefs_config: Option<&PreferencesInputConfig>) -> (r:
    SearchProvider)
    ensures
        r.keyword@ == resolved_search_provider(deref_opt(prefs_config)).keyword,
        r.name@ == resolved_search_provider(deref_opt(prefs_config)).name,
        r.search_url@ == resolved_search_provider(deref_opt(prefs_config)).search_url,
        match prefs_config {
            Option::Some(p) => p.search_engines@.len() > 0 ==> r == p.search_engines@[0],
            Option::None => true,
        },
{
    match prefs_config {
        Option::Some(p) => {
            if p.search_engines.len() > 0 {
                return p.search_engines[0].clone();
            }
        },
        Option::None => {},
    }
    SearchProvider {
        keyword: String::from_str("brave"),
        name: String::from_str("Brave Search"),
        search_url: String::from_str("https://search.brave.com/search?q={searchTerms}"),
    }
}

/// The dashboard configuration the renderers embed: the input's dashboard
/// verbatim when the document is present, else the fixed default.
pub fn get_default_dashboard_config(prefs_config: Option<&PreferencesInputConfig>) -> (r:
    NewTabPage)
    ensures
        r == resolved_dashboard(deref_opt(prefs_config)),
{
    match prefs_config {
        Option::Some(p) => p.dashboard,
        Option::None => NewTabPage {
            show_clock: Some(true),
            show_background_image: Some(false),
            show_stats: Some(false),
            show_shortcuts: Some(false),
            show_branded_background_image: Some(false),
            show_cards: Some(false),
            show_search_widget: Some(false),
            show_brave_news: Some(false),
            show_together: Some(false),
        },
    }
}

/// The experimental feature list the renderers embed: the input's list
/// verbatim when the document is present, else the fixed default.
pub fn get_default_experimental_features(prefs_config: Option<&PreferencesInputConfig>) -> (r: Vec<
    String,
>)
    ensures
        texts_of(r@) == resolved_features(deref_opt(prefs_config)),
        match prefs_config {
            Option::Some(p) => r@ == p.experimental_features@,
            Option::None => true,
        },
{
    match prefs_config {
        Option::Some(p) => {
            let r = crate::config::clone_string_vec(&p.experimental_features);
            proof {
                assert(texts_of(r@) =~= resolved_features(deref_opt(prefs_config)));
            }
            r
        },
        Option::None => {
            let mut r: Vec<String> = Vec::new();
            r.push(String::from_str("brave-adblock-experimental-list-default@1"));
            proof {
                assert(texts_of(r@) =~= resolved_features(deref_opt(prefs_config)));
            }
            r
        },
    }
}

} // verus!
