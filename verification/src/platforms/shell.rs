//! The shell fragments the macOS and Linux renderers share: the jq filter
//! that rewrites the Preferences file and the jq filter that replaces the
//! experimental feature list in Local State.

use vstd::prelude::*;
use crate::config::texts_of;
use crate::preferences::handlers::SearchModel;
use crate::preferences::types::{NewTabPage, SearchProvider};
use crate::text::{bool_str, bool_text, joined_texts, lemma_joined_texts_push};

verus! {

/// One jq dashboard assignment, or nothing when the toggle is absent.
pub open spec fn jq_dash_line(field: Seq<char>, v: Option<bool>) -> Seq<char> {
    match v {
        Option::None => Seq::<char>::empty(),
        Option::Some(b) => "  .brave.new_tab_page."@ + field + " = "@ + bool_text(b) + " |\n"@,
    }
}

/// The jq dashboard assignments: one filter step per present toggle, in the
/// fixed field order, and nothing for an absent toggle.
pub open spec fn jq_dashboard_text(d: NewTabPage) -> Seq<char> {
    jq_dash_line("show_clock"@, d.show_clock) + jq_dash_line(
        "show_background_image"@,
        d.show_background_image,
    ) + jq_dash_line("show_stats"@, d.show_stats) + jq_dash_line(
        "show_shortcuts"@,
        d.show_shortcuts,
    ) + jq_dash_line("show_branded_background_image"@, d.show_branded_background_image)
        + jq_dash_line("show_cards"@, d.show_cards) + jq_dash_line(
        "show_search_widget"@,
        d.show_search_widget,
    ) + jq_dash_line("show_brave_news"@, d.show_brave_news) + jq_dash_line(
        "show_together"@,
        d.show_together,
    )
}

/// The block that loads the Preferences file (or an empty object), pipes it
/// through the jq filter that sets the search provider, the dashboard
/// toggles, and the two unconditional toggles, and writes it back.
pub open spec fn jq_prefs_text(search: SearchModel, dash: NewTabPage) -> Seq<char> {
    "# Create or modify Preferences file\nif [ -f \"$PREFS_FILE\" ]; then\n    PREFS_JSON=$(cat \"$PREFS_FILE\")\nelse\n    PREFS_JSON='{}'\nfi\n\nPREFS_JSON=$(echo \"$PREFS_JSON\" | jq '\n  .default_search_provider_data = {\n    \"keyword\": \""@
        + search.keyword + "\",\n    \"name\": \""@ + search.name
        + "\",\n    \"search_url\": \""@ + search.search_url
        + "\"\n  } |\n  .brave = (.brave // {}) |\n  .brave.new_tab_page = (.brave.new_tab_page // {}) |\n  .brave.stats = (.brave.stats // {}) |\n  .brave.today = (.brave.today // {}) |\n"@
        + jq_dashboard_text(dash)
        + "  .brave.stats.enabled = false |\n  .brave.today.should_show_brave_today_widget = false\n')\n\necho \"$PREFS_JSON\" > \"$PREFS_FILE\"\n\n"@
}

/// One feature element of the jq list.
pub open spec fn jq_feature_items(fs: Seq<Seq<char>>) -> Seq<Seq<char>> {
    Seq::new(fs.len(), |i: int| "    \""@ + fs[i] + "\""@)
}

/// The jq feature list body: one quoted element per line, a comma after
/// each but the last.
pub open spec fn jq_features_text(fs: Seq<Seq<char>>) -> Seq<char> {
    if fs.len() == 0 {
        Seq::<char>::empty()
    } else {
        joined_texts(jq_feature_items(fs), ",\n"@) + "\n"@
    }
}

/// The block that loads the Local State file (or an empty object) and
/// replaces the experimental feature list wholesale with the resolved list.
pub open spec fn jq_local_state_text(fs: Seq<Seq<char>>) -> Seq<char> {
    "# Create or modify Local State file\nif [ -f \"$LOCAL_STATE\" ]; then\n    LOCAL_JSON=$(cat \"$LOCAL_STATE\")\nelse\n    LOCAL_JSON='{}'\nfi\n\nLOCAL_JSON=$(echo \"$LOCAL_JSON\" | jq '\n  .browser = (.browser // {}) |\n  .browser.enabled_labs_experiments = [\n"@
        + jq_features_text(fs) + "  ]\n')\n\necho \"$LOCAL_JSON\" > \"$LOCAL_STATE\"\n"@
}

fn push_jq_dash_line(out: &mut String, field: &str, v: Option<bool>)
    ensures
        final(out)@ == old(out)@ + jq_dash_line(field@, v),
{
    if let Some(b) = v {
        out.append("  .brave.new_tab_page.");
        out.append(field);
        out.append(" = ");
        out.append(bool_str(b));
        out.append(" |\n");
        proof {
            assert(out@ =~= old(out)@ + jq_dash_line(field@, v));
        }
    }
}

fn push_jq_dashboard(out: &mut String, d: &NewTabPage)
    ensures
        final(out)@ == old(out)@ + jq_dashboard_text(*d),
{
    push_jq_dash_line(out, "show_clock", d.show_clock);
    push_jq_dash_line(out, "show_background_image", d.show_background_image);
    push_jq_dash_line(out, "show_stats", d.show_stats);
    push_jq_dash_line(out, "show_shortcuts", d.show_shortcuts);
    push_jq_dash_line(out, "show_branded_background_image", d.show_branded_background_image);
    push_jq_dash_line(out, "show_cards", d.show_cards);
    push_jq_dash_line(out, "show_search_widget", d.show_search_widget);
    push_jq_dash_line(out, "show_brave_news", d.show_brave_news);
    push_jq_dash_line(out, "show_together", d.show_together);
    proof {
        assert(out@ =~= old(out)@ + jq_dashboard_text(*d));
    }
}

/// Appends the Preferences jq block for the given resolved provider and
/// dashboard.
pub fn push_jq_prefs(out: &mut String, search: &SearchProvider, dash: &NewTabPage)
    ensures
        final(out)@ == old(out)@ + jq_prefs_text(
            SearchModel {
                keyword: search.keyword@,
                name: search.name@,
                search_url: search.search_url@,
            },
            *dash,
        ),
{
    out.append(
        "# Create or modify Preferences file\nif [ -f \"$PREFS_FILE\" ]; then\n    PREFS_JSON=$(cat \"$PREFS_FILE\")\nelse\n    PREFS_JSON='{}'\nfi\n\nPREFS_JSON=$(echo \"$PREFS_JSON\" | jq '\n  .default_search_provider_data = {\n    \"keyword\": \"",
    );
    out.append(search.keyword.as_str());
    out.append("\",\n    \"name\": \"");
    out.append(search.name.as_str());
    out.append("\",\n    \"search_url\": \"");
    out.append(search.search_url.as_str());
    out.append(
        "\"\n  } |\n  .brave = (.brave // {}) |\n  .brave.new_tab_page = (.brave.new_tab_page // {}) |\n  .brave.stats = (.brave.stats // {}) |\n  .brave.today = (.brave.today // {}) |\n",
    );
    push_jq_dashboard(out, dash);
    out.append(
        "  .brave.stats.enabled = false |\n  .brave.today.should_show_brave_today_widget = false\n')\n\necho \"$PREFS_JSON\" > \"$PREFS_FILE\"\n\n",
    );
    proof {
        assert(out@ =~= old(out)@ + jq_prefs_text(
            SearchModel {
                keyword: search.keyword@,
                name: search.name@,
                search_url: search.search_url@,
            },
            *dash,
        ));
    }
}

/// Appends the Local State jq block for the given resolved feature list.
pub fn push_jq_local_state(out: &mut String, fs: &Vec<String>)
    ensures
        final(out)@ == old(out)@ + jq_local_state_text(texts_of(fs@)),
{
    let ghost texts = texts_of(fs@);
    let ghost items = jq_feature_items(texts);
    out.append(
        "# Create or modify Local State file\nif [ -f \"$LOCAL_STATE\" ]; then\n    LOCAL_JSON=$(cat \"$LOCAL_STATE\")\nelse\n    LOCAL_JSON='{}'\nfi\n\nLOCAL_JSON=$(echo \"$LOCAL_JSON\" | jq '\n  .browser = (.browser // {}) |\n  .browser.enabled_labs_experiments = [\n",
    );
    let ghost base = out@;
    let n = fs.len();
    let mut i: usize = 0;
    while i < n
        invariant
            texts == texts_of(fs@),
            items == jq_feature_items(texts),
            items.len() == texts.len(),
            n == fs@.len(),
            n == texts.len(),
            0 <= i <= n,
            i == 0 ==> out@ == base,
            i > 0 ==> out@ == base + joined_texts(items.take(i as int), ",\n"@),
        decreases n - i,
    {
        if i > 0 {
            out.append(",\n");
        }
        out.append("    \"");
        out.append(fs[i].as_str());
        out.append("\"");
        proof {
            assert(items.take(i + 1) =~= items.take(i as int).push(items[i as int]));
            lemma_joined_texts_push(items.take(i as int), ",\n"@, items[i as int]);
            assert(items[i as int] == "    \""@ + texts[i as int] + "\""@);
            assert(out@ =~= base + joined_texts(items.take(i + 1), ",\n"@));
        }
        i += 1;
    }
    if n > 0 {
        out.append("\n");
        proof {
            assert(items.take(n as int) =~= items);
        }
    }
    out.append("  ]\n')\n\necho \"$LOCAL_JSON\" > \"$LOCAL_STATE\"\n");
    proof {
        assert(out@ =~= old(out)@ + jq_local_state_text(texts));
    }
}

} // verus!
