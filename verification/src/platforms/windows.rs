//! The Windows renderer: one batch script that applies the policies through
//! `reg add` under the track-specific registry subkey and then rewrites the
//! user preference files through an embedded PowerShell block.

use vstd::prelude::*;
use crate::cli::BraveVersion;
use crate::config::{Config, ConfigValue, EntryModel, Extension, ValueModel, ids_of};
use crate::platforms::{
    ScriptArtifact, get_brave_registry_path, get_version_suffix, registry_path_text,
    version_suffix_text,
};
use crate::preferences::handlers::{
    SearchModel, get_default_dashboard_config, get_default_experimental_features,
    deref_opt, get_default_search_provider, resolved_dashboard, resolved_features,
    resolved_search_provider,
};
use crate::preferences::types::{NewTabPage, PreferencesInputConfig};
use crate::text::{
    bool_str, bool_text, concat_texts, dec_int_text, dec_nat_text, joined_texts,
    lemma_concat_texts_push, lemma_joined_texts_push, push_i32_dec, push_u64_dec, str_eq,
};

verus! {

/// The output file name for the given release track.
pub open spec fn windows_filename_text(version: BraveVersion) -> Seq<char> {
    match version {
        BraveVersion::Normal => "brave_debloat.bat"@,
        BraveVersion::Nightly => "brave_nightly_debloat.bat"@,
    }
}

/// The output file name constant for the given release track.
pub fn windows_filename(version: &BraveVersion) -> (r: &'static str)
    ensures
        r@ == windows_filename_text(*version),
{
    match version {
        BraveVersion::Normal => "brave_debloat.bat",
        BraveVersion::Nightly => "brave_nightly_debloat.bat",
    }
}

/// The constant opening of the script: header, elevation check, and the
/// check for a running browser process.
pub open spec fn win_head_text() -> Seq<char> {
    "@echo off\nsetlocal enabledelayedexpansion\nREM Unified Brave Browser Debloater Script for Windows\nREM This script applies both policies and user preferences\nREM Run as Administrator\n\necho Brave Browser Debloater for Windows\necho ====================================\n\nREM Check for admin rights\nnet session >nul 2>&1\nif %errorlevel% neq 0 (\n    echo This script must be run as Administrator!\n    pause\n    exit /b 1\n)\n\necho Checking if Brave is running...\ntasklist /fi \"imagename eq brave.exe\" 2>nul | find /i \"brave.exe\" >nul\nif not errorlevel 1 (\n    echo WARNING: Brave browser is running!\n    echo Please close Brave browser before running this script.\n    echo Press any key to continue anyway, or Ctrl+C to exit.\n    pause >nul\n    taskkill /f /im brave.exe >nul 2>&1\n    timeout /t 2 >nul\n)\n\n"@
}

/// One `reg add` line writing a DWORD value.
pub open spec fn win_dword_line(path: Seq<char>, key: Seq<char>, num: Seq<char>) -> Seq<char> {
    "reg add \"HKEY_LOCAL_MACHINE\\"@ + path + "\" /v \""@ + key + "\" /t REG_DWORD /d "@ + num
        + " /f >nul 2>&1\n"@
}

/// One `reg add` line writing a string value.
pub open spec fn win_sz_line(path: Seq<char>, key: Seq<char>, s: Seq<char>) -> Seq<char> {
    "reg add \"HKEY_LOCAL_MACHINE\\"@ + path + "\" /v \""@ + key + "\" /t REG_SZ /d \""@ + s
        + "\" /f >nul 2>&1\n"@
}

/// The registry lines one entry contributes: none for the forcelist key
/// (handled separately) and none for a string list (the batch encoding
/// defines no multi-string registry value), one line otherwise.
pub open spec fn win_entry_lines(path: Seq<char>, e: EntryModel) -> Seq<Seq<char>> {
    if e.key == "ExtensionInstallForcelist"@ {
        Seq::<Seq<char>>::empty()
    } else {
        match e.value {
            ValueModel::Bool(b) => seq![
                win_dword_line(
                    path,
                    e.key,
                    if b {
                        "1"@
                    } else {
                        "0"@
                    },
                ),
            ],
            ValueModel::Text(s) => seq![win_sz_line(path, e.key, s)],
            ValueModel::Integer(n) => seq![win_dword_line(path, e.key, dec_int_text(n))],
            ValueModel::TextList(_) => Seq::<Seq<char>>::empty(),
        }
    }
}

/// The registry lines of all entries, in entry order.
pub open spec fn win_reg_lines(path: Seq<char>, entries: Seq<EntryModel>) -> Seq<Seq<char>>
    decreases entries.len(),
{
    if entries.len() == 0 {
        Seq::<Seq<char>>::empty()
    } else {
        win_reg_lines(path, entries.drop_last()) + win_entry_lines(path, entries.last())
    }
}

/// One forcelist line: the 1-based position as the value name, the
/// extension id as the value data.
pub open spec fn win_forcelist_line(path: Seq<char>, idx: int, id: Seq<char>) -> Seq<char> {
    "reg add \"HKEY_LOCAL_MACHINE\\"@ + path + "\\ExtensionInstallForcelist\" /v \""@
        + dec_nat_text(idx) + "\" /t REG_SZ /d \""@ + id + "\" /f >nul 2>&1\n"@
}

/// The forcelist lines: one per extension, in list order, numbered from 1.
pub open spec fn win_forcelist_lines(path: Seq<char>, ids: Seq<Seq<char>>) -> Seq<Seq<char>> {
    Seq::new(ids.len(), |i: int| win_forcelist_line(path, i + 1, ids[i]))
}

/// The registry section: the generic policy lines, then the forcelist
/// lines.
pub open spec fn win_registry_text(
    path: Seq<char>,
    entries: Seq<EntryModel>,
    ids: Seq<Seq<char>>,
) -> Seq<char> {
    "echo Applying Brave policies via registry...\n"@ + concat_texts(win_reg_lines(path, entries))
        + concat_texts(win_forcelist_lines(path, ids))
        + "echo Registry policies applied successfully!\n\n"@
}

/// A configuration whose entries all carry a boolean, string, or integer
/// value under some key other than the forcelist key contributes exactly
/// one `reg add` line per entry.
pub proof fn lemma_windows_one_reg_line_per_entry(path: Seq<char>, entries: Seq<EntryModel>)
    requires
        forall|i: int|
            0 <= i < entries.len() ==> entries[i].key != "ExtensionInstallForcelist"@ && !(
            entries[i].value is TextList),
    ensures
        win_reg_lines(path, entries).len() == entries.len(),
    decreases entries.len(),
{
    if entries.len() > 0 {
        assert(forall|i: int|
            0 <= i < entries.drop_last().len() ==> entries.drop_last()[i] == entries[i]);
        lemma_windows_one_reg_line_per_entry(path, entries.drop_last());
        assert(win_entry_lines(path, entries.last()).len() == 1);
    }
}

/// The forcelist block holds exactly one line per extension: line `i`
/// (0-based) carries the value name `i + 1` and the id of extension `i`.
pub proof fn lemma_windows_forcelist_positions(path: Seq<char>, ids: Seq<Seq<char>>)
    ensures
        win_forcelist_lines(path, ids).len() == ids.len(),
        forall|i: int|
            0 <= i < ids.len() ==> win_forcelist_lines(path, ids)[i] == win_forcelist_line(
                path,
                i + 1,
                ids[i],
            ),
{
}

/// The constant section that points the script at the user data directory
/// and backs the preference files up, around the track-specific directory
/// segment.
pub open spec fn win_prefs_intro_text(suffix: Seq<char>) -> Seq<char> {
    "echo Modifying user preferences...\nset \"BRAVE_DATA=%USERPROFILE%\\AppData\\Local\\BraveSoftware\\"@
        + suffix
        + "\\User Data\"\nset \"PREFS_FILE=%BRAVE_DATA%\\Default\\Preferences\"\nset \"LOCAL_STATE=%BRAVE_DATA%\\Local State\"\n\nif not exist \"%BRAVE_DATA%\\Default\" mkdir \"%BRAVE_DATA%\\Default\"\n\nif exist \"%PREFS_FILE%\" copy \"%PREFS_FILE%\" \"%PREFS_FILE%.backup\" >nul 2>&1\nif exist \"%LOCAL_STATE%\" copy \"%LOCAL_STATE%\" \"%LOCAL_STATE%.backup\" >nul 2>&1\n\n"@
}

/// One PowerShell dashboard assignment, or nothing when the toggle is
/// absent.
pub open spec fn ps_dash_line(field: Seq<char>, v: Option<bool>) -> Seq<char> {
    match v {
        Option::None => Seq::<char>::empty(),
        Option::Some(b) => "$prefs.brave.new_tab_page."@ + field + " = $"@ + bool_text(b) + "\n"@,
    }
}

/// The PowerShell dashboard assignments: one line per present toggle, in
/// the fixed field order, and nothing for an absent toggle.
pub open spec fn ps_dashboard_text(d: NewTabPage) -> Seq<char> {
    ps_dash_line("show_clock"@, d.show_clock) + ps_dash_line(
        "show_background_image"@,
        d.show_background_image,
    ) + ps_dash_line("show_stats"@, d.show_stats) + ps_dash_line(
        "show_shortcuts"@,
        d.show_shortcuts,
    ) + ps_dash_line("show_branded_background_image"@, d.show_branded_background_image)
        + ps_dash_line("show_cards"@, d.show_cards) + ps_dash_line(
        "show_search_widget"@,
        d.show_search_widget,
    ) + ps_dash_line("show_brave_news"@, d.show_brave_news) + ps_dash_line(
        "show_together"@,
        d.show_together,
    )
}

/// One feature element of the PowerShell list.
pub open spec fn ps_feature_items(fs: Seq<Seq<char>>) -> Seq<Seq<char>> {
    Seq::new(fs.len(), |i: int| "    '"@ + fs[i] + "'"@)
}

/// The PowerShell feature list body: one quoted element per line, a comma
/// after each but the last.
pub open spec fn ps_features_text(fs: Seq<Seq<char>>) -> Seq<char> {
    if fs.len() == 0 {
        Seq::<char>::empty()
    } else {
        joined_texts(ps_feature_items(fs), ",\n"@) + "\n"@
    }
}

/// The embedded PowerShell block: search provider assignments, dashboard
/// assignments, the two unconditional toggles, and the Local State feature
/// list.
pub open spec fn win_powershell_text(
    search: SearchModel,
    dash: NewTabPage,
    fs: Seq<Seq<char>>,
) -> Seq<char> {
    "echo Modifying Preferences file...\npowershell -ExecutionPolicy Bypass -Command \"\n$prefsPath = '%PREFS_FILE%';\n$localStatePath = '%LOCAL_STATE%';\nif (Test-Path $prefsPath) {\n    $prefs = Get-Content $prefsPath -Raw | ConvertFrom-Json\n} else {\n    $prefs = @{}\n}\nif (-not $prefs.default_search_provider_data) { $prefs.default_search_provider_data = @{} }\n$prefs.default_search_provider_data.keyword = '"@
        + search.keyword + "'\n$prefs.default_search_provider_data.name = '"@ + search.name
        + "'\n$prefs.default_search_provider_data.search_url = '"@ + search.search_url
        + "'\nif (-not $prefs.brave) { $prefs.brave = @{} }\nif (-not $prefs.brave.new_tab_page) { $prefs.brave.new_tab_page = @{} }\nif (-not $prefs.brave.stats) { $prefs.brave.stats = @{} }\nif (-not $prefs.brave.today) { $prefs.brave.today = @{} }\n"@
        + ps_dashboard_text(dash)
        + "$prefs.brave.stats.enabled = $false\n$prefs.brave.today.should_show_brave_today_widget = $false\n$prefs | ConvertTo-Json -Depth 10 | Set-Content $prefsPath -Encoding UTF8\nif (Test-Path $localStatePath) {\n    $localState = Get-Content $localStatePath -Raw | ConvertFrom-Json\n} else {\n    $localState = @{}\n}\nif (-not $localState.browser) { $localState.browser = @{} }\n$localState.browser.enabled_labs_experiments = @(\n"@
        + ps_features_text(fs)
        + ")\n$localState | ConvertTo-Json -Depth 10 | Set-Content $localStatePath -Encoding UTF8\n\"\necho User preferences applied successfully!\n\n"@
}

/// The constant closing of the script.
pub open spec fn win_foot_text() -> Seq<char> {
    "echo Configuration complete!\necho Please restart Brave browser for changes to take effect.\npause\n"@
}

/// The whole Windows script.
pub open spec fn windows_script_text(
    entries: Seq<EntryModel>,
    ids: Seq<Seq<char>>,
    version: BraveVersion,
    prefs_config: Option<PreferencesInputConfig>,
) -> Seq<char> {
    win_head_text() + win_registry_text(registry_path_text(version), entries, ids)
        + win_prefs_intro_text(version_suffix_text(version)) + win_powershell_text(
        resolved_search_provider(prefs_config),
        resolved_dashboard(prefs_config),
        resolved_features(prefs_config),
    ) + win_foot_text()
}

fn push_win_registry(out: &mut String, config: &Config, extensions: &Vec<Extension>, path: &str)
    ensures
        final(out)@ == old(out)@ + win_registry_text(path@, config@, ids_of(extensions@)),
{
    let ghost path_t = path@;
    let ghost entries = config@;
    out.append("echo Applying Brave policies via registry...\n");
    let ghost base = out@;
    let n = config.len();
    let mut i: usize = 0;
    while i < n
        invariant
            path_t == path@,
            entries == config@,
            n == entries.len(),
            0 <= i <= n,
            out@ == base + concat_texts(win_reg_lines(path_t, entries.take(i as int))),
        decreases n - i,
    {
        let ghost pre = out@;
        let e = config.entry(i);
        let skip = str_eq(e.key.as_str(), "ExtensionInstallForcelist");
        if !skip {
            match &e.value {
                ConfigValue::Bool(b) => {
                    out.append("reg add \"HKEY_LOCAL_MACHINE\\");
                    out.append(path);
                    out.append("\" /v \"");
                    out.append(e.key.as_str());
                    out.append("\" /t REG_DWORD /d ");
                    if *b {
                        out.append("1");
                    } else {
                        out.append("0");
                    }
                    out.append(" /f >nul 2>&1\n");
                },
                ConfigValue::Text(s) => {
                    out.append("reg add \"HKEY_LOCAL_MACHINE\\");
                    out.append(path);
                    out.append("\" /v \"");
                    out.append(e.key.as_str());
                    out.append("\" /t REG_SZ /d \"");
                    out.append(s.as_str());
                    out.append("\" /f >nul 2>&1\n");
                },
                ConfigValue::Integer(num) => {
                    out.append("reg add \"HKEY_LOCAL_MACHINE\\");
                    out.append(path);
                    out.append("\" /v \"");
                    out.append(e.key.as_str());
                    out.append("\" /t REG_DWORD /d ");
                    push_i32_dec(out, *num);
                    out.append(" /f >nul 2>&1\n");
                },
                ConfigValue::TextList(_) => {},
            }
        }
        proof {
            assert(entries.take(i + 1).drop_last() =~= entries.take(i as int));
            assert(entries.take(i + 1).last() == entries[i as int]);
            let lines_i = win_reg_lines(path_t, entries.take(i as int));
            let added = win_entry_lines(path_t, entries[i as int]);
            assert(win_reg_lines(path_t, entries.take(i + 1)) == lines_i + added);
            if added.len() == 0 {
                assert(lines_i + added =~= lines_i);
                assert(out@ == pre);
            } else {
                assert(lines_i + added =~= lines_i.push(added[0]));
                lemma_concat_texts_push(lines_i, added[0]);
                assert(out@ =~= pre + added[0]);
            }
            assert(out@ =~= base + concat_texts(win_reg_lines(path_t, entries.take(i + 1))));
        }
        i += 1;
    }
    proof {
        assert(entries.take(n as int) =~= entries);
    }
    let ghost ids = ids_of(extensions@);
    let ghost frags = win_forcelist_lines(path_t, ids);
    let ghost base2 = out@;
    let m = extensions.len();
    let mut j: usize = 0;
    while j < m
        invariant
            path_t == path@,
            ids == ids_of(extensions@),
            frags == win_forcelist_lines(path_t, ids),
            frags.len() == ids.len(),
            m == ids.len(),
            m == extensions@.len(),
            0 <= j <= m,
            out@ == base2 + concat_texts(frags.take(j as int)),
        decreases m - j,
    {
        let ghost pre = out@;
        out.append("reg add \"HKEY_LOCAL_MACHINE\\");
        out.append(path);
        out.append("\\ExtensionInstallForcelist\" /v \"");
        let idx: u64 = (j as u64) + 1;
        push_u64_dec(out, idx);
        out.append("\" /t REG_SZ /d \"");
        out.append(extensions[j].id.as_str());
        out.append("\" /f >nul 2>&1\n");
        proof {
            assert(frags.take(j + 1) =~= frags.take(j as int).push(frags[j as int]));
            lemma_concat_texts_push(frags.take(j as int), frags[j as int]);
            assert(frags[j as int] == win_forcelist_line(path_t, j + 1, ids[j as int]));
            assert(out@ =~= pre + frags[j as int]);
            assert(out@ =~= base2 + concat_texts(frags.take(j + 1)));
        }
        j += 1;
    }
    proof {
        assert(frags.take(m as int) =~= frags);
    }
    out.append("echo Registry policies applied successfully!\n\n");
    proof {
        assert(out@ =~= old(out)@ + win_registry_text(path_t, entries, ids));
    }
}

fn push_ps_dash_line(out: &mut String, field: &str, v: Option<bool>)
    ensures
        final(out)@ == old(out)@ + ps_dash_line(field@, v),
{
    if let Some(b) = v {
        out.append("$prefs.brave.new_tab_page.");
        out.append(field);
        out.append(" = $");
        out.append(bool_str(b));
        out.append("\n");
        proof {
            assert(out@ =~= old(out)@ + ps_dash_line(field@, v));
        }
    }
}

fn push_ps_dashboard(out: &mut String, d: &NewTabPage)
    ensures
        final(out)@ == old(out)@ + ps_dashboard_text(*d),
{
    push_ps_dash_line(out, "show_clock", d.show_clock);
    push_ps_dash_line(out, "show_background_image", d.show_background_image);
    push_ps_dash_line(out, "show_stats", d.show_stats);
    push_ps_dash_line(out, "show_shortcuts", d.show_shortcuts);
    push_ps_dash_line(out, "show_branded_background_image", d.show_branded_background_image);
    push_ps_dash_line(out, "show_cards", d.show_cards);
    push_ps_dash_line(out, "show_search_widget", d.show_search_widget);
    push_ps_dash_line(out, "show_brave_news", d.show_brave_news);
    push_ps_dash_line(out, "show_together", d.show_together);
    proof {
        assert(out@ =~= old(out)@ + ps_dashboard_text(*d));
    }
}

fn push_ps_features(out: &mut String, fs: &Vec<String>)
    ensures
        final(out)@ == old(out)@ + ps_features_text(crate::config::texts_of(fs@)),
{
    let ghost texts = crate::config::texts_of(fs@);
    let ghost items = ps_feature_items(texts);
    let n = fs.len();
    let mut i: usize = 0;
    while i < n
        invariant
            texts == crate::config::texts_of(fs@),
            items == ps_feature_items(texts),
            items.len() == texts.len(),
            n == fs@.len(),
            n == texts.len(),
            0 <= i <= n,
            i == 0 ==> out@ == old(out)@,
            i > 0 ==> out@ == old(out)@ + joined_texts(items.take(i as int), ",\n"@),
        decreases n - i,
    {
        if i > 0 {
            out.append(",\n");
        }
        out.append("    '");
        out.append(fs[i].as_str());
        out.append("'");
        proof {
            assert(items.take(i + 1) =~= items.take(i as int).push(items[i as int]));
            lemma_joined_texts_push(items.take(i as int), ",\n"@, items[i as int]);
            assert(items[i as int] == "    '"@ + texts[i as int] + "'"@);
            assert(out@ =~= old(out)@ + joined_texts(items.take(i + 1), ",\n"@));
        }
        i += 1;
    }
    if n > 0 {
        out.append("\n");
        proof {
            assert(items.take(n as int) =~= items);
            assert(out@ =~= old(out)@ + ps_features_text(texts));
        }
    }
}

#[verifier::rlimit(60)]
fn push_win_powershell(out: &mut String, prefs_config: Option<&PreferencesInputConfig>)
    ensures
        final(out)@ == old(out)@ + win_powershell_text(
            resolved_search_provider(deref_opt(prefs_config)),
            resolved_dashboard(deref_opt(prefs_config)),
            resolved_features(deref_opt(prefs_config)),
        ),
{
    let search = get_default_search_provider(prefs_config);
    let dashboard = get_default_dashboard_config(prefs_config);
    let features = get_default_experimental_features(prefs_config);
    out.append(
        "echo Modifying Preferences file...\npowershell -ExecutionPolicy Bypass -Command \"\n$prefsPath = '%PREFS_FILE%';\n$localStatePath = '%LOCAL_STATE%';\nif (Test-Path $prefsPath) {\n    $prefs = Get-Content $prefsPath -Raw | ConvertFrom-Json\n} else {\n    $prefs = @{}\n}\nif (-not $prefs.default_search_provider_data) { $prefs.default_search_provider_data = @{} }\n$prefs.default_search_provider_data.keyword = '",
    );
    out.append(search.keyword.as_str());
    out.append("'\n$prefs.default_search_provider_data.name = '");
    out.append(search.name.as_str());
    out.append("'\n$prefs.default_search_provider_data.search_url = '");
    out.append(search.search_url.as_str());
    out.append(
        "'\nif (-not $prefs.brave) { $prefs.brave = @{} }\nif (-not $prefs.brave.new_tab_page) { $prefs.brave.new_tab_page = @{} }\nif (-not $prefs.brave.stats) { $prefs.brave.stats = @{} }\nif (-not $prefs.brave.today) { $prefs.brave.today = @{} }\n",
    );
    push_ps_dashboard(out, &dashboard);
    out.append(
        "$prefs.brave.stats.enabled = $false\n$prefs.brave.today.should_show_brave_today_widget = $false\n$prefs | ConvertTo-Json -Depth 10 | Set-Content $prefsPath -Encoding UTF8\nif (Test-Path $localStatePath) {\n    $localState = Get-Content $localStatePath -Raw | ConvertFrom-Json\n} else {\n    $localState = @{}\n}\nif (-not $localState.browser) { $localState.browser = @{} }\n$localState.browser.enabled_labs_experiments = @(\n",
    );
    push_ps_features(out, &features);
    out.append(
        ")\n$localState | ConvertTo-Json -Depth 10 | Set-Content $localStatePath -Encoding UTF8\n\"\necho User preferences applied successfully!\n\n",
    );
    proof {
        assert(out@ =~= old(out)@ + win_powershell_text(
            resolved_search_provider(deref_opt(prefs_config)),
            resolved_dashboard(deref_opt(prefs_config)),
            resolved_features(deref_opt(prefs_config)),
        ));
    }
}

/// The Windows renderer.
#[derive(Debug)]
pub struct WindowsGenerator;

impl WindowsGenerator {
    /// Renders the whole batch script for the given inputs.
    pub fn generate_unified_script(
        config: &Config,
        extensions: &Vec<Extension>,
        version: &BraveVersion,
        preferences_config: Option<&PreferencesInputConfig>,
    ) -> (r: ScriptArtifact)
        ensures
            r.filename@ == windows_filename_text(*version),
            r.content@ == windows_script_text(
                config@,
                ids_of(extensions@),
                *version,
                deref_opt(preferences_config),
            ),
            r.executable == false,
    {
        let filename = windows_filename(version);
        let registry_path = get_brave_registry_path(version);
        let version_suffix = get_version_suffix(version);
        let mut content = String::new();
        content.append(
            "@echo off\nsetlocal enabledelayedexpansion\nREM Unified Brave Browser Debloater Script for Windows\nREM This script applies both policies and user preferences\nREM Run as Administrator\n\necho Brave Browser Debloater for Windows\necho ====================================\n\nREM Check for admin rights\nnet session >nul 2>&1\nif %errorlevel% neq 0 (\n    echo This script must be run as Administrator!\n    pause\n    exit /b 1\n)\n\necho Checking if Brave is running...\ntasklist /fi \"imagename eq brave.exe\" 2>nul | find /i \"brave.exe\" >nul\nif not errorlevel 1 (\n    echo WARNING: Brave browser is running!\n    echo Please close Brave browser before running this script.\n    echo Press any key to continue anyway, or Ctrl+C to exit.\n    pause >nul\n    taskkill /f /im brave.exe >nul 2>&1\n    timeout /t 2 >nul\n)\n\n",
        );
        push_win_registry(&mut content, config, extensions, registry_path);
        content.append(
            "echo Modifying user preferences...\nset \"BRAVE_DATA=%USERPROFILE%\\AppData\\Local\\BraveSoftware\\",
        );
        content.append(version_suffix);
        content.append(
            "\\User Data\"\nset \"PREFS_FILE=%BRAVE_DATA%\\Default\\Preferences\"\nset \"LOCAL_STATE=%BRAVE_DATA%\\Local State\"\n\nif not exist \"%BRAVE_DATA%\\Default\" mkdir \"%BRAVE_DATA%\\Default\"\n\nif exist \"%PREFS_FILE%\" copy \"%PREFS_FILE%\" \"%PREFS_FILE%.backup\" >nul 2>&1\nif exist \"%LOCAL_STATE%\" copy \"%LOCAL_STATE%\" \"%LOCAL_STATE%.backup\" >nul 2>&1\n\n",
        );
        push_win_powershell(&mut content, preferences_config);
        content.append(
            "echo Configuration complete!\necho Please restart Brave browser for changes to take effect.\npause\n",
        );
        proof {
            assert(content@ =~= windows_script_text(
                config@,
                ids_of(extensions@),
                *version,
                deref_opt(preferences_config),
            ));
        }
        ScriptArtifact {
            filename: String::from_str(filename),
            content,
            executable: false,
        }
    }
}

} // verus!
