//! The generator facade: holds the loaded inputs and renders the artifact
//! for the selected platform.  Rendering builds the whole script text in
//! memory; writing the file (and creating the output directory) is left to
//! the caller, so a failure while rendering can never leave a partial file.

use vstd::prelude::*;
use crate::cli::{BraveVersion, Platform};
use crate::config::{Config, Extension, ids_of, keys_unique};
use crate::platforms::ScriptArtifact;
use crate::platforms::linux::{LinuxGenerator, linux_filename_text, linux_script_text};
use crate::platforms::macos::{MacOSGenerator, macos_filename_text, macos_script_text};
use crate::platforms::windows::{WindowsGenerator, windows_filename_text, windows_script_text};
use crate::preferences::handlers::deref_opt;
use crate::preferences::types::PreferencesInputConfig;

verus! {

/// The loaded inputs of one run: the configuration, the extension
/// allowlist, the target platform and release track, the output directory,
/// and the optional preferences document.
#[derive(Debug)]
pub struct DebloaterGenerator {
    pub config: Config,
    pub extensions: Vec<Extension>,
    pub platform: Platform,
    pub version: BraveVersion,
    pub output_dir: String,
    pub preferences_config: Option<PreferencesInputConfig>,
}

impl DebloaterGenerator {
    /// Bundles the loaded inputs.
    pub fn new(
        config: Config,
        extensions: Vec<Extension>,
        platform: Platform,
        version: BraveVersion,
        output_dir: String,
        preferences_config: Option<PreferencesInputConfig>,
    ) -> (r: Self)
        ensures
            r.config == config,
            r.extensions == extensions,
            r.platform == platform,
            r.version == version,
            r.output_dir == output_dir,
            r.preferences_config == preferences_config,
    {
        Self { config, extensions, platform, version, output_dir, preferences_config }
    }

    /// Renders the whole artifact for the selected platform: the Windows
    /// batch script, the macOS zsh script, or the Linux bash script (the
    /// only one marked executable).
    pub fn render(&self) -> (r: ScriptArtifact)
        requires
            keys_unique(self.config@),
        ensures
            match self.platform {
                Platform::Windows => r.filename@ == windows_filename_text(self.version)
                    && r.content@ == windows_script_text(
                    self.config@,
                    ids_of(self.extensions@),
                    self.version,
                    self.preferences_config,
                ) && !r.executable,
                Platform::MacOS => r.filename@ == macos_filename_text(self.version) && r.content@
                    == macos_script_text(
                    self.config@,
                    ids_of(self.extensions@),
                    self.version,
                    self.preferences_config,
                ) && !r.executable,
                Platform::Linux => r.filename@ == linux_filename_text(self.version) && r.content@
                    == linux_script_text(
                    self.config@,
                    ids_of(self.extensions@),
                    self.version,
                    self.preferences_config,
                ) && r.executable,
            },
    {
        let prefs_ref = self.preferences_config.as_ref();
        proof {
            assert(deref_opt(prefs_ref) == self.preferences_config);
        }
        match self.platform {
            Platform::Windows => WindowsGenerator::generate_unified_script(
                &self.config,
                &self.extensions,
                &self.version,
                prefs_ref,
            ),
            Platform::MacOS => MacOSGenerator::generate_unified_script(
                &self.config,
                &self.extensions,
                &self.version,
                prefs_ref,
            ),
            Platform::Linux => LinuxGenerator::generate_unified_script(
                &self.config,
                &self.extensions,
                &self.version,
                prefs_ref,
            ),
        }
    }
}

} // verus!
