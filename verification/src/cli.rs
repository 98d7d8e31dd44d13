//! The options the tool runs with: target platform, browser release track,
//! and the input and output paths.

use vstd::prelude::*;

verus! {

/// The target platform, selecting the renderer.
#[derive(Debug, Clone, Copy, PartialEq, Eq, Structural)]
pub enum Platform {
    Windows,
    MacOS,
    Linux,
}

/// The browser release track.  It determines the Windows registry subkey,
/// the macOS bundle identifier, the Linux policy file path, and the user
/// data directory segment.
#[derive(Debug, Clone, Copy, PartialEq, Eq, Structural)]
pub enum BraveVersion {
    Normal,
    Nightly,
}

/// The resolved command-line options.
#[derive(Debug)]
pub struct Args {
    pub platform: Platform,
    pub version: BraveVersion,
    pub config: String,
    pub extensions: String,
    pub output: String,
    pub preferences_config: String,
}

} // verus!
