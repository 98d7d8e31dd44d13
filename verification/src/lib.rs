//! Generates platform-specific browser-hardening scripts from a declarative
//! policy configuration, an extension allowlist, and optional user
//! preferences.  Every renderer builds its whole script text in memory; the
//! contracts pin the produced text down to the character.

pub mod cli;
pub mod config;
pub mod generator;
pub mod json;
pub mod platforms;
pub mod preferences;
pub mod text;
