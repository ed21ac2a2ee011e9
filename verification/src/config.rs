//! Plain configuration values the core consumes: the style overrides and
//! one entry per launchable application. Reading and parsing the
//! configuration file is the surrounding application's business; the core
//! only holds the parsed values.

use vstd::prelude::*;

verus! {

/// Optional style overrides; an absent field keeps the built-in default.
#[derive(Debug)]
pub struct StyleConfig {
    pub font: Option<String>,
    pub font_weight: Option<i32>,
}

impl Default for StyleConfig {
    /// No overrides: every style field keeps its built-in default.
    fn default() -> (r: StyleConfig)
        ensures
            r.font is None,
            r.font_weight is None,
    {
        StyleConfig { font: None, font_weight: None }
    }
}

/// One launchable application: display name, icon path, and the command
/// line the launcher parses into a program and its arguments.
#[derive(Debug, Clone)]
pub struct AppIconConfig {
    pub name: String,
    pub icon: String,
    pub command: String,
}

} // verus!
