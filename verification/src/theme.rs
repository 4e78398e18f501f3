//! Raw color-theme data as read from configuration, before any flattening.
//! Loading and flattening the configuration is the configuration layer's
//! work; the core only carries the values.

use vstd::prelude::*;

verus! {

/// One raw color assignment: foreground, background, bold, each optional.
#[derive(Debug)]
pub struct JoshutoRawColorTheme {
    pub fg: Option<i16>,
    pub bg: Option<i16>,
    pub bold: Option<bool>,
}

/// The raw theme: optional color assignments per entry class, plus optional
/// per-extension overrides.
#[derive(Debug)]
pub struct JoshutoRawTheme {
    pub default_: Option<JoshutoRawColorTheme>,
    pub directory: Option<JoshutoRawColorTheme>,
    pub selection: Option<JoshutoRawColorTheme>,
    pub executable: Option<JoshutoRawColorTheme>,
    pub socket: Option<JoshutoRawColorTheme>,
    pub extensions: Option<Vec<(String, JoshutoRawColorTheme)>>,
}

impl JoshutoRawTheme {
    /// An empty theme: nothing assigned anywhere.
    pub fn new() -> (r: JoshutoRawTheme)
        ensures
            r.default_ is None,
            r.directory is None,
            r.selection is None,
            r.executable is None,
            r.socket is None,
            r.extensions is None,
    {
        JoshutoRawTheme {
            default_: None,
            directory: None,
            selection: None,
            executable: None,
            socket: None,
            extensions: None,
        }
    }
}

} // verus!
