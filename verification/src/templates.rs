//! How the page templates escape the values they render.
use vstd::prelude::*;
use crate::text::{ends_with, str_ends_with};

verus! {

/// The escaping a template gets.
#[derive(Debug, Clone, Copy, PartialEq, Eq, Structural)]
pub enum AutoEscape {
    /// Values are HTML-escaped.
    Html,
    /// Values are rendered as they are.
    Off,
}

/// Templates whose name ends in `.html` escape their values as HTML; all
/// others render them unescaped.
pub fn auto_escape_for(name: &str) -> (mode: AutoEscape)
    ensures
        mode == (if ends_with(name@, ".html"@) { AutoEscape::Html } else { AutoEscape::Off }),
{
    if str_ends_with(name, ".html") {
        AutoEscape::Html
    } else {
        AutoEscape::Off
    }
}

} // verus!
