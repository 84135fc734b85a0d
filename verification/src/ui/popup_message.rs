//! The messages that pop up over the windows.

use vstd::prelude::*;
use crate::text::TextStyle;
use crate::types::{Color, FormattedString};

verus! {

/// The styles of the texts of a popup.
#[derive(Debug, PartialEq, Eq, Structural, Clone, Copy)]
pub enum PopupStyle {
    Default,
    Emphasis(Color),
    Error,
}

impl TextStyle for PopupStyle {
    open spec fn spec_plain() -> Self {
        PopupStyle::Default
    }

    fn plain() -> (style: Self) {
        PopupStyle::Default
    }
}

impl Default for PopupStyle {
    fn default() -> (style: Self)
        ensures
            style == PopupStyle::Default,
    {
        PopupStyle::Default
    }
}

/// A message that pops up: good news, bad news, or the question under which
/// name to save.
#[derive(Debug, PartialEq, Eq)]
pub enum PopupMessage {
    Notice(FormattedString<PopupStyle>),
    Failure(FormattedString<PopupStyle>),
    SaveNameDialog,
}

} // verus!
