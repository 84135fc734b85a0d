//! The cursor over the cells of a chunk.

use vstd::prelude::*;
use crate::types::{Coords3D, Direction3D};

verus! {

/// How the cursor is drawn: as a bar, a block or an underscore, steady or
/// blinking, or as the terminal draws it by itself.
#[derive(Debug, PartialEq, Eq, Structural, Clone, Copy)]
pub enum CursorStyle {
    DefaultUserShape,
    BlinkingBlock,
    SteadyBlock,
    BlinkingUnderScore,
    SteadyUnderScore,
    BlinkingBar,
    SteadyBar,
}

#[derive(Debug, PartialEq, Eq, Structural, Clone, Copy)]
pub struct Cursor {
    pub coords: Coords3D,
    pub style: CursorStyle,
    pub visible: bool,
}

impl CursorStyle {
    /// The same shape blinking where it was steady and steady where it was
    /// blinking; the terminal's own shape becomes a blinking bar.
    pub open spec fn spec_toggled(self) -> CursorStyle {
        match self {
            CursorStyle::SteadyBar => CursorStyle::BlinkingBar,
            CursorStyle::BlinkingBar => CursorStyle::SteadyBar,
            CursorStyle::SteadyBlock => CursorStyle::BlinkingBlock,
            CursorStyle::BlinkingBlock => CursorStyle::SteadyBlock,
            CursorStyle::SteadyUnderScore => CursorStyle::BlinkingUnderScore,
            CursorStyle::BlinkingUnderScore => CursorStyle::SteadyUnderScore,
            CursorStyle::DefaultUserShape => CursorStyle::BlinkingBar,
        }
    }
}

/// Toggling twice gives the style back, but for the terminal's own shape.
pub proof fn lemma_toggle_twice(style: CursorStyle)
    ensures
        style != CursorStyle::DefaultUserShape ==> style.spec_toggled().spec_toggled() == style,
        style.spec_toggled() != CursorStyle::DefaultUserShape,
{
}

impl Default for Cursor {
    fn default() -> (cursor: Self)
        ensures
            cursor == (Cursor {
                coords: Coords3D(0, 0, 0),
                style: CursorStyle::SteadyBlock,
                visible: false,
            }),
    {
        Cursor { coords: Coords3D(0, 0, 0), style: CursorStyle::SteadyBlock, visible: false }
    }
}

impl Cursor {
    /// Makes a steady cursor blink and a blinking cursor steady.
    pub fn toggle_blinking(&mut self)
        ensures
            *final(self) == (Cursor { style: old(self).style.spec_toggled(), ..*old(self) }),
    {
        self.style = match self.style {
            CursorStyle::SteadyBar => CursorStyle::BlinkingBar,
            CursorStyle::BlinkingBar => CursorStyle::SteadyBar,
            CursorStyle::SteadyBlock => CursorStyle::BlinkingBlock,
            CursorStyle::BlinkingBlock => CursorStyle::SteadyBlock,
            CursorStyle::SteadyUnderScore => CursorStyle::BlinkingUnderScore,
            CursorStyle::BlinkingUnderScore => CursorStyle::SteadyUnderScore,
            CursorStyle::DefaultUserShape => CursorStyle::BlinkingBar,
        };
    }

    /// Moves the cursor one step in `direction`, unless the step would leave
    /// the range of the coordinates.
    pub fn move_in_direction(&mut self, direction: &Direction3D)
        ensures
            *final(self) == (Cursor {
                coords: if old(self).coords.can_step(*direction) {
                    old(self).coords.spec_step(*direction)
                } else {
                    old(self).coords
                },
                ..*old(self)
            }),
    {
        match self.coords.step(direction) {
            Some(coords) => {
                self.coords = coords;
            },
            None => {},
        }
    }
}

} // verus!
