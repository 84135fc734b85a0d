//! A menu of options with a cursor.

use vstd::prelude::*;
use crate::error::Error;
use crate::types::Direction1D;

verus! {

/// Options to choose from, and the place of the cursor among them. What
/// follows from the choice is for the one who opened the menu to say.
#[derive(Debug, PartialEq, Eq)]
pub struct ChoiceMenu {
    pub index: usize,
    pub options: Vec<String>,
}

impl Default for ChoiceMenu {
    fn default() -> (menu: Self)
        ensures
            menu.index == 0,
            menu.options@ == Seq::<String>::empty(),
    {
        ChoiceMenu { index: 0, options: Vec::new() }
    }
}

impl ChoiceMenu {
    /// A menu of these options, with the cursor on the first.
    pub fn new(options: Vec<String>) -> (menu: Self)
        ensures
            menu.index == 0,
            menu.options == options,
    {
        ChoiceMenu { index: 0, options }
    }

    /// Where the cursor is after a step in `direction`: it stops at the
    /// first and at the last option.
    pub open spec fn spec_moved(self, direction: Direction1D) -> usize {
        match direction {
            Direction1D::Up => if self.index > 0 {
                (self.index - 1) as usize
            } else {
                self.index
            },
            Direction1D::Down => if self.index + 1 < self.options@.len() {
                (self.index + 1) as usize
            } else {
                self.index
            },
        }
    }

    /// Moves the cursor one option up or down.
    pub fn move_cursor(&mut self, direction: Direction1D)
        ensures
            final(self).index == old(self).spec_moved(direction),
            final(self).options == old(self).options,
            old(self).index < old(self).options@.len() ==> final(self).index
                < final(self).options@.len(),
    {
        match direction {
            Direction1D::Up => {
                if self.index > 0 {
                    self.index -= 1;
                }
            },
            Direction1D::Down => {
                if self.options.len() > 0 && self.index < self.options.len() - 1 {
                    self.index += 1;
                }
            },
        }
    }

    /// The place of the cursor.
    pub fn get_cursor_pos(&self) -> (index: usize)
        ensures
            index == self.index,
    {
        self.index
    }

    /// The option under the cursor, with which the menu is left.
    pub fn exit(&self) -> (result: Result<&String, Error>)
        ensures
            self.index < self.options@.len() ==> result == Ok::<&String, Error>(
                &self.options@[self.index as int],
            ),
            self.index >= self.options@.len() ==> result == Err::<&String, Error>(
                Error::EmptySession,
            ),
    {
        if self.index < self.options.len() {
            Ok(&self.options[self.index])
        } else {
            Err(Error::EmptySession)
        }
    }
}

} // verus!
