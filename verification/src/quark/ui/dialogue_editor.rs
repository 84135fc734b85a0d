//! The editor of a dialogue tree.

use vstd::prelude::*;
use crate::error::Error;
use crate::types::Direction1D;
use crate::world::dialogue::DialogueTree;

verus! {

#[derive(Debug, PartialEq, Eq, Structural, Clone, Copy)]
pub enum DialogueEditorState {
    Main,
    EditingName,
    EditingOption,
}

/// A session of editing a dialogue tree: the tree, while one is edited, and
/// the place of the cursor among the choices of its active node.
#[derive(Debug, PartialEq, Eq)]
pub struct DialogueEditor {
    pub tree: Option<DialogueTree>,
    pub state: DialogueEditorState,
    pub cursor_pos: usize,
}

impl DialogueEditor {
    /// An editor that edits nothing.
    pub fn new() -> (editor: Self)
        ensures
            editor.tree is None,
            editor.state == DialogueEditorState::Main,
            editor.cursor_pos == 0,
    {
        DialogueEditor { tree: None, state: DialogueEditorState::Main, cursor_pos: 0 }
    }

    /// Takes a tree to edit, with the cursor on the first choice.
    pub fn edit_dialogue(&mut self, tree: DialogueTree)
        ensures
            *final(self) == (DialogueEditor {
                tree: Some(tree),
                cursor_pos: 0,
                state: old(self).state,
            }),
    {
        self.cursor_pos = 0;
        self.tree = Some(tree);
    }

    /// Ends the session and hands the tree out. Without a tree there is
    /// nothing to hand out.
    pub fn finish(&mut self) -> (result: Result<DialogueTree, Error>)
        ensures
            *final(self) == (DialogueEditor { tree: None, ..*old(self) }),
            match old(self).tree {
                Some(tree) => result == Ok::<DialogueTree, Error>(tree),
                None => result == Err::<DialogueTree, Error>(Error::EmptySession),
            },
    {
        match self.tree.take() {
            Some(tree) => Ok(tree),
            None => Err(Error::EmptySession),
        }
    }

    /// Where the cursor is after a step in `direction` over `count`
    /// choices: it stops at the first choice and behind the last.
    pub open spec fn spec_moved(self, direction: Direction1D, count: int) -> usize {
        match direction {
            Direction1D::Up => if self.cursor_pos > 0 {
                (self.cursor_pos - 1) as usize
            } else {
                self.cursor_pos
            },
            Direction1D::Down => if self.cursor_pos < count {
                (self.cursor_pos + 1) as usize
            } else {
                self.cursor_pos
            },
        }
    }

    /// Moves the cursor one choice up or down at the active node.
    pub fn move_highlight(&mut self, direction: &Direction1D) -> (result: Result<(), Error>)
        ensures
            final(self).tree == old(self).tree,
            final(self).state == old(self).state,
            match old(self).tree {
                None => result == Err::<(), Error>(Error::EmptySession) && final(self).cursor_pos
                    == old(self).cursor_pos,
                Some(tree) => match tree.spec_active_node() {
                    None => result == Err::<(), Error>(Error::ActiveNodeNotFound)
                        && final(self).cursor_pos == old(self).cursor_pos,
                    Some(i) => result is Ok && final(self).cursor_pos == old(self).spec_moved(
                        *direction,
                        tree.nodes@[i].choices@.len() as int,
                    ),
                },
            },
    {
        let count: usize = match &self.tree {
            None => {
                return Err(Error::EmptySession);
            },
            Some(tree) => match tree.get_active_node() {
                Ok(node) => node.choices_count_unconditional(),
                Err(e) => {
                    return Err(e);
                },
            },
        };
        match direction {
            Direction1D::Up => {
                if self.cursor_pos > 0 {
                    self.cursor_pos -= 1;
                }
            },
            Direction1D::Down => {
                if self.cursor_pos < count {
                    self.cursor_pos += 1;
                }
            },
        }
        Ok(())
    }

    pub fn refresh_rate(&self) -> (rate: u16)
        ensures
            rate == 60,
    {
        60
    }
}

} // verus!
