//! The editor of a chunk.

use vstd::prelude::*;
use crate::error::Error;
use crate::quark::ui::entity_view::{EntityView, EntityViewState};
use crate::quark::ui::ui_callback::UiCallbackPreset;
use crate::types::{Coords3D, Direction3D};
use crate::ui::control_scheme::{ControlSchemeType, KeyCode, UiKey};
use crate::ui::cursor::Cursor;
use crate::world::chunk::{spec_occupant, Chunk};

verus! {

#[derive(Debug, PartialEq, Eq, Structural, Clone, Copy)]
pub enum ChunkEditorState {
    Main,
    EntityView,
}

#[derive(Debug, PartialEq, Eq)]
pub struct ChunkEditor {
    pub state: ChunkEditorState,
    pub cursor: Cursor,
    pub entity_view: EntityView,
}

impl Default for ChunkEditorState {
    fn default() -> (state: Self)
        ensures
            state == ChunkEditorState::Main,
    {
        ChunkEditorState::Main
    }
}

/// What a meaning of a key asks of the chunk editor while no entity is
/// edited, if it asks for anything.
pub open spec fn spec_chunk_key(key: UiKey, cursor: Coords3D) -> Option<UiCallbackPreset> {
    match key {
        UiKey::MoveNorth => Some(UiCallbackPreset::MoveChunkEditorCursor(Direction3D::North)),
        UiKey::MoveEast => Some(UiCallbackPreset::MoveChunkEditorCursor(Direction3D::East)),
        UiKey::MoveWest => Some(UiCallbackPreset::MoveChunkEditorCursor(Direction3D::West)),
        UiKey::MoveSouth => Some(UiCallbackPreset::MoveChunkEditorCursor(Direction3D::South)),
        UiKey::MoveUp => Some(UiCallbackPreset::MoveChunkEditorCursor(Direction3D::Up)),
        UiKey::MoveDown => Some(UiCallbackPreset::MoveChunkEditorCursor(Direction3D::Down)),
        UiKey::EditEntity => Some(UiCallbackPreset::EditEntity(cursor)),
        UiKey::Save => Some(UiCallbackPreset::SaveToDisk),
        _ => None,
    }
}

/// What the first of the first `n` meanings of a key that asks for
/// anything asks of the chunk editor.
pub open spec fn spec_first_chunk_key(keys: Seq<UiKey>, cursor: Coords3D, n: int) -> Option<
    UiCallbackPreset,
>
    decreases n,
{
    if n <= 0 {
        None
    } else {
        match spec_first_chunk_key(keys, cursor, n - 1) {
            Some(callback) => Some(callback),
            None => spec_chunk_key(keys[n - 1], cursor),
        }
    }
}

/// What was found stays what is found.
pub proof fn lemma_chunk_key_found(keys: Seq<UiKey>, cursor: Coords3D, n: int, m: int)
    requires
        0 <= n <= m,
    ensures
        spec_first_chunk_key(keys, cursor, n) is Some ==> spec_first_chunk_key(keys, cursor, m)
            == spec_first_chunk_key(keys, cursor, n),
    decreases m - n,
{
    if n < m {
        lemma_chunk_key_found(keys, cursor, n, m - 1);
    }
}

impl ChunkEditor {
    /// The chunk editor as it is first shown: no entity is edited, and the
    /// cursor rests hidden at the origin.
    pub fn new() -> (editor: Self)
        ensures
            editor.state == ChunkEditorState::Main,
            editor.cursor == (Cursor {
                coords: Coords3D(0, 0, 0),
                style: crate::ui::cursor::CursorStyle::SteadyBlock,
                visible: false,
            }),
            editor.entity_view.entity is None,
            editor.entity_view.state == EntityViewState::Main,
            editor.entity_view.cursor_pos == 0,
            editor.entity_view.text_attr == crate::world::entity::EntityAttributeText::Name,
    {
        ChunkEditor {
            state: ChunkEditorState::Main,
            cursor: Cursor::default(),
            entity_view: EntityView::new(),
        }
    }

    /// Begins to edit what stands at `coords`.
    pub fn edit_entity(&mut self, coords: Coords3D, chunk: &Chunk) -> (result: Result<(), Error>)
        ensures
            result is Ok,
            final(self).state == ChunkEditorState::EntityView,
            final(self).cursor == old(self).cursor,
            final(self).entity_view.cursor_pos == 0,
            final(self).entity_view.state == old(self).entity_view.state,
            final(self).entity_view.text_attr == old(self).entity_view.text_attr,
            final(self).entity_view.entity matches Some(entity) && match spec_occupant(
                chunk@,
                coords,
            ) {
                Some(i) => entity.spec_same(chunk@[i].1),
                None => entity.spec_is_blank() && entity.coords == coords,
            },
    {
        self.entity_view.start_editor(coords, chunk);
        self.state = ChunkEditorState::EntityView;
        Ok(())
    }

    /// What a key asks of the chunk editor while no entity is edited.
    pub open spec fn spec_handle_key_events(
        self,
        code: KeyCode,
        scheme: ControlSchemeType,
    ) -> Option<UiCallbackPreset> {
        match scheme.spec_keys_from_code(code) {
            None => None,
            Some(keys) => spec_first_chunk_key(keys, self.cursor.coords, keys.len() as int),
        }
    }

    /// What a key asks of the chunk editor while no entity is edited: to
    /// move the cursor, to edit what stands under it, or to save.
    pub fn handle_key_events(&self, code: KeyCode, scheme: ControlSchemeType) -> (callback: Option<
        UiCallbackPreset,
    >)
        ensures
            callback == self.spec_handle_key_events(code, scheme),
    {
        let keys = match scheme.keys_from_code(code) {
            Some(keys) => keys,
            None => {
                return None;
            },
        };
        let mut k: usize = 0;
        while k < keys.len()
            invariant
                k <= keys.len(),
                scheme.spec_keys_from_code(code) == Some(keys@),
                spec_first_chunk_key(keys@, self.cursor.coords, k as int) is None,
            decreases keys.len() - k,
        {
            proof {
                lemma_chunk_key_found(keys@, self.cursor.coords, k + 1, keys@.len() as int);
            }
            match keys[k] {
                UiKey::MoveNorth => {
                    return Some(UiCallbackPreset::MoveChunkEditorCursor(Direction3D::North));
                },
                UiKey::MoveEast => {
                    return Some(UiCallbackPreset::MoveChunkEditorCursor(Direction3D::East));
                },
                UiKey::MoveWest => {
                    return Some(UiCallbackPreset::MoveChunkEditorCursor(Direction3D::West));
                },
                UiKey::MoveSouth => {
                    return Some(UiCallbackPreset::MoveChunkEditorCursor(Direction3D::South));
                },
                UiKey::MoveUp => {
                    return Some(UiCallbackPreset::MoveChunkEditorCursor(Direction3D::Up));
                },
                UiKey::MoveDown => {
                    return Some(UiCallbackPreset::MoveChunkEditorCursor(Direction3D::Down));
                },
                UiKey::EditEntity => {
                    return Some(UiCallbackPreset::EditEntity(self.cursor.coords));
                },
                UiKey::Save => {
                    return Some(UiCallbackPreset::SaveToDisk);
                },
                _ => {},
            }
            k += 1;
        }
        None
    }

    /// How often in a second the editor is drawn.
    pub fn refresh_rate(&self) -> (rate: u16)
        ensures
            rate == 60,
    {
        if self.state == ChunkEditorState::EntityView {
            return self.entity_view.refresh_rate();
        }
        60
    }
}

} // verus!
