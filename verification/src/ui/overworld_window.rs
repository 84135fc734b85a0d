//! The window that shows the active chunk.

use vstd::prelude::*;
use crate::types::Direction3D;
use crate::ui::control_scheme::{ControlSchemeType, KeyCode, UiKey};
use crate::ui::cursor::Cursor;
use crate::ui::ui_callback::UiCallbackPreset;

verus! {

#[derive(Debug, PartialEq, Eq, Structural, Clone, Copy)]
pub struct OverworldWindow {
    pub cursor: Cursor,
}

/// The direction on the plane that a meaning of a key moves in, if it moves
/// in one.
pub open spec fn spec_planar_move(key: UiKey) -> Option<Direction3D> {
    match key {
        UiKey::MoveNorth => Some(Direction3D::North),
        UiKey::MoveEast => Some(Direction3D::East),
        UiKey::MoveWest => Some(Direction3D::West),
        UiKey::MoveSouth => Some(Direction3D::South),
        _ => None,
    }
}

/// The direction of the first among the first `n` meanings of a key that
/// moves on the plane.
pub open spec fn spec_first_planar_move(keys: Seq<UiKey>, n: int) -> Option<Direction3D>
    decreases n,
{
    if n <= 0 {
        None
    } else {
        match spec_first_planar_move(keys, n - 1) {
            Some(direction) => Some(direction),
            None => spec_planar_move(keys[n - 1]),
        }
    }
}

/// A direction that was found stays the one that is found.
pub proof fn lemma_planar_move_found(keys: Seq<UiKey>, n: int, m: int)
    requires
        0 <= n <= m,
    ensures
        spec_first_planar_move(keys, n) is Some ==> spec_first_planar_move(keys, m)
            == spec_first_planar_move(keys, n),
    decreases m - n,
{
    if n < m {
        lemma_planar_move_found(keys, n, m - 1);
    }
}

impl OverworldWindow {
    pub fn new() -> (window: Self)
        ensures
            window.cursor == (Cursor {
                coords: crate::types::Coords3D(0, 0, 0),
                style: crate::ui::cursor::CursorStyle::SteadyBlock,
                visible: false,
            }),
    {
        OverworldWindow { cursor: Cursor::default() }
    }

    /// What a key asks of the overworld: to move the player in the
    /// direction of the first meaning of the key that moves on the plane.
    pub open spec fn spec_handle_key_events(
        self,
        code: KeyCode,
        scheme: ControlSchemeType,
    ) -> Option<UiCallbackPreset> {
        match scheme.spec_keys_from_code(code) {
            None => None,
            Some(keys) => match spec_first_planar_move(keys, keys.len() as int) {
                Some(direction) => Some(UiCallbackPreset::MovePlayer(direction)),
                None => None,
            },
        }
    }

    /// What a key asks of the overworld.
    pub fn handle_key_events(&self, code: KeyCode, scheme: ControlSchemeType) -> (callback: Option<
        UiCallbackPreset,
    >)
        ensures
            callback == self.spec_handle_key_events(code, scheme),
    {
        let keys = match scheme.keys_from_code(code) {
            Some(keys) => keys,
            None => {
                return None;
            },
        };
        let mut k: usize = 0;
        while k < keys.len()
            invariant
                k <= keys.len(),
                scheme.spec_keys_from_code(code) == Some(keys@),
                spec_first_planar_move(keys@, k as int) is None,
            decreases keys.len() - k,
        {
            proof {
                lemma_planar_move_found(keys@, k + 1, keys@.len() as int);
            }
            match keys[k] {
                UiKey::MoveNorth => {
                    return Some(UiCallbackPreset::MovePlayer(Direction3D::North));
                },
                UiKey::MoveEast => {
                    return Some(UiCallbackPreset::MovePlayer(Direction3D::East));
                },
                UiKey::MoveWest => {
                    return Some(UiCallbackPreset::MovePlayer(Direction3D::West));
                },
                UiKey::MoveSouth => {
                    return Some(UiCallbackPreset::MovePlayer(Direction3D::South));
                },
                _ => {},
            }
            k += 1;
        }
        None
    }

    pub fn get_refresh_rate(&self) -> (rate: u16)
        ensures
            rate == 60,
    {
        60
    }
}

} // verus!
