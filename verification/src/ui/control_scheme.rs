//! Which key means what.

use vstd::prelude::*;

verus! {

/// A key of the keyboard, as far as the windows tell keys apart.
#[derive(Debug, PartialEq, Eq, Structural, Hash, Clone, Copy)]
pub enum KeyCode {
    Char(char),
    Enter,
    Esc,
    Up,
    Down,
    Left,
    Right,
    Other,
}

#[derive(Debug, PartialEq, Eq, Structural, Clone, Copy)]
pub enum ControlSchemeType {
    Default,
}

/// What a key can mean to a window.
#[derive(Debug, PartialEq, Eq, Structural, Clone, Copy)]
pub enum UiKey {
    YesToDialog,
    NoToDialog,
    MoveNorth,
    MoveEast,
    MoveWest,
    MoveSouth,
    MoveDown,
    MoveUp,
    EditEntity,
    AddItem,
    RemoveItem,
    Confirm,
    ExitSubmenu,
    Save,
    Quit,
}

impl Default for ControlSchemeType {
    fn default() -> (scheme: Self)
        ensures
            scheme == ControlSchemeType::Default,
    {
        ControlSchemeType::Default
    }
}

/// What the key `code` means in the default scheme, if it means anything.
pub open spec fn spec_default_scheme(code: KeyCode) -> Option<Seq<UiKey>> {
    match code {
        KeyCode::Char(c) => if c == 'q' || c == 'Q' {
            Some(seq![UiKey::Quit])
        } else if c == 'w' {
            Some(seq![UiKey::MoveNorth, UiKey::MoveUp])
        } else if c == 'a' {
            Some(seq![UiKey::MoveWest, UiKey::AddItem])
        } else if c == 's' {
            Some(seq![UiKey::MoveSouth, UiKey::MoveDown])
        } else if c == 'd' {
            Some(seq![UiKey::MoveEast])
        } else if c == 'y' {
            Some(seq![UiKey::YesToDialog])
        } else if c == 'n' {
            Some(seq![UiKey::NoToDialog])
        } else if c == 'x' {
            Some(seq![UiKey::Save])
        } else if c == 'e' {
            Some(seq![UiKey::EditEntity, UiKey::AddItem])
        } else if c == 'r' {
            Some(seq![UiKey::RemoveItem])
        } else {
            None
        },
        KeyCode::Up => Some(seq![UiKey::MoveNorth, UiKey::MoveUp]),
        KeyCode::Left => Some(seq![UiKey::MoveWest]),
        KeyCode::Down => Some(seq![UiKey::MoveSouth, UiKey::MoveDown]),
        KeyCode::Right => Some(seq![UiKey::MoveEast]),
        KeyCode::Enter => Some(seq![UiKey::Confirm, UiKey::YesToDialog]),
        KeyCode::Esc => Some(seq![UiKey::ExitSubmenu]),
        KeyCode::Other => None,
    }
}

fn one(key: UiKey) -> (keys: Vec<UiKey>)
    ensures
        keys@ == seq![key],
{
    let mut keys: Vec<UiKey> = Vec::new();
    keys.push(key);
    assert(keys@ =~= seq![key]);
    keys
}

fn two(first: UiKey, second: UiKey) -> (keys: Vec<UiKey>)
    ensures
        keys@ == seq![first, second],
{
    let mut keys: Vec<UiKey> = Vec::new();
    keys.push(first);
    keys.push(second);
    assert(keys@ =~= seq![first, second]);
    keys
}

impl ControlSchemeType {
    /// What the key `code` means in this scheme.
    pub open spec fn spec_keys_from_code(self, code: KeyCode) -> Option<Seq<UiKey>> {
        spec_default_scheme(code)
    }

    /// What the key `code` means in this scheme, if it means anything.
    pub fn keys_from_code(&self, code: KeyCode) -> (keys: Option<Vec<UiKey>>)
        ensures
            match self.spec_keys_from_code(code) {
                Some(meant) => keys matches Some(found) && found@ == meant,
                None => keys is None,
            },
    {
        match code {
            KeyCode::Char(c) => if c == 'q' || c == 'Q' {
                Some(one(UiKey::Quit))
            } else if c == 'w' {
                Some(two(UiKey::MoveNorth, UiKey::MoveUp))
            } else if c == 'a' {
                Some(two(UiKey::MoveWest, UiKey::AddItem))
            } else if c == 's' {
                Some(two(UiKey::MoveSouth, UiKey::MoveDown))
            } else if c == 'd' {
                Some(one(UiKey::MoveEast))
            } else if c == 'y' {
                Some(one(UiKey::YesToDialog))
            } else if c == 'n' {
                Some(one(UiKey::NoToDialog))
            } else if c == 'x' {
                Some(one(UiKey::Save))
            } else if c == 'e' {
                Some(two(UiKey::EditEntity, UiKey::AddItem))
            } else if c == 'r' {
                Some(one(UiKey::RemoveItem))
            } else {
                None
            },
            KeyCode::Up => Some(two(UiKey::MoveNorth, UiKey::MoveUp)),
            KeyCode::Left => Some(one(UiKey::MoveWest)),
            KeyCode::Down => Some(two(UiKey::MoveSouth, UiKey::MoveDown)),
            KeyCode::Right => Some(one(UiKey::MoveEast)),
            KeyCode::Enter => Some(two(UiKey::Confirm, UiKey::YesToDialog)),
            KeyCode::Esc => Some(one(UiKey::ExitSubmenu)),
            KeyCode::Other => None,
        }
    }

    /// Whether the key `code` means `key` in this scheme.
    pub open spec fn spec_code_yields_key(self, code: KeyCode, key: UiKey) -> bool {
        match self.spec_keys_from_code(code) {
            Some(keys) => keys.contains(key),
            None => false,
        }
    }

    /// Whether the key `code` means `key` in this scheme.
    pub fn code_yields_key(&self, code: KeyCode, key: UiKey) -> (yields: bool)
        ensures
            yields == self.spec_code_yields_key(code, key),
    {
        match self.keys_from_code(code) {
            None => false,
            Some(keys) => {
                let mut k: usize = 0;
                while k < keys.len()
                    invariant
                        k <= keys.len(),
                        self.spec_keys_from_code(code) == Some(keys@),
                        forall|j: int| 0 <= j < k ==> keys@[j] != key,
                    decreases keys.len() - k,
                {
                    if keys[k] == key {
                        assert(keys@[k as int] == key);
                        return true;
                    }
                    k += 1;
                }
                false
            },
        }
    }
}

/// Holds of the meanings that are among `wanted`.
pub open spec fn one_of(wanted: Seq<UiKey>) -> spec_fn(UiKey) -> bool {
    |key: UiKey| wanted.contains(key)
}

/// The first of the meanings `keys` that is among `wanted`, if one is.
pub open spec fn spec_first_of(keys: Seq<UiKey>, wanted: Seq<UiKey>) -> Option<UiKey> {
    match crate::utils::first_index(keys, one_of(wanted)) {
        Some(i) => Some(keys[i]),
        None => None,
    }
}

/// The first of the meanings `keys` that is among `wanted`, if one is.
pub fn first_of(keys: &Vec<UiKey>, wanted: &Vec<UiKey>) -> (found: Option<UiKey>)
    ensures
        found == spec_first_of(keys@, wanted@),
        found matches Some(key) ==> wanted@.contains(key),
{
    let mut k: usize = 0;
    while k < keys.len()
        invariant
            k <= keys.len(),
            forall|j: int| 0 <= j < k ==> !one_of(wanted@)(#[trigger] keys@[j]),
        decreases keys.len() - k,
    {
        let mut w: usize = 0;
        while w < wanted.len()
            invariant
                w <= wanted.len(),
                k < keys.len(),
                forall|j: int| 0 <= j < k ==> !one_of(wanted@)(#[trigger] keys@[j]),
                forall|j: int| 0 <= j < w ==> wanted@[j] != keys@[k as int],
            decreases wanted.len() - w,
        {
            if wanted[w] == keys[k] {
                proof {
                    assert(wanted@[w as int] == keys@[k as int]);
                    crate::utils::lemma_first_index_is(keys@, one_of(wanted@), k as int);
                }
                return Some(keys[k]);
            }
            w += 1;
        }
        k += 1;
    }
    proof {
        crate::utils::lemma_first_index_none(keys@, one_of(wanted@));
    }
    None
}

} // verus!
