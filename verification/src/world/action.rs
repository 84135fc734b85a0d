//! What an entity with agency can set out to do.

use vstd::prelude::*;

verus! {

/// What an entity does about its focus. The first four aim at another
/// entity, named by its id; a solo action aims at none.
#[derive(Debug, PartialEq, Eq, Structural, Clone, Copy)]
pub enum Action {
    Fight(u32),
    Flee(u32),
    Talk(u32),
    Approach(u32),
    Solo(SoloAction),
}

#[derive(Debug, PartialEq, Eq, Structural, Clone, Copy)]
pub enum SoloAction {
    Wander,
}

impl Action {
    /// The entity that the action aims at, if it aims at one.
    pub open spec fn spec_target(self) -> Option<u32> {
        match self {
            Action::Fight(id) => Some(id),
            Action::Flee(id) => Some(id),
            Action::Talk(id) => Some(id),
            Action::Approach(id) => Some(id),
            Action::Solo(_) => None,
        }
    }

    /// An action is cooperative or solo, never both.
    pub open spec fn is_cooperative(self) -> bool {
        self.spec_target() is Some
    }

    /// The entity that the action aims at, if it aims at one.
    pub fn target(&self) -> (target: Option<u32>)
        ensures
            target == self.spec_target(),
    {
        match self {
            Action::Fight(id) => Some(*id),
            Action::Flee(id) => Some(*id),
            Action::Talk(id) => Some(*id),
            Action::Approach(id) => Some(*id),
            Action::Solo(_) => None,
        }
    }
}

} // verus!
