//! What can go wrong in the world, and the kind of each failure.

use vstd::prelude::*;
use crate::world::entity::EntityAttribute;
use crate::world::item::ItemType;

verus! {

/// The kinds of failure. Every failure is one that the caller can recover
/// from. The library neither reads nor writes, so none of its failures is
/// one of reading or writing.
#[derive(Debug, PartialEq, Eq, Structural, Clone, Copy)]
pub enum ErrorKind {
    /// A lookup found nothing.
    NotFound,
    /// A session was used while it held nothing, or an action was resolved
    /// where it does not belong.
    InvalidState,
    /// There is no room left.
    CapacityExceeded,
    /// A text or a number does not have the form it should have.
    Malformed,
}

#[derive(Debug, PartialEq, Eq, Structural, Clone, Copy)]
pub enum Error {
    /// No entity has this id.
    EntityNotFound(u32),
    /// The catalogue defines no item of this type.
    ItemTypeNotFound(ItemType),
    /// The catalogue defines no unique item with this id.
    ItemIdNotFound(u32),
    /// The inventory holds no item with this id.
    ItemNotInInventory(u32),
    /// No node of the dialogue tree has the name of the active node.
    ActiveNodeNotFound,
    /// No dialogue is going on.
    NoActiveDialogue,
    /// The open choices are fewer than this index asks for.
    ChoiceOutOfRange(usize),
    /// The inventory has no free space.
    InventoryFull,
    /// No id is left for a new item.
    ItemIdsExhausted,
    /// A unique item asked for an id beyond those set aside for unique items.
    ReservedIdOutOfRange(u32),
    /// The attribute belongs to every entity and can be neither added nor
    /// removed.
    AttributeRequired(EntityAttribute),
    /// The attribute to add is there already.
    AttributePresent(EntityAttribute),
    /// The attribute to remove is not there.
    AttributeAbsent(EntityAttribute),
    /// The text names none of the choices.
    UnknownChoice,
    /// A solo action was resolved as an interaction.
    SoloActionInInteraction,
    /// An interaction was resolved as a solo action.
    InteractionInSoloAction,
    /// An editing session was used while it held nothing.
    EmptySession,
    /// The entity has fewer attributes than this index asks for.
    AttributeOutOfRange(usize),
}

impl Error {
    pub open spec fn spec_kind(self) -> ErrorKind {
        match self {
            Error::EntityNotFound(_) => ErrorKind::NotFound,
            Error::ItemTypeNotFound(_) => ErrorKind::NotFound,
            Error::ItemIdNotFound(_) => ErrorKind::NotFound,
            Error::ItemNotInInventory(_) => ErrorKind::NotFound,
            Error::ActiveNodeNotFound => ErrorKind::NotFound,
            Error::NoActiveDialogue => ErrorKind::NotFound,
            Error::ChoiceOutOfRange(_) => ErrorKind::NotFound,
            Error::InventoryFull => ErrorKind::CapacityExceeded,
            Error::ItemIdsExhausted => ErrorKind::CapacityExceeded,
            Error::ReservedIdOutOfRange(_) => ErrorKind::Malformed,
            Error::AttributeRequired(_) => ErrorKind::InvalidState,
            Error::AttributePresent(_) => ErrorKind::InvalidState,
            Error::AttributeAbsent(_) => ErrorKind::InvalidState,
            Error::UnknownChoice => ErrorKind::Malformed,
            Error::SoloActionInInteraction => ErrorKind::InvalidState,
            Error::InteractionInSoloAction => ErrorKind::InvalidState,
            Error::EmptySession => ErrorKind::InvalidState,
            Error::AttributeOutOfRange(_) => ErrorKind::NotFound,
        }
    }

    /// The kind of this failure.
    pub fn kind(&self) -> (kind: ErrorKind)
        ensures
            kind == self.spec_kind(),
    {
        match self {
            Error::EntityNotFound(_) => ErrorKind::NotFound,
            Error::ItemTypeNotFound(_) => ErrorKind::NotFound,
            Error::ItemIdNotFound(_) => ErrorKind::NotFound,
            Error::ItemNotInInventory(_) => ErrorKind::NotFound,
            Error::ActiveNodeNotFound => ErrorKind::NotFound,
            Error::NoActiveDialogue => ErrorKind::NotFound,
            Error::ChoiceOutOfRange(_) => ErrorKind::NotFound,
            Error::InventoryFull => ErrorKind::CapacityExceeded,
            Error::ItemIdsExhausted => ErrorKind::CapacityExceeded,
            Error::ReservedIdOutOfRange(_) => ErrorKind::Malformed,
            Error::AttributeRequired(_) => ErrorKind::InvalidState,
            Error::AttributePresent(_) => ErrorKind::InvalidState,
            Error::AttributeAbsent(_) => ErrorKind::InvalidState,
            Error::UnknownChoice => ErrorKind::Malformed,
            Error::SoloActionInInteraction => ErrorKind::InvalidState,
            Error::InteractionInSoloAction => ErrorKind::InvalidState,
            Error::EmptySession => ErrorKind::InvalidState,
            Error::AttributeOutOfRange(_) => ErrorKind::NotFound,
        }
    }
}

} // verus!
