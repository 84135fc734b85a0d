//! The sides that an entity can take.

use vstd::prelude::*;
use crate::ui::traits::{ChoiceAttribute, StringLookup, StringLookupDictionary};

verus! {

/// A side that an entity can take. No side is defined yet, so there is none
/// to choose from.
#[derive(Debug, PartialEq, Eq, Structural, Clone, Copy)]
pub struct Allegiance;

impl StringLookup for Allegiance {
    open spec fn spec_dictionary() -> Seq<(Allegiance, Seq<char>)> {
        Seq::empty()
    }

    fn dictionary() -> (dictionary: StringLookupDictionary<Allegiance>) {
        StringLookupDictionary { dict: Vec::new() }
    }
}

impl ChoiceAttribute for Allegiance {

}

} // verus!
