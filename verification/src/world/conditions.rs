//! The flags of a world that dialogue can test and set.

use vstd::prelude::*;

verus! {

#[derive(Debug, PartialEq, Eq, Structural, Clone, Copy)]
pub enum WorldCondition {
    DiscoveredTimeIsles,
}

} // verus!
