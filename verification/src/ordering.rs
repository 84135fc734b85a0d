//! The order of cells: by z first, then by y, then by x.

use vstd::prelude::*;
use core::cmp::Ordering;
use vstd::std_specs::cmp::PartialOrdSpec;
use crate::types::Coords3D;

verus! {

/// Whether `a` comes before `b`: z decides, then y, then x.
pub open spec fn coords_lt(a: Coords3D, b: Coords3D) -> bool {
    a.2 < b.2 || (a.2 == b.2 && (a.1 < b.1 || (a.1 == b.1 && a.0 < b.0)))
}

impl PartialOrd for Coords3D {
    fn partial_cmp(&self, other: &Self) -> (r: Option<Ordering>) {
        if self.2 < other.2 {
            Some(Ordering::Less)
        } else if self.2 > other.2 {
            Some(Ordering::Greater)
        } else if self.1 < other.1 {
            Some(Ordering::Less)
        } else if self.1 > other.1 {
            Some(Ordering::Greater)
        } else if self.0 < other.0 {
            Some(Ordering::Less)
        } else if self.0 > other.0 {
            Some(Ordering::Greater)
        } else {
            Some(Ordering::Equal)
        }
    }
}

impl vstd::std_specs::cmp::PartialOrdSpecImpl for Coords3D {
    open spec fn obeys_partial_cmp_spec() -> bool {
        true
    }

    open spec fn partial_cmp_spec(&self, other: &Self) -> Option<Ordering> {
        if coords_lt(*self, *other) {
            Some(Ordering::Less)
        } else if coords_lt(*other, *self) {
            Some(Ordering::Greater)
        } else {
            Some(Ordering::Equal)
        }
    }
}

/// Whether `a` comes before `b`, as `a < b` computes it.
pub fn coords_before(a: &Coords3D, b: &Coords3D) -> (r: bool)
    ensures
        r == coords_lt(*a, *b),
{
    *a < *b
}

/// Of two cells exactly one holds: the first comes before the second, they
/// are equal, or the second comes before the first.
pub proof fn lemma_coords_order_trichotomy(a: Coords3D, b: Coords3D)
    ensures
        coords_lt(a, b) || a == b || coords_lt(b, a),
        !(coords_lt(a, b) && a == b),
        !(coords_lt(a, b) && coords_lt(b, a)),
        !(a == b && coords_lt(b, a)),
{
}

/// The order is transitive.
pub proof fn lemma_coords_order_transitive(a: Coords3D, b: Coords3D, c: Coords3D)
    requires
        coords_lt(a, b),
        coords_lt(b, c),
    ensures
        coords_lt(a, c),
{
}

/// The comparison of two cells is never undecided, and it is `Equal` for
/// equal cells alone.
pub proof fn lemma_coords_partial_cmp_total(a: Coords3D, b: Coords3D)
    ensures
        a.partial_cmp_spec(&b) is Some,
        a.partial_cmp_spec(&b) == Some(Ordering::Equal) <==> a == b,
        a.partial_cmp_spec(&b) == Some(Ordering::Less) <==> coords_lt(a, b),
        a.partial_cmp_spec(&b) == Some(Ordering::Greater) <==> coords_lt(b, a),
{
}

} // verus!
