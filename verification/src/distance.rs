//! How far two cells are apart.

use vstd::prelude::*;
use crate::types::{spec_abs, Coords3D};
use crate::utils::{isqrt, spec_isqrt};

verus! {

impl Coords3D {
    /// The distance between two cells in thousandths, rounded down: the
    /// straight distance over x and z, plus the difference in y. A step
    /// along y is never shortened by a step along another axis.
    pub open spec fn spec_distance_from(self, coords: Coords3D) -> int {
        let dx = self.0 - coords.0;
        let dy = self.1 - coords.1;
        let dz = self.2 - coords.2;
        spec_isqrt((1_000_000 * (dx * dx + dz * dz)) as nat) + 1000 * spec_abs(dy)
    }

    /// The distance between two cells in thousandths, rounded down.
    pub fn distance_from(&self, coords: &Coords3D) -> (distance: u64)
        ensures
            distance == self.spec_distance_from(*coords),
    {
        let dx: i64 = self.0 as i64 - coords.0 as i64;
        let dy: i64 = self.1 as i64 - coords.1 as i64;
        let dz: i64 = self.2 as i64 - coords.2 as i64;
        let ax: u128 = if dx < 0 { (-dx) as u128 } else { dx as u128 };
        let ay: u64 = if dy < 0 { (-dy) as u64 } else { dy as u64 };
        let az: u128 = if dz < 0 { (-dz) as u128 } else { dz as u128 };
        proof {
            assert(ax * ax == dx * dx && az * az == dz * dz) by (nonlinear_arith)
                requires
                    ax == dx || ax == -dx,
                    az == dz || az == -dz,
            ;
            assert(ax * ax <= 0xffff_ffff * 0xffff_ffff && az * az <= 0xffff_ffff * 0xffff_ffff)
                by (nonlinear_arith)
                requires
                    0 <= ax <= 0xffff_ffff,
                    0 <= az <= 0xffff_ffff,
            ;
        }
        let flat: u128 = 1_000_000 * (ax * ax + az * az);
        let root: u64 = isqrt(flat);
        proof {
            crate::utils::lemma_isqrt(flat as nat);
            assert(root <= 0xffff_ffff_ffff) by (nonlinear_arith)
                requires
                    root * root <= flat,
                    flat <= 1_000_000 * (2 * 0xffff_ffff * 0xffff_ffff),
            ;
        }
        root + 1000 * ay
    }
}

/// Two cells are less than one apart only where they are the same cell, and
/// more than two apart where their difference in y, or the square of their
/// straight distance over x and z, is large enough.
pub proof fn lemma_distance_thresholds(a: Coords3D, b: Coords3D)
    ensures
        a.spec_distance_from(b) >= 0,
        a.spec_distance_from(b) < 1000 <==> a == b,
        a.spec_distance_from(b) > 2000 <==> {
            let flat = (a.0 - b.0) * (a.0 - b.0) + (a.2 - b.2) * (a.2 - b.2);
            let dy = spec_abs(a.1 - b.1);
            dy > 2 || (dy == 2 && flat > 0) || (dy == 1 && flat > 1) || (dy == 0 && flat > 4)
        },
        a.spec_distance_from(b) == b.spec_distance_from(a),
{
    let dx = a.0 - b.0;
    let dz = a.2 - b.2;
    let flat = dx * dx + dz * dz;
    let n = (1_000_000 * flat) as nat;
    let r = spec_isqrt(n);
    assert(dx * dx >= 0 && dz * dz >= 0) by (nonlinear_arith);
    assert(dx * dx == 0 <==> dx == 0) by (nonlinear_arith);
    assert(dz * dz == 0 <==> dz == 0) by (nonlinear_arith);
    assert((-dx) * (-dx) == dx * dx && (-dz) * (-dz) == dz * dz) by (nonlinear_arith);
    crate::utils::lemma_isqrt(n);
    assert(r >= 1000 <==> flat >= 1) by (nonlinear_arith)
        requires
            r * r <= 1_000_000 * flat < (r + 1) * (r + 1),
            flat >= 0,
            r >= 0,
    ;
    assert(r > 0 <==> flat > 0) by (nonlinear_arith)
        requires
            r * r <= 1_000_000 * flat < (r + 1) * (r + 1),
            flat >= 0,
            r >= 0,
    ;
    assert(r > 1000 <==> flat > 1) by (nonlinear_arith)
        requires
            r * r <= 1_000_000 * flat < (r + 1) * (r + 1),
            flat >= 0,
            r >= 0,
    ;
    assert(r > 2000 <==> flat > 4) by (nonlinear_arith)
        requires
            r * r <= 1_000_000 * flat < (r + 1) * (r + 1),
            flat >= 0,
            r >= 0,
    ;
}

} // verus!
