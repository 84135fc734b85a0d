//! The cells that a line segment passes through, found by sampling it.

use vstd::prelude::*;
use crate::types::{Coords2D, Coords3D, LineSegment2D, LineSegment3D};

verus! {

/// The number of samples taken along a segment.
pub const RAY_STEPS: i64 = 100;

/// `v` hundredths rounded to the nearest whole, a half away from zero.
pub open spec fn spec_round_hundredths(v: int) -> int {
    if v >= 0 {
        (v + 50) / 100
    } else {
        -((50 - v) / 100)
    }
}

/// The coordinate `i` hundredths of the way from `start` to `end`, rounded.
pub open spec fn spec_interpolate(start: int, end: int, i: int) -> int {
    spec_round_hundredths(100 * start + (end - start) * i)
}

/// A sample lies between the two ends, and the last sample is the end.
pub proof fn lemma_interpolate_between(start: int, end: int, i: int)
    requires
        0 <= i <= 100,
    ensures
        start <= end ==> start <= spec_interpolate(start, end, i) <= end,
        end <= start ==> end <= spec_interpolate(start, end, i) <= start,
        spec_interpolate(start, end, 0) == start,
        spec_interpolate(start, end, 100) == end,
{
    let d = end - start;
    assert(start <= end ==> 0 <= d * i <= d * 100) by (nonlinear_arith)
        requires
            0 <= i <= 100,
            d == end - start,
    ;
    assert(end <= start ==> d * 100 <= d * i <= 0) by (nonlinear_arith)
        requires
            0 <= i <= 100,
            d == end - start,
    ;
    assert(d * 0 == 0 && d * 100 == 100 * end - 100 * start) by (nonlinear_arith)
        requires
            d == end - start,
    ;
}

fn interpolate(start: i32, end: i32, i: i64) -> (r: i32)
    requires
        0 <= i <= 100,
    ensures
        r == spec_interpolate(start as int, end as int, i as int),
{
    let d: i64 = end as i64 - start as i64;
    proof {
        lemma_interpolate_between(start as int, end as int, i as int);
        assert(-429496729500 <= d * i <= 429496729500) by (nonlinear_arith)
            requires
                0 <= i <= 100,
                -4294967295 <= d <= 4294967295,
        ;
    }
    let v: i64 = 100 * (start as i64) + d * i;
    let r: i64 = if v >= 0 {
        (v + 50) / 100
    } else {
        -((50 - v) / 100)
    };
    r as i32
}

fn contains_cell(cells: &Vec<Coords3D>, cell: Coords3D) -> (found: bool)
    ensures
        found == cells@.contains(cell),
{
    let mut k: usize = 0;
    while k < cells.len()
        invariant
            k <= cells.len(),
            forall|j: int| 0 <= j < k ==> cells@[j] != cell,
        decreases cells.len() - k,
    {
        if cells[k] == cell {
            return true;
        }
        k += 1;
    }
    false
}

fn contains_cell_2d(cells: &Vec<Coords2D>, cell: Coords2D) -> (found: bool)
    ensures
        found == cells@.contains(cell),
{
    let mut k: usize = 0;
    while k < cells.len()
        invariant
            k <= cells.len(),
            forall|j: int| 0 <= j < k ==> cells@[j] != cell,
        decreases cells.len() - k,
    {
        if cells[k] == cell {
            return true;
        }
        k += 1;
    }
    false
}

impl LineSegment3D {
    /// The cell of the `i`-th sample, `i` hundredths of the way from start to
    /// end along each axis.
    pub open spec fn spec_sample(self, i: int) -> Coords3D {
        Coords3D(
            spec_interpolate(self.start.0 as int, self.end.0 as int, i) as i32,
            spec_interpolate(self.start.1 as int, self.end.1 as int, i) as i32,
            spec_interpolate(self.start.2 as int, self.end.2 as int, i) as i32,
        )
    }

    /// The cells of the samples 1 to `n`, each once, in the order in which
    /// the samples first reach them.
    pub open spec fn spec_cells(self, n: nat) -> Seq<Coords3D>
        decreases n,
    {
        if n == 0 {
            Seq::empty()
        } else {
            let before = self.spec_cells((n - 1) as nat);
            let cell = self.spec_sample(n as int);
            if before.contains(cell) {
                before
            } else {
                before.push(cell)
            }
        }
    }

    /// The cells that the segment passes through, from its start to its end.
    pub open spec fn spec_intersects(self) -> Seq<Coords3D> {
        self.spec_cells(100)
    }

    /// Walks the segment from its start to its end in a hundred steps and
    /// gives each cell that a step lands in, once, in the order of the walk.
    pub fn intersects(&self) -> (cells: Vec<Coords3D>)
        ensures
            cells@ == self.spec_intersects(),
    {
        let mut cells: Vec<Coords3D> = Vec::new();
        let mut i: i64 = 1;
        while i <= RAY_STEPS
            invariant
                1 <= i <= 101,
                cells@ == self.spec_cells((i - 1) as nat),
            decreases 101 - i,
        {
            let cell = Coords3D(
                interpolate(self.start.0, self.end.0, i),
                interpolate(self.start.1, self.end.1, i),
                interpolate(self.start.2, self.end.2, i),
            );
            if !contains_cell(&cells, cell) {
                cells.push(cell);
            }
            i += 1;
        }
        cells
    }
}

impl LineSegment2D {
    /// The cell of the `i`-th sample.
    pub open spec fn spec_sample(self, i: int) -> Coords2D {
        Coords2D(
            spec_interpolate(self.start.0 as int, self.end.0 as int, i) as i32,
            spec_interpolate(self.start.1 as int, self.end.1 as int, i) as i32,
        )
    }

    /// The cells of the samples 1 to `n`, each once, in the order in which
    /// the samples first reach them.
    pub open spec fn spec_cells(self, n: nat) -> Seq<Coords2D>
        decreases n,
    {
        if n == 0 {
            Seq::empty()
        } else {
            let before = self.spec_cells((n - 1) as nat);
            let cell = self.spec_sample(n as int);
            if before.contains(cell) {
                before
            } else {
                before.push(cell)
            }
        }
    }

    /// The cells that the segment passes through, from its start to its end.
    pub open spec fn spec_intersects(self) -> Seq<Coords2D> {
        self.spec_cells(100)
    }

    /// Walks the segment from its start to its end in a hundred steps and
    /// gives each cell that a step lands in, once, in the order of the walk.
    pub fn intersects(&self) -> (cells: Vec<Coords2D>)
        ensures
            cells@ == self.spec_intersects(),
    {
        let mut cells: Vec<Coords2D> = Vec::new();
        let mut i: i64 = 1;
        while i <= RAY_STEPS
            invariant
                1 <= i <= 101,
                cells@ == self.spec_cells((i - 1) as nat),
            decreases 101 - i,
        {
            let cell = Coords2D(
                interpolate(self.start.0, self.end.0, i),
                interpolate(self.start.1, self.end.1, i),
            );
            if !contains_cell_2d(&cells, cell) {
                cells.push(cell);
            }
            i += 1;
        }
        cells
    }
}

/// The cells of a segment hold no cell twice, every one of them is the cell
/// of a sample, and every sample's cell is among them.
pub proof fn lemma_cells_distinct(segment: LineSegment3D, n: nat)
    ensures
        segment.spec_cells(n).no_duplicates(),
        segment.spec_cells(n).len() <= n,
        forall|k: int|
            0 <= k < segment.spec_cells(n).len() ==> exists|i: int|
                1 <= i <= n && #[trigger] segment.spec_cells(n)[k] == segment.spec_sample(i),
        forall|i: int|
            1 <= i <= n ==> segment.spec_cells(n).contains(#[trigger] segment.spec_sample(i)),
    decreases n,
{
    if n > 0 {
        lemma_cells_distinct(segment, (n - 1) as nat);
        let before = segment.spec_cells((n - 1) as nat);
        let cell = segment.spec_sample(n as int);
        let after = segment.spec_cells(n);
        assert forall|i: int| 1 <= i <= n implies after.contains(
            #[trigger] segment.spec_sample(i),
        ) by {
            if i < n {
                let k = choose|k: int|
                    0 <= k < before.len() && before[k] == segment.spec_sample(i);
                assert(after[k] == segment.spec_sample(i));
            } else if before.contains(cell) {
            } else {
                assert(after[before.len() as int] == cell);
            }
        }
        assert forall|k: int| 0 <= k < after.len() implies exists|i: int|
            1 <= i <= n && #[trigger] after[k] == segment.spec_sample(i) by {
            if k < before.len() {
                let i = choose|i: int| 1 <= i <= n - 1 && before[k] == segment.spec_sample(i);
                assert(1 <= i <= n && after[k] == segment.spec_sample(i));
            } else {
                assert(after[k] == segment.spec_sample(n as int));
            }
        }
    }
}

/// A segment's cells end where the segment ends, and each of them lies in
/// the box that the two ends span.
pub proof fn lemma_intersects_reaches_end(segment: LineSegment3D)
    ensures
        segment.spec_intersects().contains(segment.end),
        segment.spec_intersects().len() >= 1,
        forall|k: int|
            0 <= k < segment.spec_intersects().len() ==> {
                let cell = #[trigger] segment.spec_intersects()[k];
                &&& (segment.start.0 <= cell.0 <= segment.end.0 || segment.end.0 <= cell.0
                    <= segment.start.0)
                &&& (segment.start.1 <= cell.1 <= segment.end.1 || segment.end.1 <= cell.1
                    <= segment.start.1)
                &&& (segment.start.2 <= cell.2 <= segment.end.2 || segment.end.2 <= cell.2
                    <= segment.start.2)
            },
{
    lemma_cells_distinct(segment, 100);
    lemma_interpolate_between(segment.start.0 as int, segment.end.0 as int, 100);
    lemma_interpolate_between(segment.start.1 as int, segment.end.1 as int, 100);
    lemma_interpolate_between(segment.start.2 as int, segment.end.2 as int, 100);
    assert(segment.spec_sample(100) == segment.end);
    assert forall|k: int| 0 <= k < segment.spec_intersects().len() implies {
        let cell = #[trigger] segment.spec_intersects()[k];
        &&& (segment.start.0 <= cell.0 <= segment.end.0 || segment.end.0 <= cell.0
            <= segment.start.0)
        &&& (segment.start.1 <= cell.1 <= segment.end.1 || segment.end.1 <= cell.1
            <= segment.start.1)
        &&& (segment.start.2 <= cell.2 <= segment.end.2 || segment.end.2 <= cell.2
            <= segment.start.2)
    } by {
        let i = choose|i: int|
            1 <= i <= 100 && segment.spec_intersects()[k] == segment.spec_sample(i);
        lemma_interpolate_between(segment.start.0 as int, segment.end.0 as int, i);
        lemma_interpolate_between(segment.start.1 as int, segment.end.1 as int, i);
        lemma_interpolate_between(segment.start.2 as int, segment.end.2 as int, i);
    }
}

} // verus!
