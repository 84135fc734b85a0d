//! What an entity can see: the line of sight through a chunk.

use vstd::prelude::*;
use crate::digits::{
    exceeds_top_place, lemma_hundred_pow_positive, spec_digits_ok, spec_digits_value,
    spec_hundred_pow, times,
};
use crate::ray::lemma_cells_distinct;
use crate::types::{Coords3D, LineSegment3D};
use crate::world::chunk::{spec_occupant, Chunk};
use crate::world::entity::{Entity, Opacity, Size, VisibilityModifier};

verus! {

/// What stands in the way along the first `n` cells of a line of sight
/// from `from` to `to`: for each cell but those of the two ends, the share
/// of the sight, in hundredths, that the first entity that stands in it
/// takes away, if one stands there.
pub open spec fn spec_obstacles(
    entries: Seq<(u32, Entity)>,
    cells: Seq<Coords3D>,
    from: Coords3D,
    to: Coords3D,
    n: int,
) -> Seq<int>
    decreases n,
{
    if n <= 0 {
        Seq::empty()
    } else {
        let before = spec_obstacles(entries, cells, from, to, n - 1);
        let cell = cells[n - 1];
        if cell == from || cell == to {
            before
        } else {
            match spec_occupant(entries, cell) {
                Some(j) => before.push(entries[j].1.spec_visibility_reduction_factor()),
                None => before,
            }
        }
    }
}

/// What is left of the sight behind obstacles, counted in parts of a
/// hundred to the power of their number: every obstacle leaves of what
/// reaches it the share that it does not take away.
pub open spec fn spec_sight_left(factors: Seq<int>) -> int
    decreases factors.len(),
{
    if factors.len() == 0 {
        1
    } else {
        spec_sight_left(factors.drop_last()) * (100 - factors.last())
    }
}

/// Whether more than half of the sight is left behind obstacles that take
/// these shares away.
pub open spec fn spec_sight_is_clear(factors: Seq<int>) -> bool {
    2 * spec_sight_left(factors) > spec_hundred_pow(factors.len())
}

/// Whether what stands at `from` sees what stands at `to`.
pub open spec fn spec_can_see(entries: Seq<(u32, Entity)>, from: Coords3D, to: Coords3D) -> bool {
    let cells = (LineSegment3D { start: from, end: to }).spec_intersects();
    spec_sight_is_clear(spec_obstacles(entries, cells, from, to, cells.len() as int))
}

/// No entity takes more than seven tenths of the sight away, and only one
/// that is both solid and large takes half of it or more.
pub proof fn lemma_entity_factor_bound(entity: Entity)
    ensures
        0 <= entity.spec_visibility_reduction_factor() <= 70,
        entity.spec_visibility_reduction_factor() >= 50 ==> entity.spec_visibility_reduction_factor()
            == 70,
        entity.spec_visibility_reduction_factor() >= 50 <==> entity.spec_opacity() == Opacity::Solid
            && entity.spec_size() == Size::Large,
{
}

/// Every obstacle on a line of sight is the share that an entity takes
/// away: at most seven tenths.
pub proof fn lemma_obstacles_bound(
    entries: Seq<(u32, Entity)>,
    cells: Seq<Coords3D>,
    from: Coords3D,
    to: Coords3D,
    n: int,
)
    requires
        n <= cells.len(),
    ensures
        forall|i: int|
            0 <= i < spec_obstacles(entries, cells, from, to, n).len() ==> 0 <= (
            #[trigger] spec_obstacles(entries, cells, from, to, n)[i]) <= 70,
    decreases n,
{
    if n > 0 {
        lemma_obstacles_bound(entries, cells, from, to, n - 1);
        let before = spec_obstacles(entries, cells, from, to, n - 1);
        let after = spec_obstacles(entries, cells, from, to, n);
        let cell = cells[n - 1];
        crate::utils::lemma_first_index(entries, crate::world::chunk::entry_at(cell));
        assert forall|i: int| 0 <= i < after.len() implies 0 <= (#[trigger] after[i]) <= 70 by {
            if i < before.len() {
                assert(after[i] == before[i]);
            } else {
                let j = spec_occupant(entries, cell)->0;
                lemma_entity_factor_bound(entries[j].1);
            }
        }
    }
}

/// The entity that stands in a cell between the two ends is among the
/// obstacles.
pub proof fn lemma_obstacle_of_cell(
    entries: Seq<(u32, Entity)>,
    cells: Seq<Coords3D>,
    from: Coords3D,
    to: Coords3D,
    n: int,
    k: int,
)
    requires
        0 <= k < n <= cells.len(),
        cells[k] != from,
        cells[k] != to,
        spec_occupant(entries, cells[k]) is Some,
    ensures
        exists|i: int|
            0 <= i < spec_obstacles(entries, cells, from, to, n).len() && #[trigger] spec_obstacles(
                entries,
                cells,
                from,
                to,
                n,
            )[i] == entries[spec_occupant(
                entries,
                cells[k],
            )->0].1.spec_visibility_reduction_factor(),
    decreases n,
{
    let before = spec_obstacles(entries, cells, from, to, n - 1);
    let after = spec_obstacles(entries, cells, from, to, n);
    let factor = entries[spec_occupant(entries, cells[k])->0].1.spec_visibility_reduction_factor();
    if k == n - 1 {
        assert(after[before.len() as int] == factor);
    } else {
        lemma_obstacle_of_cell(entries, cells, from, to, n - 1, k);
        let i = choose|i: int| 0 <= i < before.len() && before[i] == factor;
        assert(after[i] == factor);
    }
}

/// What is left of the sight is never less than nothing and never more
/// than all of it, and behind an obstacle it is at most what that obstacle
/// leaves.
pub proof fn lemma_sight_left_bound(factors: Seq<int>, i: int)
    requires
        forall|j: int| 0 <= j < factors.len() ==> 0 <= #[trigger] factors[j] <= 100,
    ensures
        0 <= spec_sight_left(factors) <= spec_hundred_pow(factors.len()),
        0 <= i < factors.len() ==> spec_sight_left(factors) <= (100 - factors[i]) * spec_hundred_pow(
            (factors.len() - 1) as nat,
        ),
    decreases factors.len(),
{
    if factors.len() > 0 {
        let rest = factors.drop_last();
        let share = 100 - factors.last();
        let left = spec_sight_left(rest);
        let p = spec_hundred_pow(rest.len());
        assert(0 <= factors[factors.len() - 1] <= 100);
        assert forall|j: int| 0 <= j < rest.len() implies 0 <= #[trigger] rest[j] <= 100 by {
            assert(rest[j] == factors[j]);
        }
        lemma_sight_left_bound(rest, i);
        lemma_hundred_pow_positive(rest.len());
        assert(0 <= left * share <= p * share && p * share <= 100 * p) by (nonlinear_arith)
            requires
                0 <= left <= p,
                0 <= share <= 100,
        ;
        if 0 <= i < rest.len() {
            let q = spec_hundred_pow((rest.len() - 1) as nat);
            let other = 100 - rest[i];
            assert(p == 100 * q);
            assert(rest[i] == factors[i]);
            assert(left * share <= other * p) by (nonlinear_arith)
                requires
                    0 <= left <= other * q,
                    0 <= share <= 100,
                    p == 100 * q,
            ;
        } else if i == rest.len() {
            assert(left * share <= share * p) by (nonlinear_arith)
                requires
                    0 <= left <= p,
                    0 <= share,
            ;
        }
    }
}

/// Nothing in the way leaves the sight clear. One obstacle leaves it clear
/// where it takes less than half away. An obstacle that takes half or more
/// away blocks the sight, whatever else stands in the way.
pub proof fn lemma_sight_decision(factors: Seq<int>)
    requires
        forall|j: int| 0 <= j < factors.len() ==> 0 <= #[trigger] factors[j] <= 100,
    ensures
        factors.len() == 0 ==> spec_sight_is_clear(factors),
        factors.len() == 1 ==> (spec_sight_is_clear(factors) <==> factors[0] < 50),
        (exists|i: int| 0 <= i < factors.len() && #[trigger] factors[i] >= 50)
            ==> !spec_sight_is_clear(factors),
{
    reveal_with_fuel(spec_sight_left, 3);
    reveal_with_fuel(spec_hundred_pow, 3);
    if factors.len() == 1 {
        assert(factors.drop_last().len() == 0);
        assert(spec_sight_left(factors) == 1 * (100 - factors[0]));
    }
    if exists|i: int| 0 <= i < factors.len() && #[trigger] factors[i] >= 50 {
        let i = choose|i: int| 0 <= i < factors.len() && #[trigger] factors[i] >= 50;
        let q = spec_hundred_pow((factors.len() - 1) as nat);
        let share = 100 - factors[i];
        lemma_sight_left_bound(factors, i);
        lemma_hundred_pow_positive((factors.len() - 1) as nat);
        assert(2 * (share * q) <= 100 * q) by (nonlinear_arith)
            requires
                share <= 50,
                q > 0,
        ;
    }
}

/// A further obstacle never clears a sight that is blocked.
pub proof fn lemma_sight_only_shrinks(factors: Seq<int>, factor: int)
    requires
        forall|j: int| 0 <= j < factors.len() ==> 0 <= #[trigger] factors[j] <= 100,
        0 <= factor <= 100,
    ensures
        spec_sight_is_clear(factors.push(factor)) ==> spec_sight_is_clear(factors),
{
    let more = factors.push(factor);
    let left = spec_sight_left(factors);
    let p = spec_hundred_pow(factors.len());
    let share = 100 - factor;
    assert(more.drop_last() =~= factors);
    lemma_sight_left_bound(factors, 0);
    assert(2 * left <= p ==> 2 * (left * share) <= 100 * p) by (nonlinear_arith)
        requires
            0 <= left,
            0 <= share <= 100,
    ;
}

impl Entity {
    /// Whether the entity sees `entity` across the chunk. The sight starts
    /// whole. Every entity that stands in a cell between the two takes away
    /// from what reaches it the share that its opacity and its size give,
    /// and the other is seen where more than half is left.
    pub fn can_see(&self, chunk: &Chunk, entity: &Entity) -> (visible: bool)
        ensures
            visible == spec_can_see(chunk@, self.coords, entity.coords),
    {
        let ray = LineSegment3D { start: self.coords, end: entity.coords };
        let cells = ray.intersects();
        let entities = chunk.get_entities();
        let mut twice_left: Vec<u64> = Vec::new();
        twice_left.push(2);
        proof {
            reveal_with_fuel(spec_digits_value, 2);
            assert(twice_left@.drop_last().len() == 0);
            assert(spec_hundred_pow(0) == 1);
            assert(spec_digits_value(twice_left@) == 2);
        }
        let mut k: usize = 0;
        while k < cells.len()
            invariant
                k <= cells.len(),
                entities@ == chunk@,
                spec_digits_ok(twice_left@),
                twice_left@.len() == spec_obstacles(
                    chunk@,
                    cells@,
                    self.coords,
                    entity.coords,
                    k as int,
                ).len() + 1,
                spec_digits_value(twice_left@) == 2 * spec_sight_left(
                    spec_obstacles(chunk@, cells@, self.coords, entity.coords, k as int),
                ),
            decreases cells.len() - k,
        {
            let cell = cells[k];
            if cell != self.coords && cell != entity.coords {
                match chunk.occupant(&cell) {
                    Some(j) => {
                        let factor: u64 = entities[j].1.visibility_reduction_factor();
                        proof {
                            lemma_entity_factor_bound(entities@[j as int].1);
                        }
                        let ghost before = spec_obstacles(
                            chunk@,
                            cells@,
                            self.coords,
                            entity.coords,
                            k as int,
                        );
                        let ghost doubled = spec_digits_value(twice_left@);
                        twice_left = times(&twice_left, 100 - factor);
                        proof {
                            let left = spec_sight_left(before);
                            let share = 100 - factor;
                            assert(before.push(factor as int).drop_last() =~= before);
                            assert(share * (2 * left) == 2 * (left * share)) by (nonlinear_arith);
                        }
                    },
                    None => {},
                }
            }
            k += 1;
        }
        exceeds_top_place(&twice_left)
    }
}

/// Where no cell between the ends is taken, nothing stands in the way.
pub proof fn lemma_no_obstacles(
    entries: Seq<(u32, Entity)>,
    cells: Seq<Coords3D>,
    from: Coords3D,
    to: Coords3D,
    n: int,
)
    requires
        n <= cells.len(),
        forall|k: int|
            0 <= k < cells.len() ==> {
                let cell = #[trigger] cells[k];
                cell == from || cell == to || spec_occupant(entries, cell) is None
            },
    ensures
        spec_obstacles(entries, cells, from, to, n).len() == 0,
    decreases n,
{
    if n > 0 {
        lemma_no_obstacles(entries, cells, from, to, n - 1);
        let cell = cells[n - 1];
    }
}

/// Two entities with no entity between them see each other.
pub proof fn lemma_unobstructed_sight(entries: Seq<(u32, Entity)>, from: Coords3D, to: Coords3D)
    requires
        forall|k: int|
            0 <= k < (LineSegment3D { start: from, end: to }).spec_intersects().len() ==> {
                let cell = #[trigger] (LineSegment3D { start: from, end: to }).spec_intersects()[k];
                cell == from || cell == to || spec_occupant(entries, cell) is None
            },
    ensures
        spec_can_see(entries, from, to),
{
    let cells = (LineSegment3D { start: from, end: to }).spec_intersects();
    lemma_no_obstacles(entries, cells, from, to, cells.len() as int);
    lemma_sight_decision(spec_obstacles(entries, cells, from, to, cells.len() as int));
}

/// An entity that is both solid and large blocks every line of sight that
/// passes through its cell: where it stands in a cell of the line between
/// the two ends, the one end does not see the other, whatever else stands
/// in the way.
pub proof fn lemma_sight_blocked(
    entries: Seq<(u32, Entity)>,
    from: Coords3D,
    to: Coords3D,
    cell: Coords3D,
)
    requires
        (LineSegment3D { start: from, end: to }).spec_intersects().contains(cell),
        cell != from,
        cell != to,
        spec_occupant(entries, cell) matches Some(j) && entries[j].1.spec_opacity() == Opacity::Solid
            && entries[j].1.spec_size() == Size::Large,
    ensures
        !spec_can_see(entries, from, to),
{
    let cells = (LineSegment3D { start: from, end: to }).spec_intersects();
    let obstacles = spec_obstacles(entries, cells, from, to, cells.len() as int);
    let k = choose|k: int| 0 <= k < cells.len() && cells[k] == cell;
    let j = spec_occupant(entries, cell)->0;
    lemma_entity_factor_bound(entries[j].1);
    lemma_obstacles_bound(entries, cells, from, to, cells.len() as int);
    lemma_obstacle_of_cell(entries, cells, from, to, cells.len() as int, k);
    lemma_sight_decision(obstacles);
}

/// The cell halfway between two cells whose coordinates differ by even
/// numbers.
pub open spec fn spec_midpoint(from: Coords3D, to: Coords3D) -> Coords3D {
    Coords3D(
        ((from.0 + to.0) / 2) as i32,
        ((from.1 + to.1) / 2) as i32,
        ((from.2 + to.2) / 2) as i32,
    )
}

/// Two entities with an entity that is both solid and large halfway between
/// them do not see each other.
pub proof fn lemma_midpoint_blocks(entries: Seq<(u32, Entity)>, from: Coords3D, to: Coords3D)
    requires
        from != to,
        (to.0 - from.0) % 2 == 0,
        (to.1 - from.1) % 2 == 0,
        (to.2 - from.2) % 2 == 0,
        spec_occupant(entries, spec_midpoint(from, to)) matches Some(j) && entries[j].1.spec_opacity()
            == Opacity::Solid && entries[j].1.spec_size() == Size::Large,
    ensures
        !spec_can_see(entries, from, to),
        !spec_can_see(entries, to, from),
{
    let mid = spec_midpoint(from, to);
    let there = LineSegment3D { start: from, end: to };
    let back = LineSegment3D { start: to, end: from };
    lemma_cells_distinct(there, 100);
    lemma_cells_distinct(back, 100);
    assert(there.spec_sample(50) == mid);
    assert(back.spec_sample(50) == mid);
    lemma_sight_blocked(entries, from, to, mid);
    lemma_sight_blocked(entries, to, from, mid);
}

} // verus!
