//! How an entity with agency chooses what to do next.

use vstd::prelude::*;
use crate::rng::TickBasedRng;
use crate::types::spec_abs;
use crate::utils::{insert_noise, spec_insert_noise, WEIGHT_ONE};
use crate::world::action::{Action, SoloAction};
use crate::world::chunk::Chunk;
use crate::world::entity::{Entity, Focus, Opinion};
use crate::world::sight::spec_can_see;

verus! {

/// A best score below this, in millionths, draws no entity's eye.
pub const ACTIVATION_THRESHOLD: u64 = 500;

/// The width of the noise on the scores, in millionths, unless a world says
/// otherwise.
pub const DEFAULT_MAX_NOISE: u32 = 100_000;

/// Entities talk and fight within this distance, in thousandths; beyond it
/// they come closer first.
pub const REACH: u64 = 2000;

/// What `viewer` thinks of `other`. Nobody has told an entity yet what to
/// think of another, so it is neutral to all.
pub open spec fn spec_find_opinion(viewer: Entity, other: Entity) -> Opinion {
    Opinion::Neutral
}

/// Whether a candidate reaches the score `score`: whether `score` times
/// its distance is no more than `weight`. The distance is the root of `flat`
/// plus `rise`; score and weight are in millionths.
pub open spec fn spec_score_reached(weight: int, flat: int, rise: int, score: int) -> bool {
    &&& score * rise <= weight
    &&& score * score * flat <= (weight - score * rise) * (weight - score * rise)
}

/// The weight over the distance, in millionths and rounded down once: the
/// largest score that is reached. In the same cell, where there is no
/// distance, it is nothing.
pub open spec fn spec_weight_over_distance(weight: int, flat: int, rise: int) -> int {
    if flat == 0 && rise == 0 {
        0
    } else {
        choose|score: int|
            0 <= score && #[trigger] spec_score_reached(weight, flat, rise, score)
                && !spec_score_reached(weight, flat, rise, score + 1)
    }
}

/// The score of a candidate, in millionths: what the opinion of it weighs
/// over its distance. The distance is the straight distance over x and z
/// plus the difference in y.
pub open spec fn spec_score(viewer: Entity, other: Entity) -> u64 {
    let dx = viewer.coords.0 - other.coords.0;
    let dy = viewer.coords.1 - other.coords.1;
    let dz = viewer.coords.2 - other.coords.2;
    spec_weight_over_distance(
        spec_find_opinion(viewer, other).spec_get_weight() as int,
        dx * dx + dz * dz,
        spec_abs(dy),
    ) as u64
}

/// A score that is reached is at most the weight, and every score below it
/// is reached too.
pub proof fn lemma_score_reached_below(weight: int, flat: int, rise: int, score: int, below: int)
    requires
        0 <= weight,
        0 <= flat,
        0 <= rise,
        flat + rise > 0,
        0 <= below <= score,
        spec_score_reached(weight, flat, rise, score),
    ensures
        spec_score_reached(weight, flat, rise, below),
        score <= weight,
{
    let far = weight - score * rise;
    let near = weight - below * rise;
    assert(below * rise <= score * rise) by (nonlinear_arith)
        requires
            0 <= below <= score,
            0 <= rise,
    ;
    assert(below * below <= score * score) by (nonlinear_arith)
        requires
            0 <= below <= score,
    ;
    assert(below * below * flat <= score * score * flat) by (nonlinear_arith)
        requires
            below * below <= score * score,
            0 <= flat,
    ;
    assert(far * far <= near * near) by (nonlinear_arith)
        requires
            0 <= far <= near,
    ;
    if rise >= 1 {
        assert(score <= score * rise) by (nonlinear_arith)
            requires
                0 <= score,
                1 <= rise,
        ;
    } else {
        assert(score * score <= score * score * flat) by (nonlinear_arith)
            requires
                1 <= flat,
        ;
        assert(score * rise == 0) by (nonlinear_arith)
            requires
                rise == 0,
        ;
        assert(score <= weight) by (nonlinear_arith)
            requires
                score * score <= weight * weight,
                0 <= score,
                0 <= weight,
        ;
    }
}

/// The score just above the weight is never reached.
pub proof fn lemma_score_above_weight(weight: int, flat: int, rise: int)
    requires
        0 <= weight,
        0 <= flat,
        0 <= rise,
        flat + rise > 0,
    ensures
        spec_score_reached(weight, flat, rise, 0),
        !spec_score_reached(weight, flat, rise, weight + 1),
{
    assert(0 * rise == 0 && 0 * 0 * flat == 0) by (nonlinear_arith);
    assert(weight * weight >= 0) by (nonlinear_arith);
    if spec_score_reached(weight, flat, rise, weight + 1) {
        lemma_score_reached_below(weight, flat, rise, weight + 1, weight + 1);
    }
}

/// Above a score that is reached there is a largest one.
pub proof fn lemma_largest_score(weight: int, flat: int, rise: int, score: int)
    requires
        0 <= weight,
        0 <= flat,
        0 <= rise,
        flat + rise > 0,
        0 <= score,
        spec_score_reached(weight, flat, rise, score),
    ensures
        exists|best: int|
            score <= best && #[trigger] spec_score_reached(weight, flat, rise, best)
                && !spec_score_reached(weight, flat, rise, best + 1),
    decreases weight - score,
{
    lemma_score_reached_below(weight, flat, rise, score, score);
    if spec_score_reached(weight, flat, rise, score + 1) {
        lemma_score_reached_below(weight, flat, rise, score + 1, score + 1);
        lemma_largest_score(weight, flat, rise, score + 1);
    }
}

/// The weight over the distance is the one score that is reached while the
/// next is not. So it reaches a threshold exactly where the threshold times
/// the distance is no more than the weight: nothing is lost to rounding
/// where the two are compared.
pub proof fn lemma_weight_over_distance(weight: int, flat: int, rise: int, threshold: int)
    requires
        0 <= weight,
        0 <= flat,
        0 <= rise,
        flat + rise > 0,
        0 <= threshold,
    ensures
        0 <= spec_weight_over_distance(weight, flat, rise) <= weight,
        spec_score_reached(weight, flat, rise, spec_weight_over_distance(weight, flat, rise)),
        !spec_score_reached(weight, flat, rise, spec_weight_over_distance(weight, flat, rise) + 1),
        spec_weight_over_distance(weight, flat, rise) >= threshold <==> spec_score_reached(
            weight,
            flat,
            rise,
            threshold,
        ),
{
    lemma_score_above_weight(weight, flat, rise);
    lemma_largest_score(weight, flat, rise, 0);
    let best = spec_weight_over_distance(weight, flat, rise);
    lemma_score_reached_below(weight, flat, rise, best, best);
    if best >= threshold {
        lemma_score_reached_below(weight, flat, rise, best, threshold);
    }
    if spec_score_reached(weight, flat, rise, threshold) && threshold > best {
        lemma_score_reached_below(weight, flat, rise, threshold, best + 1);
    }
}

/// A score that is reached while the next is not is the weight over the
/// distance.
pub proof fn lemma_weight_over_distance_is(weight: int, flat: int, rise: int, score: int)
    requires
        0 <= weight,
        0 <= flat,
        0 <= rise,
        flat + rise > 0,
        0 <= score,
        spec_score_reached(weight, flat, rise, score),
        !spec_score_reached(weight, flat, rise, score + 1),
    ensures
        spec_weight_over_distance(weight, flat, rise) == score,
{
    lemma_weight_over_distance(weight, flat, rise, score);
    lemma_weight_over_distance(weight, flat, rise, score + 1);
}

/// The candidates among the first `n` entries, each with its place among
/// the entries and its score: every entity but the one with the id `id`
/// that `viewer` can see.
pub open spec fn spec_candidates(
    entries: Seq<(u32, Entity)>,
    id: u32,
    viewer: Entity,
    n: int,
) -> Seq<(int, u64)>
    decreases n,
{
    if n <= 0 {
        Seq::empty()
    } else {
        let before = spec_candidates(entries, id, viewer, n - 1);
        let entry = entries[n - 1];
        if entry.0 != id && spec_can_see(entries, viewer.coords, entry.1.coords) {
            before.push((n - 1, spec_score(viewer, entry.1)))
        } else {
            before
        }
    }
}

/// The scores of candidates.
pub open spec fn spec_scores(candidates: Seq<(int, u64)>) -> Seq<u64> {
    candidates.map_values(|c: (int, u64)| c.1)
}

/// The place of the largest value: of the first one where several are the
/// largest.
pub open spec fn spec_first_max(vals: Seq<u64>) -> Option<int>
    decreases vals.len(),
{
    if vals.len() == 0 {
        None
    } else {
        match spec_first_max(vals.drop_last()) {
            None => Some(vals.len() - 1),
            Some(best) => if vals.last() > vals[best] {
                Some(vals.len() - 1)
            } else {
                Some(best)
            },
        }
    }
}

/// The first largest value is at least every value, and larger than every
/// value before it.
pub proof fn lemma_first_max(vals: Seq<u64>)
    ensures
        match spec_first_max(vals) {
            None => vals.len() == 0,
            Some(best) => 0 <= best < vals.len() && (forall|i: int|
                0 <= i < vals.len() ==> #[trigger] vals[i] <= vals[best]) && (forall|i: int|
                0 <= i < best ==> #[trigger] vals[i] < vals[best]),
        },
    decreases vals.len(),
{
    if vals.len() > 0 {
        let rest = vals.drop_last();
        lemma_first_max(rest);
        assert forall|i: int| 0 <= i < rest.len() implies rest[i] == vals[i] by {}
        match spec_first_max(rest) {
            None => {},
            Some(best) => {
                assert(rest[best] == vals[best]);
                if vals.last() > vals[best] {
                    assert forall|i: int| 0 <= i < vals.len() implies #[trigger] vals[i]
                        <= vals[vals.len() - 1] by {
                        if i < rest.len() {
                            assert(rest[i] <= rest[best]);
                        }
                    }
                    assert forall|i: int| 0 <= i < vals.len() - 1 implies #[trigger] vals[i]
                        < vals[vals.len() - 1] by {
                        assert(rest[i] <= rest[best]);
                    }
                } else {
                    assert forall|i: int| 0 <= i < vals.len() implies #[trigger] vals[i]
                        <= vals[best] by {
                        if i < rest.len() {
                            assert(rest[i] <= rest[best]);
                        }
                    }
                    assert forall|i: int| 0 <= i < best implies #[trigger] vals[i]
                        < vals[best] by {
                        assert(rest[i] < rest[best]);
                    }
                }
            },
        }
    }
}

/// What an entity does about another that it thinks `opinion` of and that
/// is `distance` thousandths away: it flees what it fears; else it comes
/// closer to what is out of reach; within reach it talks to whom it loves,
/// likes or is neutral to, and fights its enemies.
pub open spec fn spec_cooperative_action(opinion: Opinion, distance: int, id: u32) -> Action {
    if opinion == Opinion::Fear {
        Action::Flee(id)
    } else if distance > REACH {
        Action::Approach(id)
    } else if opinion == Opinion::Enemy || opinion == Opinion::ArchNemesis {
        Action::Fight(id)
    } else {
        Action::Talk(id)
    }
}

/// What an entity does about another that it thinks `opinion` of and that
/// is `distance` thousandths away.
pub fn cooperative_action(opinion: Opinion, distance: u64, id: u32) -> (action: Action)
    ensures
        action == spec_cooperative_action(opinion, distance as int, id),
        action.spec_target() == Some(id),
{
    if opinion == Opinion::Fear {
        Action::Flee(id)
    } else if distance > REACH {
        Action::Approach(id)
    } else if (opinion == Opinion::Love) || (opinion == Opinion::Friendly) || (opinion
        == Opinion::Neutral) {
        Action::Talk(id)
    } else if (opinion == Opinion::Enemy) || (opinion == Opinion::ArchNemesis) {
        Action::Fight(id)
    } else {
        Action::Talk(id)
    }
}

/// The focus on wandering alone.
pub open spec fn spec_solo_focus(tick: u32) -> Focus {
    Focus { action: Action::Solo(SoloAction::Wander), tick_born: tick }
}

/// The focus of `viewer` on `other`, which has the id `id`.
pub open spec fn spec_cooperative_focus(viewer: Entity, id: u32, other: Entity, tick: u32) -> Focus {
    Focus {
        action: spec_cooperative_action(
            spec_find_opinion(viewer, other),
            viewer.coords.spec_distance_from(other.coords),
            id,
        ),
        tick_born: tick,
    }
}

/// The focus that the entity `viewer`, which has the id `id`, finds in the
/// chunk. The scores of the candidates get their noise in the order of the
/// candidates' ids; the first candidate with the largest score wins. Where
/// there is no candidate, or the largest score is below the threshold, the
/// entity wanders; else its focus is on the winner.
pub open spec fn spec_find_new_focus(
    entries: Seq<(u32, Entity)>,
    id: u32,
    viewer: Entity,
    rng: TickBasedRng,
    tick: u32,
    max_noise: u32,
) -> Focus {
    let candidates = spec_candidates(entries, id, viewer, entries.len() as int);
    let scores = spec_insert_noise(spec_scores(candidates), max_noise, rng);
    match spec_first_max(scores) {
        None => spec_solo_focus(tick),
        Some(best) => if scores[best] < ACTIVATION_THRESHOLD {
            spec_solo_focus(tick)
        } else {
            let winner = entries[candidates[best].0];
            spec_cooperative_focus(viewer, winner.0, winner.1, tick)
        },
    }
}

/// How many values the search for a focus draws: one for each candidate.
pub open spec fn spec_focus_draws(entries: Seq<(u32, Entity)>, id: u32, viewer: Entity) -> nat {
    spec_candidates(entries, id, viewer, entries.len() as int).len()
}

/// A candidate is an entry of the chunk, and the candidates stand in the
/// order of the entries.
pub proof fn lemma_candidates(entries: Seq<(u32, Entity)>, id: u32, viewer: Entity, n: int)
    requires
        n <= entries.len(),
    ensures
        spec_candidates(entries, id, viewer, n).len() <= if n < 0 {
            0
        } else {
            n
        },
        forall|k: int|
            0 <= k < spec_candidates(entries, id, viewer, n).len() ==> {
                let c = #[trigger] spec_candidates(entries, id, viewer, n)[k];
                &&& 0 <= c.0 < n
                &&& entries[c.0].0 != id
                &&& spec_can_see(entries, viewer.coords, entries[c.0].1.coords)
                &&& c.1 == spec_score(viewer, entries[c.0].1)
                &&& c.1 <= WEIGHT_ONE
            },
    decreases n,
{
    if n > 0 {
        lemma_candidates(entries, id, viewer, n - 1);
        let before = spec_candidates(entries, id, viewer, n - 1);
        let after = spec_candidates(entries, id, viewer, n);
        lemma_score_is_weight(viewer, entries[n - 1].1, 1);
        assert forall|k: int| 0 <= k < after.len() implies {
            let c = #[trigger] after[k];
            &&& 0 <= c.0 < n
            &&& entries[c.0].0 != id
            &&& spec_can_see(entries, viewer.coords, entries[c.0].1.coords)
            &&& c.1 == spec_score(viewer, entries[c.0].1)
            &&& c.1 <= WEIGHT_ONE
        } by {
            if k < before.len() {
                assert(after[k] == before[k]);
            }
        }
    }
}

/// A score is a weight. It is nothing in the same cell, and elsewhere it
/// reaches a threshold exactly where the threshold times the distance is no
/// more than what the opinion weighs.
pub proof fn lemma_score_is_weight(viewer: Entity, other: Entity, threshold: int)
    requires
        0 < threshold,
    ensures
        spec_score(viewer, other) <= WEIGHT_ONE,
        viewer.coords == other.coords ==> spec_score(viewer, other) == 0,
        spec_score(viewer, other) >= threshold <==> viewer.coords != other.coords
            && spec_score_reached(
            spec_find_opinion(viewer, other).spec_get_weight() as int,
            (viewer.coords.0 - other.coords.0) * (viewer.coords.0 - other.coords.0) + (
            viewer.coords.2 - other.coords.2) * (viewer.coords.2 - other.coords.2),
            spec_abs(viewer.coords.1 - other.coords.1),
            threshold,
        ),
{
    let dx = viewer.coords.0 - other.coords.0;
    let dz = viewer.coords.2 - other.coords.2;
    let flat = dx * dx + dz * dz;
    let rise = spec_abs(viewer.coords.1 - other.coords.1);
    let weight = spec_find_opinion(viewer, other).spec_get_weight() as int;
    assert(dx * dx >= 0 && dz * dz >= 0) by (nonlinear_arith);
    assert(dx * dx == 0 <==> dx == 0) by (nonlinear_arith);
    assert(dz * dz == 0 <==> dz == 0) by (nonlinear_arith);
    if flat + rise > 0 {
        lemma_weight_over_distance(weight, flat, rise, threshold);
    }
}

/// Whether a candidate reaches the score `score`.
fn score_reached(weight: u128, flat: u128, rise: u128, score: u128) -> (reached: bool)
    requires
        weight <= 1_000_000,
        score <= 1_000_001,
        flat <= 2 * (0xffff_ffff * 0xffff_ffff),
        rise <= 0xffff_ffff,
    ensures
        reached == spec_score_reached(weight as int, flat as int, rise as int, score as int),
{
    assert(score * rise <= 1_000_001 * 0xffff_ffff) by (nonlinear_arith)
        requires
            score <= 1_000_001,
            rise <= 0xffff_ffff,
    ;
    let risen: u128 = score * rise;
    if risen > weight {
        return false;
    }
    let rest: u128 = weight - risen;
    assert(score * score <= 0x100_0000_0000) by (nonlinear_arith)
        requires
            score <= 1_000_001,
    ;
    assert(score * score * flat <= 0x200_0000_0000_0000_0000_0000_0000) by (nonlinear_arith)
        requires
            score * score <= 0x100_0000_0000,
            flat <= 0x2_0000_0000_0000_0000,
    ;
    assert(rest * rest <= 1_000_000 * 1_000_000) by (nonlinear_arith)
        requires
            rest <= 1_000_000,
    ;
    score * score * flat <= rest * rest
}

impl Entity {
    /// What the entity thinks of `entity`.
    pub fn find_opinion(&self, entity: &Entity) -> (opinion: Opinion)
        ensures
            opinion == spec_find_opinion(*self, *entity),
    {
        Opinion::Neutral
    }

    /// The focus on wandering alone, born in `tick`.
    pub fn generate_solo_focus(&self, tick: u32) -> (focus: Focus)
        ensures
            focus == spec_solo_focus(tick),
            !focus.action.is_cooperative(),
    {
        Focus { action: Action::Solo(SoloAction::Wander), tick_born: tick }
    }

    /// The focus on `entity`, which has the id `id`, born in `tick`.
    pub fn generate_cooperative_focus(&self, id: u32, entity: &Entity, tick: u32) -> (focus: Focus)
        ensures
            focus == spec_cooperative_focus(*self, id, *entity, tick),
            focus.action.spec_target() == Some(id),
    {
        let distance: u64 = self.coords.distance_from(&entity.coords);
        let opinion = self.find_opinion(entity);
        Focus { action: cooperative_action(opinion, distance, id), tick_born: tick }
    }

    /// The score of `entity` as a focus for this entity.
    pub fn score(&self, entity: &Entity) -> (score: u64)
        ensures
            score == spec_score(*self, *entity),
            score <= WEIGHT_ONE,
    {
        let dx: i64 = self.coords.0 as i64 - entity.coords.0 as i64;
        let dy: i64 = self.coords.1 as i64 - entity.coords.1 as i64;
        let dz: i64 = self.coords.2 as i64 - entity.coords.2 as i64;
        let ax: u128 = if dx < 0 { (-dx) as u128 } else { dx as u128 };
        let rise: u128 = if dy < 0 { (-dy) as u128 } else { dy as u128 };
        let az: u128 = if dz < 0 { (-dz) as u128 } else { dz as u128 };
        proof {
            assert(ax * ax == dx * dx && az * az == dz * dz) by (nonlinear_arith)
                requires
                    ax == dx || ax == -dx,
                    az == dz || az == -dz,
            ;
            assert(ax * ax <= 0xffff_ffff * 0xffff_ffff && az * az <= 0xffff_ffff * 0xffff_ffff)
                by (nonlinear_arith)
                requires
                    0 <= ax <= 0xffff_ffff,
                    0 <= az <= 0xffff_ffff,
            ;
            assert(ax * ax == 0 <==> ax == 0) by (nonlinear_arith);
            assert(az * az == 0 <==> az == 0) by (nonlinear_arith);
        }
        let flat: u128 = ax * ax + az * az;
        let weight: u128 = self.find_opinion(entity).get_weight() as u128;
        if flat == 0 && rise == 0 {
            return 0;
        }
        proof {
            lemma_score_above_weight(weight as int, flat as int, rise as int);
        }
        let mut lo: u128 = 0;
        let mut hi: u128 = weight + 1;
        while hi - lo > 1
            invariant
                lo < hi <= weight + 1,
                weight <= 1_000_000,
                flat <= 2 * (0xffff_ffff * 0xffff_ffff),
                rise <= 0xffff_ffff,
                spec_score_reached(weight as int, flat as int, rise as int, lo as int),
                !spec_score_reached(weight as int, flat as int, rise as int, hi as int),
            decreases hi - lo,
        {
            let mid: u128 = lo + (hi - lo) / 2;
            if score_reached(weight, flat, rise, mid) {
                lo = mid;
            } else {
                hi = mid;
            }
        }
        proof {
            lemma_weight_over_distance_is(weight as int, flat as int, rise as int, lo as int);
        }
        lo as u64
    }

    /// Finds what the entity, which has the id `id`, turns to next.
    pub fn find_new_focus(
        &self,
        id: u32,
        chunk: &Chunk,
        rng: &mut TickBasedRng,
        tick: u32,
        max_noise: u32,
    ) -> (focus: Focus)
        ensures
            focus == spec_find_new_focus(chunk@, id, *self, *old(rng), tick, max_noise),
            *final(rng) == old(rng).spec_advance_by(spec_focus_draws(chunk@, id, *self)),
            final(rng).seed == old(rng).seed,
            final(rng).tick == old(rng).tick,
            match focus.action.spec_target() {
                Some(target) => target != id && crate::world::chunk::spec_index_of(chunk@, target)
                    is Some,
                None => true,
            },
    {
        let entities = chunk.get_entities();
        let mut places: Vec<usize> = Vec::new();
        let mut scores: Vec<u64> = Vec::new();
        let mut k: usize = 0;
        while k < entities.len()
            invariant
                k <= entities.len(),
                entities@ == chunk@,
                places@.len() == scores@.len(),
                scores@.len() == spec_candidates(chunk@, id, *self, k as int).len(),
                forall|i: int|
                    0 <= i < scores@.len() ==> (#[trigger] spec_candidates(
                        chunk@,
                        id,
                        *self,
                        k as int,
                    )[i]) == (places@[i] as int, scores@[i]),
            decreases entities.len() - k,
        {
            if entities[k].0 != id && self.can_see(chunk, &entities[k].1) {
                let score: u64 = self.score(&entities[k].1);
                places.push(k);
                scores.push(score);
            }
            k += 1;
        }
        let ghost candidates = spec_candidates(chunk@, id, *self, chunk@.len() as int);
        proof {
            lemma_candidates(chunk@, id, *self, chunk@.len() as int);
            assert(scores@ =~= spec_scores(candidates));
        }
        let ghost raw = scores@;
        insert_noise(&mut scores, max_noise, rng);
        let mut best: Option<usize> = None;
        let mut i: usize = 0;
        while i < scores.len()
            invariant
                i <= scores.len(),
                match best {
                    Some(b) => spec_first_max(scores@.take(i as int)) == Some(b as int) && b < i,
                    None => spec_first_max(scores@.take(i as int)) is None,
                },
            decreases scores.len() - i,
        {
            proof {
                assert(scores@.take(i + 1).drop_last() =~= scores@.take(i as int));
            }
            let better: bool = match best {
                Some(b) => scores[i] > scores[b],
                None => true,
            };
            if better {
                best = Some(i);
            }
            i += 1;
        }
        assert(scores@.take(i as int) =~= scores@);
        match best {
            None => self.generate_solo_focus(tick),
            Some(b) => {
                if scores[b] < ACTIVATION_THRESHOLD {
                    self.generate_solo_focus(tick)
                } else {
                    let place: usize = places[b];
                    assert(candidates[b as int] == (places@[b as int] as int, raw[b as int]));
                    let focus = self.generate_cooperative_focus(
                        entities[place].0,
                        &entities[place].1,
                        tick,
                    );
                    proof {
                        crate::utils::lemma_first_index(
                            chunk@,
                            crate::world::chunk::entry_has_id(entities@[place as int].0),
                        );
                    }
                    focus
                }
            },
        }
    }
}

} // verus!
