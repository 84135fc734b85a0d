//! Nothing that moves an entity takes it out of the chunk.

use vstd::prelude::*;
use crate::constants::spec_in_bounds;
use crate::rng::TickBasedRng;
use crate::types::Direction3D;
use crate::utils::lemma_first_index;
use crate::world::chunk::{
    entry_has_id, lemma_move_keeps_entities, lemma_move_stays_in_bounds, spec_ids, spec_index_of,
    spec_move,
};
use crate::world::entity::Entity;
use crate::world::turn::{
    spec_npc_turn, spec_pass_tick, spec_pass_tick_from, spec_pick, spec_wander_direction,
};
use crate::world::world::spec_pass_ticks;

verus! {

/// Whether every entity stands within the bounds of the chunk.
pub open spec fn spec_all_in_bounds(entries: Seq<(u32, Entity)>) -> bool {
    forall|k: int| 0 <= k < entries.len() ==> spec_in_bounds((#[trigger] entries[k]).1.coords)
}

/// The entries after the steps `steps` were tried one after the other, each
/// by the entity it names in the direction it names.
pub open spec fn spec_moves(entries: Seq<(u32, Entity)>, steps: Seq<(u32, Direction3D)>) -> Seq<
    (u32, Entity),
>
    decreases steps.len(),
{
    if steps.len() == 0 {
        entries
    } else {
        spec_move(spec_moves(entries, steps.drop_last()), steps.last().0, steps.last().1)
    }
}

/// Movement never leaves the chunk: whatever steps are tried, by whichever
/// entities and in whatever order, entities that stood within the bounds
/// stand within them afterwards, and they are the same entities in the same
/// order.
pub proof fn lemma_moves_stay_in_bounds(
    entries: Seq<(u32, Entity)>,
    steps: Seq<(u32, Direction3D)>,
)
    requires
        spec_all_in_bounds(entries),
    ensures
        spec_all_in_bounds(spec_moves(entries, steps)),
        spec_ids(spec_moves(entries, steps)) == spec_ids(entries),
    decreases steps.len(),
{
    if steps.len() > 0 {
        lemma_moves_stay_in_bounds(entries, steps.drop_last());
        let before = spec_moves(entries, steps.drop_last());
        lemma_move_stays_in_bounds(before, steps.last().0, steps.last().1);
        lemma_move_keeps_entities(before, steps.last().0, steps.last().1);
    }
}

/// A turn leaves every entity within the bounds.
pub proof fn lemma_npc_turn_stays_in_bounds(
    entries: Seq<(u32, Entity)>,
    id: u32,
    rng: TickBasedRng,
    tick: u32,
    max_noise: u32,
)
    requires
        spec_all_in_bounds(entries),
    ensures
        spec_all_in_bounds(spec_npc_turn(entries, id, rng, tick, max_noise).entries),
        spec_npc_turn(entries, id, rng, tick, max_noise).entries.len() == entries.len(),
{
    reveal(spec_npc_turn);
    lemma_first_index(entries, entry_has_id(id));
    match spec_index_of(entries, id) {
        None => {},
        Some(i) => {
            let entity = entries[i].1;
            let focus = match entity.focus {
                Some(focus) => focus,
                None => crate::world::decision::spec_find_new_focus(
                    entries,
                    id,
                    entity,
                    rng,
                    tick,
                    max_noise,
                ),
            };
            let rng_then = match entity.focus {
                Some(_) => rng,
                None => rng.spec_advance_by(
                    crate::world::decision::spec_focus_draws(entries, id, entity),
                ),
            };
            let then = entries.update(i, (id, Entity { focus: Some(focus), ..entity }));
            assert(spec_all_in_bounds(then)) by {
                assert forall|k: int| 0 <= k < then.len() implies spec_in_bounds(
                    (#[trigger] then[k]).1.coords,
                ) by {
                    assert(spec_in_bounds(entries[k].1.coords));
                }
            }
            lemma_first_index(then, entry_has_id(id));
            lemma_move_stays_in_bounds(then, id, spec_wander_direction(rng_then.spec_next()));
            lemma_move_keeps_entities(then, id, spec_wander_direction(rng_then.spec_next()));
            match focus.action.spec_target() {
                Some(target) => {
                    lemma_first_index(then, entry_has_id(target));
                    match crate::world::chunk::spec_entity(then, target) {
                        Some(actee) => {
                            let heading = then[i].1.coords.spec_direction_to(actee.coords);
                            let away = spec_pick(heading, rng_then.spec_next());
                            let towards = spec_pick(heading.spec_invert(), rng_then.spec_next());
                            lemma_move_stays_in_bounds(then, id, away);
                            lemma_move_keeps_entities(then, id, away);
                            lemma_move_stays_in_bounds(then, id, towards);
                            lemma_move_keeps_entities(then, id, towards);
                        },
                        None => {},
                    }
                },
                None => {},
            }
        },
    }
}

/// A tick leaves every entity within the bounds, whether it ends well or
/// with a failure.
pub proof fn lemma_pass_tick_from_stays_in_bounds(
    entries: Seq<(u32, Entity)>,
    ids: Seq<u32>,
    k: int,
    rng: TickBasedRng,
    tick: u32,
    max_noise: u32,
)
    requires
        spec_all_in_bounds(entries),
    ensures
        spec_all_in_bounds(spec_pass_tick_from(entries, ids, k, rng, tick, max_noise).entries),
    decreases ids.len() - k,
{
    if 0 <= k < ids.len() {
        let turn = spec_npc_turn(entries, ids[k], rng, tick, max_noise);
        lemma_npc_turn_stays_in_bounds(entries, ids[k], rng, tick, max_noise);
        lemma_pass_tick_from_stays_in_bounds(turn.entries, ids, k + 1, turn.rng, tick, max_noise);
        lemma_pass_tick_from_stays_in_bounds(entries, ids, k + 1, rng, tick, max_noise);
    }
}

/// Time leaves every entity within the bounds: after any number of ticks,
/// entities that stood within the bounds stand within them.
pub proof fn lemma_pass_ticks_stays_in_bounds(
    entries: Seq<(u32, Entity)>,
    rng: TickBasedRng,
    tick: u32,
    max_noise: u32,
    n: nat,
)
    requires
        spec_all_in_bounds(entries),
    ensures
        spec_all_in_bounds(spec_pass_ticks(entries, rng, tick, max_noise, n).entries),
    decreases n,
{
    if n > 0 {
        let first = spec_pass_tick(entries, rng, tick, max_noise);
        lemma_pass_tick_from_stays_in_bounds(entries, spec_ids(entries), 0, rng, tick, max_noise);
        lemma_pass_ticks_stays_in_bounds(first.entries, first.rng, tick, max_noise, (n - 1) as nat);
    }
}

} // verus!
