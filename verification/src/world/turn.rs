//! One tick of a chunk: every entity with agency takes its turn.

use vstd::prelude::*;
use crate::error::Error;
use crate::rng::TickBasedRng;
use crate::types::{Coords3D, Direction3D, Message};
use crate::world::action::{Action, SoloAction};
use crate::world::chunk::{spec_entity, spec_ids, spec_index_of, spec_move, Chunk};
use crate::world::decision::{spec_find_new_focus, spec_focus_draws};
use crate::world::entity::{Entity, Focus};

verus! {

/// How a turn, or a run of turns, ends: the entities as they are then, the
/// generator as it is then, and the failure that stopped it, if one did.
pub struct TurnOutcome {
    pub entries: Seq<(u32, Entity)>,
    pub rng: TickBasedRng,
    pub error: Option<Error>,
}

/// The directions that count as going in `direction`: the direction itself
/// and its two neighbours on the compass; up alone, and down alone.
pub open spec fn spec_fan(direction: Direction3D) -> Seq<Direction3D> {
    match direction {
        Direction3D::North => seq![
            Direction3D::North,
            Direction3D::Northeast,
            Direction3D::Northwest,
        ],
        Direction3D::Northeast => seq![
            Direction3D::Northeast,
            Direction3D::North,
            Direction3D::East,
        ],
        Direction3D::East => seq![Direction3D::East, Direction3D::Northeast, Direction3D::Southeast],
        Direction3D::Southeast => seq![
            Direction3D::Southeast,
            Direction3D::East,
            Direction3D::South,
        ],
        Direction3D::South => seq![
            Direction3D::South,
            Direction3D::Southeast,
            Direction3D::Southwest,
        ],
        Direction3D::Southwest => seq![
            Direction3D::Southwest,
            Direction3D::South,
            Direction3D::West,
        ],
        Direction3D::West => seq![Direction3D::West, Direction3D::Southwest, Direction3D::Northwest],
        Direction3D::Northwest => seq![
            Direction3D::Northwest,
            Direction3D::West,
            Direction3D::North,
        ],
        Direction3D::Up => seq![Direction3D::Up],
        Direction3D::Down => seq![Direction3D::Down],
    }
}

/// The directions that count as going in `direction`.
pub fn fan(direction: Direction3D) -> (fan: Vec<Direction3D>)
    ensures
        fan@ == spec_fan(direction),
        fan@.len() == 1 || fan@.len() == 3,
{
    let fan = match direction {
        Direction3D::North => vec![
            Direction3D::North,
            Direction3D::Northeast,
            Direction3D::Northwest,
        ],
        Direction3D::Northeast => vec![
            Direction3D::Northeast,
            Direction3D::North,
            Direction3D::East,
        ],
        Direction3D::East => vec![Direction3D::East, Direction3D::Northeast, Direction3D::Southeast],
        Direction3D::Southeast => vec![
            Direction3D::Southeast,
            Direction3D::East,
            Direction3D::South,
        ],
        Direction3D::South => vec![
            Direction3D::South,
            Direction3D::Southeast,
            Direction3D::Southwest,
        ],
        Direction3D::Southwest => vec![
            Direction3D::Southwest,
            Direction3D::South,
            Direction3D::West,
        ],
        Direction3D::West => vec![Direction3D::West, Direction3D::Southwest, Direction3D::Northwest],
        Direction3D::Northwest => vec![
            Direction3D::Northwest,
            Direction3D::West,
            Direction3D::North,
        ],
        Direction3D::Up => vec![Direction3D::Up],
        Direction3D::Down => vec![Direction3D::Down],
    };
    assert(fan@ =~= spec_fan(direction));
    fan
}

/// No direction of a fan goes against the direction that the fan is of:
/// along each axis it steps the same way or not at all, and along one
/// axis at least it steps the same way.
pub proof fn lemma_fan_keeps_heading(direction: Direction3D, k: int)
    requires
        0 <= k < spec_fan(direction).len(),
    ensures
        spec_fan(direction)[0] == direction,
        spec_fan(direction)[k].dz() == direction.dz(),
        direction.dx() != 0 ==> spec_fan(direction)[k].dx() == direction.dx() || spec_fan(
            direction,
        )[k].dx() == 0,
        direction.dy() != 0 ==> spec_fan(direction)[k].dy() == direction.dy() || spec_fan(
            direction,
        )[k].dy() == 0,
        (direction.dx() != 0 && spec_fan(direction)[k].dx() == direction.dx()) || (direction.dy()
            != 0 && spec_fan(direction)[k].dy() == direction.dy()) || direction.dz() != 0,
{
}

/// The direction that the draw `draw` picks from the fan of `direction`.
pub open spec fn spec_pick(direction: Direction3D, draw: u32) -> Direction3D {
    spec_fan(direction)[(draw as int) % (spec_fan(direction).len() as int)]
}

/// One step of the entity with the id `id` with regard to `coords`: the
/// direction of the entity's offset from `coords` is taken as it is, or
/// turned round where `turned` holds; the next draw picks a direction from
/// its fan, and the entity tries a step in it.
pub open spec fn spec_step_by(
    entries: Seq<(u32, Entity)>,
    id: u32,
    coords: Coords3D,
    rng: TickBasedRng,
    turned: bool,
) -> TurnOutcome {
    match spec_entity(entries, id) {
        None => TurnOutcome { entries, rng, error: Some(Error::EntityNotFound(id)) },
        Some(entity) => {
            let heading = entity.coords.spec_direction_to(coords);
            let direction = if turned {
                heading.spec_invert()
            } else {
                heading
            };
            TurnOutcome {
                entries: spec_move(entries, id, spec_pick(direction, rng.spec_next())),
                rng: rng.spec_advance(),
                error: None,
            }
        },
    }
}

/// How fleeing ends: the entity steps the way its offset from `coords`
/// points, which leads away from `coords`.
pub open spec fn spec_flee(
    entries: Seq<(u32, Entity)>,
    id: u32,
    coords: Coords3D,
    rng: TickBasedRng,
) -> TurnOutcome {
    spec_step_by(entries, id, coords, rng, false)
}

/// How approaching ends: the entity steps against the way its offset from
/// `coords` points, which leads towards `coords`.
pub open spec fn spec_approach(
    entries: Seq<(u32, Entity)>,
    id: u32,
    coords: Coords3D,
    rng: TickBasedRng,
) -> TurnOutcome {
    spec_step_by(entries, id, coords, rng, true)
}

/// The direction in which a wanderer goes on the draw `draw`.
pub open spec fn spec_wander_direction(draw: u32) -> Direction3D {
    let val = draw % 6;
    if val == 0 {
        Direction3D::North
    } else if val == 1 {
        Direction3D::East
    } else if val == 2 {
        Direction3D::West
    } else if val == 3 {
        Direction3D::South
    } else if val == 4 {
        Direction3D::Up
    } else {
        Direction3D::Down
    }
}

/// How a solo action ends: a wanderer tries a step in the direction that
/// the next draw gives. A focus on another entity is refused here.
pub open spec fn spec_solo_action(
    entries: Seq<(u32, Entity)>,
    id: u32,
    rng: TickBasedRng,
    focus: Focus,
) -> TurnOutcome {
    match focus.action {
        Action::Solo(SoloAction::Wander) => match spec_index_of(entries, id) {
            Some(_) => TurnOutcome {
                entries: spec_move(entries, id, spec_wander_direction(rng.spec_next())),
                rng: rng.spec_advance(),
                error: None,
            },
            None => TurnOutcome {
                entries,
                rng: rng.spec_advance(),
                error: Some(Error::EntityNotFound(id)),
            },
        },
        _ => TurnOutcome { entries, rng, error: Some(Error::InteractionInSoloAction) },
    }
}

/// How an interaction ends. The actor and the entity it aims at must both
/// be there. Fleeing and approaching take a step; talking and fighting
/// leave the chunk as it is. A solo focus is refused here.
pub open spec fn spec_interaction(
    entries: Seq<(u32, Entity)>,
    id: u32,
    rng: TickBasedRng,
    focus: Focus,
) -> TurnOutcome {
    if spec_entity(entries, id) is None {
        TurnOutcome { entries, rng, error: Some(Error::EntityNotFound(id)) }
    } else {
        match focus.action.spec_target() {
            None => TurnOutcome { entries, rng, error: Some(Error::SoloActionInInteraction) },
            Some(target) => match spec_entity(entries, target) {
                None => TurnOutcome { entries, rng, error: Some(Error::EntityNotFound(target)) },
                Some(actee) => match focus.action {
                    Action::Flee(_) => spec_flee(entries, id, actee.coords, rng),
                    Action::Approach(_) => spec_approach(entries, id, actee.coords, rng),
                    _ => TurnOutcome { entries, rng, error: None },
                },
            },
        }
    }
}

/// How the turn of the entity with the id `id` ends. An entity without a
/// focus finds one first and keeps it; then it acts on its focus.
#[verifier::opaque]
pub open spec fn spec_npc_turn(
    entries: Seq<(u32, Entity)>,
    id: u32,
    rng: TickBasedRng,
    tick: u32,
    max_noise: u32,
) -> TurnOutcome {
    match spec_index_of(entries, id) {
        None => TurnOutcome { entries, rng, error: Some(Error::EntityNotFound(id)) },
        Some(i) => {
            let entity = entries[i].1;
            let focus = match entity.focus {
                Some(focus) => focus,
                None => spec_find_new_focus(entries, id, entity, rng, tick, max_noise),
            };
            let rng_then = match entity.focus {
                Some(_) => rng,
                None => rng.spec_advance_by(spec_focus_draws(entries, id, entity)),
            };
            let entries_then = entries.update(i, (id, Entity { focus: Some(focus), ..entity }));
            if focus.action.is_cooperative() {
                spec_interaction(entries_then, id, rng_then, focus)
            } else {
                spec_solo_action(entries_then, id, rng_then, focus)
            }
        },
    }
}

/// How a tick ends that has come to the `k`-th of the ids `ids`: each id in
/// turn whose entity is still there and has agency takes its turn, and the
/// first failure ends the tick.
pub open spec fn spec_pass_tick_from(
    entries: Seq<(u32, Entity)>,
    ids: Seq<u32>,
    k: int,
    rng: TickBasedRng,
    tick: u32,
    max_noise: u32,
) -> TurnOutcome
    decreases ids.len() - k,
{
    if k < 0 || k >= ids.len() {
        TurnOutcome { entries, rng, error: None }
    } else {
        match spec_entity(entries, ids[k]) {
            Some(entity) if entity.spec_has_agency() => {
                let turn = spec_npc_turn(entries, ids[k], rng, tick, max_noise);
                if turn.error is Some {
                    turn
                } else {
                    spec_pass_tick_from(turn.entries, ids, k + 1, turn.rng, tick, max_noise)
                }
            },
            _ => spec_pass_tick_from(entries, ids, k + 1, rng, tick, max_noise),
        }
    }
}

/// How a tick ends: the entities take their turns in the order of the ids
/// that the chunk holds when the tick begins.
pub open spec fn spec_pass_tick(
    entries: Seq<(u32, Entity)>,
    rng: TickBasedRng,
    tick: u32,
    max_noise: u32,
) -> TurnOutcome {
    spec_pass_tick_from(entries, spec_ids(entries), 0, rng, tick, max_noise)
}

/// Whether no entity has agency.
pub open spec fn spec_idle(entries: Seq<(u32, Entity)>) -> bool {
    forall|i: int| 0 <= i < entries.len() ==> !(#[trigger] entries[i]).1.spec_has_agency()
}

/// Where no entity has agency, the rest of a tick passes over the chunk
/// without a trace, whichever ids are still in turn.
pub proof fn lemma_idle_tick_from(
    entries: Seq<(u32, Entity)>,
    ids: Seq<u32>,
    k: int,
    rng: TickBasedRng,
    tick: u32,
    max_noise: u32,
)
    requires
        spec_idle(entries),
    ensures
        spec_pass_tick_from(entries, ids, k, rng, tick, max_noise) == (TurnOutcome {
            entries,
            rng,
            error: None,
        }),
    decreases ids.len() - k,
{
    if 0 <= k < ids.len() {
        crate::utils::lemma_first_index(entries, crate::world::chunk::entry_has_id(ids[k]));
        lemma_idle_tick_from(entries, ids, k + 1, rng, tick, max_noise);
    }
}

/// Where no entity has agency, a tick passes over the chunk without a
/// trace: no entity changes, nothing is drawn from the generator, and
/// nothing fails.
pub proof fn lemma_idle_tick(entries: Seq<(u32, Entity)>, rng: TickBasedRng, tick: u32, max_noise: u32)
    requires
        spec_idle(entries),
    ensures
        spec_pass_tick(entries, rng, tick, max_noise) == (TurnOutcome { entries, rng, error: None }),
{
    lemma_idle_tick_from(entries, spec_ids(entries), 0, rng, tick, max_noise);
}

impl Chunk {
    /// Lets the entity with the id `id` take a step away from `coords`: in
    /// the direction of its offset from `coords`, or in one of the two
    /// directions next to it, as `rng` picks.
    pub fn flee(&mut self, id: u32, coords: &Coords3D, rng: &mut TickBasedRng) -> (result: Result<
        Option<Message>,
        Error,
    >)
        ensures
            final(self)@ == spec_flee(old(self)@, id, *coords, *old(rng)).entries,
            *final(rng) == spec_flee(old(self)@, id, *coords, *old(rng)).rng,
            match spec_flee(old(self)@, id, *coords, *old(rng)).error {
                Some(e) => result == Err::<Option<Message>, Error>(e),
                None => result matches Ok(message) && message is None,
            },
            spec_ids(final(self)@) == spec_ids(old(self)@),
            final(rng).seed == old(rng).seed,
            final(rng).tick == old(rng).tick,
    {
        self.step_by(id, coords, rng, false)
    }

    /// Lets the entity with the id `id` take a step towards `coords`:
    /// against the direction of its offset from `coords`, or in one of the
    /// two directions next to that, as `rng` picks.
    pub fn approach(&mut self, id: u32, coords: &Coords3D, rng: &mut TickBasedRng) -> (result:
        Result<Option<Message>, Error>)
        ensures
            final(self)@ == spec_approach(old(self)@, id, *coords, *old(rng)).entries,
            *final(rng) == spec_approach(old(self)@, id, *coords, *old(rng)).rng,
            match spec_approach(old(self)@, id, *coords, *old(rng)).error {
                Some(e) => result == Err::<Option<Message>, Error>(e),
                None => result matches Ok(message) && message is None,
            },
            spec_ids(final(self)@) == spec_ids(old(self)@),
            final(rng).seed == old(rng).seed,
            final(rng).tick == old(rng).tick,
    {
        self.step_by(id, coords, rng, true)
    }

    fn step_by(&mut self, id: u32, coords: &Coords3D, rng: &mut TickBasedRng, turned: bool) -> (result:
        Result<Option<Message>, Error>)
        ensures
            final(self)@ == spec_step_by(old(self)@, id, *coords, *old(rng), turned).entries,
            *final(rng) == spec_step_by(old(self)@, id, *coords, *old(rng), turned).rng,
            match spec_step_by(old(self)@, id, *coords, *old(rng), turned).error {
                Some(e) => result == Err::<Option<Message>, Error>(e),
                None => result matches Ok(message) && message is None,
            },
            spec_ids(final(self)@) == spec_ids(old(self)@),
            final(rng).seed == old(rng).seed,
            final(rng).tick == old(rng).tick,
    {
        let mut direction: Direction3D = match self.get_entity_from_id(id) {
            Some(entity) => entity.coords.direction_to(coords),
            None => {
                return Err(Error::EntityNotFound(id));
            },
        };
        if turned {
            direction.invert();
        }
        let possible_directions = fan(direction);
        let draw: u32 = rng.rand();
        let index: usize = (draw % (possible_directions.len() as u32)) as usize;
        let direction: Direction3D = possible_directions[index];
        let _ = self.move_entity(id, &direction);
        Ok(None)
    }

    /// Resolves the solo action of the entity with the id `id`.
    pub fn entity_take_solo_action(
        &mut self,
        id: u32,
        rng: &mut TickBasedRng,
        focus: &Focus,
        tick: u32,
    ) -> (result: Result<Option<Message>, Error>)
        ensures
            final(self)@ == spec_solo_action(old(self)@, id, *old(rng), *focus).entries,
            *final(rng) == spec_solo_action(old(self)@, id, *old(rng), *focus).rng,
            match spec_solo_action(old(self)@, id, *old(rng), *focus).error {
                Some(e) => result == Err::<Option<Message>, Error>(e),
                None => result matches Ok(message) && message is None,
            },
            spec_ids(final(self)@) == spec_ids(old(self)@),
            final(rng).seed == old(rng).seed,
            final(rng).tick == old(rng).tick,
    {
        match focus.action {
            Action::Solo(SoloAction::Wander) => {
                let val: u32 = rng.rand() % 6;
                let direction = if val == 0 {
                    Direction3D::North
                } else if val == 1 {
                    Direction3D::East
                } else if val == 2 {
                    Direction3D::West
                } else if val == 3 {
                    Direction3D::South
                } else if val == 4 {
                    Direction3D::Up
                } else {
                    Direction3D::Down
                };
                match self.move_entity(id, &direction) {
                    Ok(()) => Ok(None),
                    Err(e) => Err(e),
                }
            },
            _ => Err(Error::InteractionInSoloAction),
        }
    }

    /// Resolves the action of the entity with the id `id` that aims at
    /// another entity.
    pub fn entity_interaction(
        &mut self,
        id: u32,
        rng: &mut TickBasedRng,
        focus: &Focus,
        tick: u32,
    ) -> (result: Result<Option<Message>, Error>)
        ensures
            final(self)@ == spec_interaction(old(self)@, id, *old(rng), *focus).entries,
            *final(rng) == spec_interaction(old(self)@, id, *old(rng), *focus).rng,
            match spec_interaction(old(self)@, id, *old(rng), *focus).error {
                Some(e) => result == Err::<Option<Message>, Error>(e),
                None => result matches Ok(message) && message is None,
            },
            spec_ids(final(self)@) == spec_ids(old(self)@),
            final(rng).seed == old(rng).seed,
            final(rng).tick == old(rng).tick,
    {
        if self.get_entity_from_id(id).is_none() {
            return Err(Error::EntityNotFound(id));
        }
        let target: u32 = match focus.action.target() {
            Some(target) => target,
            None => {
                return Err(Error::SoloActionInInteraction);
            },
        };
        let coords: Coords3D = match self.get_entity_from_id(target) {
            Some(actee) => actee.coords,
            None => {
                return Err(Error::EntityNotFound(target));
            },
        };
        match focus.action {
            Action::Flee(_) => self.flee(id, &coords, rng),
            Action::Approach(_) => self.approach(id, &coords, rng),
            _ => Ok(None),
        }
    }

    /// Lets the entity with the id `id` take its turn in the tick `tick`.
    pub fn npc_turn(&mut self, id: u32, rng: &mut TickBasedRng, tick: u32, max_noise: u32) -> (result:
        Result<Option<Message>, Error>)
        ensures
            final(self)@ == spec_npc_turn(old(self)@, id, *old(rng), tick, max_noise).entries,
            *final(rng) == spec_npc_turn(old(self)@, id, *old(rng), tick, max_noise).rng,
            match spec_npc_turn(old(self)@, id, *old(rng), tick, max_noise).error {
                Some(e) => result == Err::<Option<Message>, Error>(e),
                None => result matches Ok(message) && message is None,
            },
            spec_ids(final(self)@) == spec_ids(old(self)@),
            final(rng).seed == old(rng).seed,
            final(rng).tick == old(rng).tick,
    {
        reveal(spec_npc_turn);
        let focus: Focus = match self.get_entity_from_id(id) {
            None => {
                return Err(Error::EntityNotFound(id));
            },
            Some(entity) => match entity.focus {
                Some(focus) => focus,
                None => entity.find_new_focus(id, self, rng, tick, max_noise),
            },
        };
        self.set_focus(id, Some(focus));
        match focus.action {
            Action::Solo(_) => self.entity_take_solo_action(id, rng, &focus, tick),
            _ => self.entity_interaction(id, rng, &focus, tick),
        }
    }

    /// Lets one tick pass: every entity with agency takes its turn, in the
    /// order of the ids that the chunk holds when the tick begins. The first
    /// turn that fails ends the tick, and what was done until then stays
    /// done.
    pub fn pass_tick(&mut self, rng: &mut TickBasedRng, tick: u32, max_noise: u32) -> (result:
        Result<Vec<Message>, Error>)
        ensures
            final(self)@ == spec_pass_tick(old(self)@, *old(rng), tick, max_noise).entries,
            *final(rng) == spec_pass_tick(old(self)@, *old(rng), tick, max_noise).rng,
            match spec_pass_tick(old(self)@, *old(rng), tick, max_noise).error {
                Some(e) => result == Err::<Vec<Message>, Error>(e),
                None => result matches Ok(messages) && messages@.len() == 0,
            },
            spec_ids(final(self)@) == spec_ids(old(self)@),
            final(rng).seed == old(rng).seed,
            final(rng).tick == old(rng).tick,
    {
        let mut messages: Vec<Message> = Vec::new();
        let mut ids: Vec<u32> = Vec::new();
        let mut n: usize = 0;
        while n < self.len()
            invariant
                n <= self@.len(),
                self@ == old(self)@,
                ids@ == spec_ids(self@).take(n as int),
            decreases self@.len() - n,
        {
            ids.push(self.get_entities()[n].0);
            assert(spec_ids(self@).take(n as int).push(spec_ids(self@)[n as int]) =~= spec_ids(
                self@,
            ).take(n + 1));
            n += 1;
        }
        assert(ids@ =~= spec_ids(old(self)@));
        let mut k: usize = 0;
        while k < ids.len()
            invariant
                k <= ids.len(),
                messages@.len() == 0,
                ids@ == spec_ids(old(self)@),
                spec_ids(self@) == spec_ids(old(self)@),
                rng.seed == old(rng).seed,
                rng.tick == old(rng).tick,
                spec_pass_tick_from(old(self)@, ids@, 0, *old(rng), tick, max_noise)
                    == spec_pass_tick_from(self@, ids@, k as int, *rng, tick, max_noise),
            decreases ids.len() - k,
        {
            let id: u32 = ids[k];
            let acts: bool = match self.get_entity_from_id(id) {
                Some(entity) => entity.has_agency(),
                None => false,
            };
            if acts {
                match self.npc_turn(id, rng, tick, max_noise) {
                    Ok(Some(message)) => {
                        messages.push(message);
                    },
                    Ok(None) => {},
                    Err(e) => {
                        return Err(e);
                    },
                }
            }
            k += 1;
        }
        Ok(messages)
    }
}

} // verus!
