//! The world: the active chunk, the ticks, the flags, and the dialogue that
//! is going on.

use vstd::prelude::*;
use crate::error::Error;
use crate::rng::TickBasedRng;
use crate::store::{chunk_path, chunk_path_in_dir, spec_chunk_path, spec_chunk_path_in_dir};
use crate::types::{Coords4D, Message};
use crate::utils::{first_index, lemma_first_index_is, lemma_first_index_none};
use crate::world::chunk::{lemma_update_keeps_ids, spec_ids, spec_index_of, Chunk};
use crate::world::conditions::WorldCondition;
use crate::world::decision::DEFAULT_MAX_NOISE;
use crate::world::dialogue::{DialogueNode, DialogueOutcome, DialogueTree};
use crate::world::entity::Entity;
use crate::world::item::{ItemCatalogue, ItemData};
use crate::world::log::Log;
use crate::world::turn::{spec_pass_tick, TurnOutcome};

verus! {

/// The world. It owns one chunk at a time, the generator and the count of
/// the ticks, the flags that are set, the catalogue of items, and the
/// dialogue that is going on, if one is.
#[derive(Debug, PartialEq, Eq)]
pub struct World {
    pub seed: u32,
    pub savename: Option<String>,
    pub active_chunk: Chunk,
    pub chunk_coords: Coords4D,
    pub tick: u32,
    pub rng: TickBasedRng,
    pub pass_tick: bool,
    pub messages: Vec<Message>,
    pub next_entity_id: u32,
    pub log: Log,
    pub dialogue_tree: Option<DialogueTree>,
    pub conditions: Vec<WorldCondition>,
    pub items: ItemCatalogue,
    pub max_noise: u32,
}

/// What of a world is kept when it is saved: the seed, the name, the active
/// chunk and where it lies, the tick, and the id of the next entity.
pub struct WorldSave<'a> {
    pub seed: u32,
    pub savename: &'a Option<String>,
    pub active_chunk: &'a Chunk,
    pub chunk_coords: Coords4D,
    pub tick: u32,
    pub next_entity_id: u32,
}

/// How `n` ticks end that pass one after the other: the first tick that
/// fails ends them all.
pub open spec fn spec_pass_ticks(
    entries: Seq<(u32, Entity)>,
    rng: TickBasedRng,
    tick: u32,
    max_noise: u32,
    n: nat,
) -> TurnOutcome
    decreases n,
{
    if n == 0 {
        TurnOutcome { entries, rng, error: None }
    } else {
        let first = spec_pass_tick(entries, rng, tick, max_noise);
        if first.error is Some {
            first
        } else {
            spec_pass_ticks(first.entries, first.rng, tick, max_noise, (n - 1) as nat)
        }
    }
}

/// The flags with `condition` among them: behind the others, if it was not
/// among them.
pub open spec fn spec_with_condition(
    conditions: Seq<WorldCondition>,
    condition: WorldCondition,
) -> Seq<WorldCondition> {
    if conditions.contains(condition) {
        conditions
    } else {
        conditions.push(condition)
    }
}

/// Holds of the flag `condition`.
pub open spec fn is_condition(condition: WorldCondition) -> spec_fn(WorldCondition) -> bool {
    |c: WorldCondition| c == condition
}

/// The flags without `condition`: the others stay in their order.
pub open spec fn spec_without_condition(
    conditions: Seq<WorldCondition>,
    condition: WorldCondition,
) -> Seq<WorldCondition> {
    match first_index(conditions, is_condition(condition)) {
        Some(i) => conditions.remove(i),
        None => conditions,
    }
}

impl Default for World {
    fn default() -> (world: Self)
        ensures
            world.wf(),
            world.spec_holds_only_kept(),
            world.seed == 0,
            world.savename is None,
            world.active_chunk@ == Seq::<(u32, Entity)>::empty(),
            world.chunk_coords == Coords4D(0, 0, 0, 0),
            world.tick == 0,
            world.rng == (TickBasedRng { num: None, tick: 0, seed: 0 }),
            !world.pass_tick,
            world.messages@.len() == 0,
            world.next_entity_id == 0,
            world.log@.len() == 0,
            world.dialogue_tree is None,
            world.conditions@ == Seq::<WorldCondition>::empty(),
    {
        World {
            seed: 0,
            savename: None,
            active_chunk: Chunk::new(),
            chunk_coords: Coords4D(0, 0, 0, 0),
            tick: 0,
            rng: TickBasedRng { num: None, tick: 0, seed: 0 },
            pass_tick: false,
            messages: Vec::new(),
            next_entity_id: 0,
            log: Log::new(),
            dialogue_tree: None,
            conditions: Vec::new(),
            items: ItemCatalogue::new(Vec::new()),
            max_noise: DEFAULT_MAX_NOISE,
        }
    }
}

impl World {
    /// Whether the world is in order: the ids of the chunk ascend, the
    /// catalogue gives out no id that is set aside, and no flag is set
    /// twice.
    pub open spec fn wf(&self) -> bool {
        &&& self.active_chunk.wf()
        &&& self.items.wf()
        &&& self.conditions@.no_duplicates()
    }

    /// Whether the world holds nothing but what is kept when it is saved:
    /// whether all else is as in a world that has just been made.
    pub open spec fn spec_holds_only_kept(&self) -> bool {
        &&& self.rng == (TickBasedRng { num: None, tick: 0, seed: 0 })
        &&& !self.pass_tick
        &&& self.messages@ == Seq::<Message>::empty()
        &&& self.log@.len() == 0
        &&& self.dialogue_tree is None
        &&& self.conditions@ == Seq::<WorldCondition>::empty()
        &&& self.items.spec_definitions() == Seq::<ItemData>::empty()
        &&& self.items.spec_next_id() == crate::world::item::RESERVED_ID_COUNT
        &&& self.max_noise == DEFAULT_MAX_NOISE
    }

    /// Whether the world is the one that is restored from what was kept of
    /// `saved`: it has what was kept, and nothing else.
    pub open spec fn spec_restored_from(&self, saved: World) -> bool {
        &&& self.seed == saved.seed
        &&& self.savename == saved.savename
        &&& self.active_chunk == saved.active_chunk
        &&& self.chunk_coords == saved.chunk_coords
        &&& self.tick == saved.tick
        &&& self.next_entity_id == saved.next_entity_id
        &&& self.spec_holds_only_kept()
    }

    /// Whether two worlds hold the same.
    pub open spec fn spec_same(&self, other: World) -> bool {
        &&& self.seed == other.seed
        &&& self.savename == other.savename
        &&& self.active_chunk == other.active_chunk
        &&& self.chunk_coords == other.chunk_coords
        &&& self.tick == other.tick
        &&& self.rng == other.rng
        &&& self.pass_tick == other.pass_tick
        &&& self.messages@ == other.messages@
        &&& self.next_entity_id == other.next_entity_id
        &&& self.log@ == other.log@
        &&& self.dialogue_tree == other.dialogue_tree
        &&& self.conditions@ == other.conditions@
        &&& self.items.spec_definitions() == other.items.spec_definitions()
        &&& self.items.spec_next_id() == other.items.spec_next_id()
        &&& self.max_noise == other.max_noise
    }

    /// The world that is restored from what was kept of a world when it was
    /// saved. What is not kept is as in a world that has just been made.
    pub fn restore(
        seed: u32,
        savename: Option<String>,
        active_chunk: Chunk,
        chunk_coords: Coords4D,
        tick: u32,
        next_entity_id: u32,
    ) -> (world: Self)
        ensures
            world.seed == seed,
            world.savename == savename,
            world.active_chunk == active_chunk,
            world.chunk_coords == chunk_coords,
            world.tick == tick,
            world.next_entity_id == next_entity_id,
            world.spec_holds_only_kept(),
            active_chunk.wf() ==> world.wf(),
    {
        World {
            seed,
            savename,
            active_chunk,
            chunk_coords,
            tick,
            rng: TickBasedRng { num: None, tick: 0, seed: 0 },
            pass_tick: false,
            messages: Vec::new(),
            next_entity_id,
            log: Log::new(),
            dialogue_tree: None,
            conditions: Vec::new(),
            items: ItemCatalogue::new(Vec::new()),
            max_noise: DEFAULT_MAX_NOISE,
        }
    }

    /// Whether the world is in order.
    pub fn is_wf(&self) -> (ok: bool)
        ensures
            ok == self.wf(),
    {
        if !self.active_chunk.is_wf() || !self.items.is_wf() {
            return false;
        }
        let mut k: usize = 0;
        while k < self.conditions.len()
            invariant
                k <= self.conditions.len(),
                self.active_chunk.wf(),
                self.items.wf(),
                forall|i: int, j: int|
                    0 <= i < j < k ==> self.conditions@[i] != self.conditions@[j],
            decreases self.conditions.len() - k,
        {
            let mut i: usize = 0;
            while i < k
                invariant
                    i <= k < self.conditions.len(),
                    forall|j: int| 0 <= j < i ==> self.conditions@[j] != self.conditions@[k as int],
                decreases k - i,
            {
                if self.conditions[i] == self.conditions[k] {
                    return false;
                }
                i += 1;
            }
            k += 1;
        }
        true
    }

    /// Whether the world is a new one grown from `seed`: an empty chunk at
    /// the origin, no tick passed, no flag set, nothing said, an empty
    /// catalogue, and entity ids from the middle of their range on.
    pub open spec fn spec_is_new(&self, seed: u32) -> bool {
        &&& self.wf()
        &&& self.seed == seed
        &&& self.savename is None
        &&& self.active_chunk@ == Seq::<(u32, Entity)>::empty()
        &&& self.chunk_coords == Coords4D(0, 0, 0, 0)
        &&& self.tick == 0
        &&& self.rng == (TickBasedRng { num: None, tick: 0, seed })
        &&& !self.pass_tick
        &&& self.messages@.len() == 0
        &&& self.next_entity_id == u32::MAX / 2
        &&& self.log@.len() == 0
        &&& self.dialogue_tree is None
        &&& self.conditions@ == Seq::<WorldCondition>::empty()
        &&& self.max_noise == DEFAULT_MAX_NOISE
        &&& self.items.spec_definitions() == Seq::<ItemData>::empty()
    }

    /// The world that was loaded, or, where none could be loaded, a new
    /// world grown from a seed picked by chance.
    pub fn new(loaded: Option<World>) -> (result: Result<Self, Error>)
        ensures
            match loaded {
                Some(world) => result == Ok::<World, Error>(world),
                None => result matches Ok(world) && world.spec_is_new(world.seed),
            },
    {
        match loaded {
            Some(world) => Ok(world),
            None => Self::from_seed(crate::chance::random_u32()),
        }
    }

    /// A new world grown from `seed`.
    pub fn from_seed(seed: u32) -> (result: Result<Self, Error>)
        ensures
            result matches Ok(world) && world.spec_is_new(seed),
    {
        let mut next_entity_id: u32 = u32::MAX / 2;
        let active_chunk = match Chunk::from_seed(Coords4D(0, 0, 0, 0), seed, &mut next_entity_id) {
            Ok(chunk) => chunk,
            Err(e) => {
                return Err(e);
            },
        };
        Ok(
            World {
                seed,
                savename: None,
                active_chunk,
                chunk_coords: Coords4D(0, 0, 0, 0),
                tick: 0,
                rng: TickBasedRng::new(seed, 0),
                messages: Vec::new(),
                pass_tick: false,
                next_entity_id,
                log: Log::new(),
                dialogue_tree: None,
                conditions: Vec::new(),
                items: ItemCatalogue::new(Vec::new()),
                max_noise: DEFAULT_MAX_NOISE,
            },
        )
    }

    /// Makes `chunk` the active chunk. Gives back the chunk that was active
    /// and the name of the file, below the directory of the profile, in
    /// which it is to be kept.
    pub fn add_chunk(&mut self, chunk: Chunk) -> (kept: (String, Chunk))
        ensures
            kept.0@ == spec_chunk_path(old(self).chunk_coords),
            kept.1 == old(self).active_chunk,
            *final(self) == (World { active_chunk: chunk, ..*old(self) }),
    {
        let filename = chunk_path(self.chunk_coords);
        let mut chunk = chunk;
        std::mem::swap(&mut self.active_chunk, &mut chunk);
        (filename, chunk)
    }

    /// Makes `chunk` the active chunk. Gives back the chunk that was active
    /// and the name of the file in the project directory `project_dir` in
    /// which it is to be kept.
    pub fn add_chunk_in_dir(&mut self, project_dir: &str, chunk: Chunk) -> (kept: (String, Chunk))
        ensures
            kept.0@ == spec_chunk_path_in_dir(project_dir@, old(self).chunk_coords),
            kept.1 == old(self).active_chunk,
            *final(self) == (World { active_chunk: chunk, ..*old(self) }),
    {
        let filename = chunk_path_in_dir(project_dir, self.chunk_coords);
        let mut chunk = chunk;
        std::mem::swap(&mut self.active_chunk, &mut chunk);
        (filename, chunk)
    }

    /// Moves the world to the chunk at `coords`: to `loaded`, where that
    /// chunk was kept and could be read, and else to a new chunk grown from
    /// the seed. Gives back the chunk that was active and the name of the
    /// file in which it is to be kept.
    pub fn change_to_chunk(&mut self, coords: Coords4D, loaded: Option<Chunk>) -> (result: Result<
        (String, Chunk),
        Error,
    >)
        ensures
            result matches Ok(kept) && kept.0@ == spec_chunk_path(old(self).chunk_coords) && kept.1
                == old(self).active_chunk,
            match loaded {
                Some(chunk) => *final(self) == (World {
                    active_chunk: chunk,
                    chunk_coords: coords,
                    ..*old(self)
                }),
                None => *final(self) == (World {
                    active_chunk: final(self).active_chunk,
                    chunk_coords: coords,
                    ..*old(self)
                }) && final(self).active_chunk@ == Seq::<(u32, Entity)>::empty()
                    && final(self).active_chunk.wf(),
            },
    {
        let filename = chunk_path(self.chunk_coords);
        let mut chunk = match loaded {
            Some(chunk) => chunk,
            None => {
                let mut next_entity_id: u32 = self.next_entity_id;
                let chunk = match Chunk::from_seed(coords, self.seed, &mut next_entity_id) {
                    Ok(chunk) => chunk,
                    Err(e) => {
                        return Err(e);
                    },
                };
                self.next_entity_id = next_entity_id;
                chunk
            },
        };
        std::mem::swap(&mut self.active_chunk, &mut chunk);
        self.chunk_coords = coords;
        Ok((filename, chunk))
    }

    /// What the passing of `ticks` ticks makes of the world. The ticks pass
    /// in the active chunk, one after the other, all under the number of
    /// the tick that the world has come to. Then the world has come `ticks`
    /// ticks further, and its generator starts anew at that tick. The first
    /// tick that fails ends the passing of time: what was done until then
    /// stays done, and the world stays at its tick.
    pub open spec fn spec_time_passed(
        self,
        ticks: u32,
        after: World,
        result: Result<(), Error>,
    ) -> bool {
        let outcome = spec_pass_ticks(
            self.active_chunk@,
            self.rng,
            self.tick,
            self.max_noise,
            ticks as nat,
        );
        &&& after.active_chunk@ == outcome.entries
        &&& spec_ids(after.active_chunk@) == spec_ids(self.active_chunk@)
        &&& after.messages@ == self.messages@
        &&& after == (World {
            active_chunk: after.active_chunk,
            rng: after.rng,
            tick: after.tick,
            messages: after.messages,
            ..self
        })
        &&& match outcome.error {
            Some(e) => result == Err::<(), Error>(e) && after.tick == self.tick && after.rng
                == outcome.rng,
            None => result is Ok && after.tick == self.tick + ticks && after.rng == (TickBasedRng {
                num: None,
                tick: after.tick,
                seed: self.rng.seed,
            }),
        }
    }

    /// Lets `ticks` ticks pass in the active chunk.
    pub fn pass_time(&mut self, ticks: u32) -> (result: Result<(), Error>)
        requires
            old(self).tick + ticks <= u32::MAX,
        ensures
            old(self).spec_time_passed(ticks, *final(self), result),
    {
        let mut passed: u32 = 0;
        while passed < ticks
            invariant
                passed <= ticks,
                self.tick + ticks <= u32::MAX,
                self.messages@ == old(self).messages@,
                self.rng.seed == old(self).rng.seed,
                spec_ids(self.active_chunk@) == spec_ids(old(self).active_chunk@),
                *self == (World {
                    active_chunk: self.active_chunk,
                    rng: self.rng,
                    messages: self.messages,
                    ..*old(self)
                }),
                spec_pass_ticks(
                    old(self).active_chunk@,
                    old(self).rng,
                    old(self).tick,
                    old(self).max_noise,
                    ticks as nat,
                ) == spec_pass_ticks(
                    self.active_chunk@,
                    self.rng,
                    self.tick,
                    self.max_noise,
                    (ticks - passed) as nat,
                ),
            decreases ticks - passed,
        {
            let tick: u32 = self.tick;
            let max_noise: u32 = self.max_noise;
            match self.active_chunk.pass_tick(&mut self.rng, tick, max_noise) {
                Ok(messages) => {
                    let mut messages = messages;
                    self.messages.append(&mut messages);
                },
                Err(e) => {
                    return Err(e);
                },
            }
            passed += 1;
        }
        self.tick += ticks;
        self.rng.reset(self.tick);
        Ok(())
    }

    /// Names the world for saving.
    pub fn set_savename(&mut self, s: &str)
        ensures
            final(self).savename matches Some(name) && name@ == s@,
            *final(self) == (World { savename: final(self).savename, ..*old(self) }),
    {
        self.savename = Some(s.to_owned());
    }

    /// The name under which the world is saved: its own, or `world` where
    /// it has none.
    pub open spec fn spec_save_name(&self) -> Seq<char> {
        match self.savename {
            Some(name) => name@,
            None => "world"@,
        }
    }

    /// The name under which the world is saved.
    pub fn save_name(&self) -> (name: String)
        ensures
            name@ == self.spec_save_name(),
    {
        match &self.savename {
            Some(name) => name.clone(),
            None => "world".to_owned(),
        }
    }

    /// What is kept of the world when it is saved. The generator, the
    /// messages, the log, the flags and the dialogue are not kept.
    pub fn save_world(&self) -> (kept: WorldSave<'_>)
        ensures
            kept.seed == self.seed,
            *kept.savename == self.savename,
            *kept.active_chunk == self.active_chunk,
            kept.chunk_coords == self.chunk_coords,
            kept.tick == self.tick,
            kept.next_entity_id == self.next_entity_id,
    {
        WorldSave {
            seed: self.seed,
            savename: &self.savename,
            active_chunk: &self.active_chunk,
            chunk_coords: self.chunk_coords,
            tick: self.tick,
            next_entity_id: self.next_entity_id,
        }
    }

    /// Whether the flag `condition` is set.
    pub open spec fn spec_has_condition(&self, condition: WorldCondition) -> bool {
        self.conditions@.contains(condition)
    }

    /// Whether the flag `condition` is set.
    pub fn has_condition(&self, condition: WorldCondition) -> (has: bool)
        ensures
            has == self.spec_has_condition(condition),
    {
        let mut k: usize = 0;
        while k < self.conditions.len()
            invariant
                k <= self.conditions.len(),
                forall|j: int| 0 <= j < k ==> self.conditions@[j] != condition,
            decreases self.conditions.len() - k,
        {
            if self.conditions[k] == condition {
                return true;
            }
            k += 1;
        }
        false
    }

    /// Sets the flag `condition`. A flag that is set stays set once.
    pub fn add_condition(&mut self, condition: WorldCondition)
        ensures
            final(self).conditions@ == spec_with_condition(old(self).conditions@, condition),
            final(self).spec_has_condition(condition),
            *final(self) == (World { conditions: final(self).conditions, ..*old(self) }),
            old(self).wf() ==> final(self).wf(),
    {
        if !self.has_condition(condition) {
            self.conditions.push(condition);
            proof {
                assert(self.conditions@[self.conditions@.len() - 1] == condition);
                if old(self).conditions@.no_duplicates() {
                    assert(self.conditions@.no_duplicates());
                }
            }
        }
    }

    /// Clears the flag `condition`. A flag that is not set stays clear.
    pub fn remove_condition(&mut self, condition: WorldCondition)
        ensures
            final(self).conditions@ == spec_without_condition(old(self).conditions@, condition),
            *final(self) == (World { conditions: final(self).conditions, ..*old(self) }),
            old(self).wf() ==> final(self).wf() && !final(self).spec_has_condition(condition),
    {
        let mut k: usize = 0;
        while k < self.conditions.len()
            invariant
                k <= self.conditions.len(),
                *self == *old(self),
                forall|j: int| 0 <= j < k ==> !is_condition(condition)(#[trigger] self.conditions@[j]),
            decreases self.conditions.len() - k,
        {
            if self.conditions[k] == condition {
                proof {
                    lemma_first_index_is(self.conditions@, is_condition(condition), k as int);
                }
                let _ = self.conditions.remove(k);
                proof {
                    let before = old(self).conditions@;
                    let after = self.conditions@;
                    if before.no_duplicates() {
                        assert forall|a: int, b: int|
                            0 <= a < after.len() && 0 <= b < after.len() && a != b implies after[a]
                            != after[b] by {
                            let a0 = if a < k { a } else { a + 1 };
                            let b0 = if b < k { b } else { b + 1 };
                            assert(before[a0] != before[b0]);
                        }
                        assert forall|j: int| 0 <= j < after.len() implies after[j]
                            != condition by {
                            let j0 = if j < k { j } else { j + 1 };
                            assert(before[j0] != before[k as int]);
                        }
                    }
                }
                return ;
            }
            k += 1;
        }
        proof {
            lemma_first_index_none(self.conditions@, is_condition(condition));
        }
    }

    /// What an outcome makes of the world. Without a dialogue going on, and
    /// without the interlocutor in the active chunk where the outcome is
    /// about its inventory, the outcome fails and the world stays as it is.
    pub open spec fn spec_outcome_applied(
        self,
        outcome: DialogueOutcome,
        after: World,
        result: Result<(), Error>,
    ) -> bool {
        match self.dialogue_tree {
            None => after == self && result == Err::<(), Error>(Error::NoActiveDialogue),
            Some(tree) => match outcome {
                DialogueOutcome::AddWorldCondition(condition) => result is Ok && after == (World {
                    conditions: after.conditions,
                    ..self
                }) && after.conditions@ == spec_with_condition(self.conditions@, condition),
                DialogueOutcome::RemoveWorldCondition(condition) => result is Ok && after == (World {
                    conditions: after.conditions,
                    ..self
                }) && after.conditions@ == spec_without_condition(self.conditions@, condition),
                _ => match spec_index_of(self.active_chunk@, tree.interlocutor_id) {
                    None => after == self && result == Err::<(), Error>(
                        Error::EntityNotFound(tree.interlocutor_id),
                    ),
                    Some(i) => {
                        let before = self.active_chunk@[i].1;
                        let changed = after.active_chunk@[i].1;
                        &&& after == (World {
                            active_chunk: after.active_chunk,
                            items: after.items,
                            ..self
                        })
                        &&& after.active_chunk@ == self.active_chunk@.update(
                            i,
                            (tree.interlocutor_id, changed),
                        )
                        &&& after.items.spec_definitions() == self.items.spec_definitions()
                        &&& match outcome {
                            DialogueOutcome::GiveInterlocutorItem(item) => before.spec_give_item(
                                item,
                                self.items.spec_definitions(),
                                self.items.spec_next_id(),
                                changed,
                                result,
                            ) && after.items.spec_next_id() == (if result is Ok
                                && crate::world::item::Item::spec_takes_next_id(
                                item,
                                self.items.spec_definitions(),
                            ) {
                                self.items.spec_next_id() + 1
                            } else {
                                self.items.spec_next_id() as int
                            }),
                            DialogueOutcome::GiveInterlocutorSpecificItem(id) => before
                                .spec_give_specific_item(
                                id,
                                self.items.spec_definitions(),
                                changed,
                                result,
                            ) && after.items.spec_next_id() == self.items.spec_next_id(),
                            DialogueOutcome::TakeInterlocutorSpecificItem(id) => before
                                .spec_take_specific_item(
                                id,
                                changed,
                                result,
                            ) && after.items.spec_next_id() == self.items.spec_next_id(),
                            _ => false,
                        }
                    },
                },
            },
        }
    }

    /// Does to the world what an outcome of the dialogue says.
    pub fn activate_dialogue_outcome(&mut self, outcome: &DialogueOutcome) -> (result: Result<
        (),
        Error,
    >)
        requires
            old(self).wf(),
        ensures
            final(self).wf(),
            old(self).spec_outcome_applied(*outcome, *final(self), result),
    {
        let interlocutor_id: u32 = match &self.dialogue_tree {
            Some(tree) => tree.interlocutor_id,
            None => {
                return Err(Error::NoActiveDialogue);
            },
        };
        match outcome {
            DialogueOutcome::GiveInterlocutorItem(item) => {
                match self.active_chunk.get_entity_mut_from_id(interlocutor_id) {
                    Some(interlocutor) => {
                        let result = interlocutor.give_item(*item, &mut self.items);
                        proof {
                            let i = spec_index_of(old(self).active_chunk@, interlocutor_id)->0;
                            lemma_update_keeps_ids(
                                old(self).active_chunk@,
                                interlocutor_id,
                                self.active_chunk@[i].1,
                            );
                        }
                        result
                    },
                    None => Err(Error::EntityNotFound(interlocutor_id)),
                }
            },
            DialogueOutcome::GiveInterlocutorSpecificItem(id) => {
                match self.active_chunk.get_entity_mut_from_id(interlocutor_id) {
                    Some(interlocutor) => {
                        let result = interlocutor.give_specific_item(*id, &self.items);
                        proof {
                            let i = spec_index_of(old(self).active_chunk@, interlocutor_id)->0;
                            lemma_update_keeps_ids(
                                old(self).active_chunk@,
                                interlocutor_id,
                                self.active_chunk@[i].1,
                            );
                        }
                        result
                    },
                    None => Err(Error::EntityNotFound(interlocutor_id)),
                }
            },
            DialogueOutcome::TakeInterlocutorSpecificItem(id) => {
                match self.active_chunk.get_entity_mut_from_id(interlocutor_id) {
                    Some(interlocutor) => {
                        let result = interlocutor.take_specific_item(*id);
                        proof {
                            let i = spec_index_of(old(self).active_chunk@, interlocutor_id)->0;
                            lemma_update_keeps_ids(
                                old(self).active_chunk@,
                                interlocutor_id,
                                self.active_chunk@[i].1,
                            );
                        }
                        result
                    },
                    None => Err(Error::EntityNotFound(interlocutor_id)),
                }
            },
            DialogueOutcome::AddWorldCondition(condition) => {
                self.add_condition(*condition);
                Ok(())
            },
            DialogueOutcome::RemoveWorldCondition(condition) => {
                self.remove_condition(*condition);
                Ok(())
            },
        }
    }

    /// What outcomes make of the world when they are applied in order: the
    /// first that fails ends it, and what the outcomes before it did stays
    /// done.
    pub open spec fn spec_outcomes_applied(
        self,
        outcomes: Seq<DialogueOutcome>,
        after: World,
        result: Result<(), Error>,
    ) -> bool
        decreases outcomes.len(),
    {
        if outcomes.len() == 0 {
            after == self && result is Ok
        } else {
            exists|next: World, first: Result<(), Error>|
                {
                    &&& #[trigger] self.spec_outcome_applied(outcomes[0], next, first)
                    &&& if first is Err {
                        after == next && result == first
                    } else {
                        next.spec_outcomes_applied(outcomes.drop_first(), after, result)
                    }
                }
        }
    }

    /// Applies the outcomes from the `from`-th on, in order.
    pub fn apply_outcomes(&mut self, outcomes: &Vec<DialogueOutcome>, from: usize) -> (result:
        Result<(), Error>)
        requires
            old(self).wf(),
            from <= outcomes@.len(),
        ensures
            final(self).wf(),
            final(self).dialogue_tree == old(self).dialogue_tree,
            old(self).spec_outcomes_applied(outcomes@.skip(from as int), *final(self), result),
        decreases outcomes@.len() - from,
    {
        if from >= outcomes.len() {
            return Ok(());
        }
        let first = self.activate_dialogue_outcome(&outcomes[from]);
        let ghost next = *self;
        proof {
            assert(outcomes@.skip(from as int)[0] == outcomes@[from as int]);
            assert(outcomes@.skip(from as int).drop_first() =~= outcomes@.skip(from + 1));
        }
        match first {
            Err(e) => {
                assert(old(self).spec_outcome_applied(outcomes@[from as int], next, first));
                Err(e)
            },
            Ok(()) => {
                let result = self.apply_outcomes(outcomes, from + 1);
                proof {
                    assert(old(self).spec_outcome_applied(outcomes@[from as int], next, first));
                    assert(next.spec_outcomes_applied(
                        outcomes@.skip(from as int).drop_first(),
                        *self,
                        result,
                    ));
                }
                result
            },
        }
    }

    /// Begins the dialogue of `speaker_id` with `interlocutor_id`, with the
    /// name and the nodes that were kept of the speaker's tree.
    pub fn begin_dialogue(
        &mut self,
        speaker_id: u32,
        interlocutor_id: u32,
        speaker_name: String,
        nodes: Vec<DialogueNode>,
    ) -> (result: Result<(), Error>)
        ensures
            result is Ok,
            final(self).dialogue_tree matches Some(tree) && DialogueTree::spec_from_entity_name(
                speaker_id,
                interlocutor_id,
                (speaker_name, nodes),
                tree,
            ),
            *final(self) == (World { dialogue_tree: final(self).dialogue_tree, ..*old(self) }),
    {
        match DialogueTree::from_entity_name(speaker_id, interlocutor_id, speaker_name, nodes) {
            Ok(tree) => {
                self.dialogue_tree = Some(tree);
                Ok(())
            },
            Err(e) => Err(e),
        }
    }

    /// Ends the dialogue that is going on, if one is.
    pub fn end_dialogue(&mut self)
        ensures
            *final(self) == (World { dialogue_tree: None, ..*old(self) }),
    {
        self.dialogue_tree = None;
    }

    /// What making the `index`-th open choice of the active node makes of
    /// the world. Where no dialogue is going on, or the choice cannot be
    /// found, the world stays as it is. Else the outcomes of the choice are
    /// applied in order; if one fails, what was done stays done and the
    /// active node stays; if none fails, the node that the choice leads to
    /// becomes the active node.
    pub open spec fn spec_choice_made(
        self,
        index: usize,
        after: World,
        result: Result<(), Error>,
    ) -> bool {
        match self.dialogue_tree {
            None => after == self && result == Err::<(), Error>(Error::NoActiveDialogue),
            Some(tree) => match tree.spec_chosen(index, self) {
                Err(e) => after == self && result == Err::<(), Error>(e),
                Ok(chosen) => exists|done: World, applied: Result<(), Error>|
                    {
                        &&& #[trigger] self.spec_outcomes_applied(chosen.0, done, applied)
                        &&& match applied {
                            Err(e) => after == done && result == Err::<(), Error>(e),
                            Ok(()) => {
                                &&& result is Ok
                                &&& done.dialogue_tree matches Some(at)
                                &&& after.dialogue_tree matches Some(then)
                                &&& after == (World { dialogue_tree: after.dialogue_tree, ..done })
                                &&& then == (DialogueTree {
                                    active_node_name: then.active_node_name,
                                    ..at
                                })
                                &&& then.active_node_name@ == chosen.1
                            },
                        }
                    },
            },
        }
    }

    /// Makes the `index`-th of the choices that are open at the active
    /// node.
    pub fn make_dialogue_choice(&mut self, index: usize) -> (result: Result<(), Error>)
        requires
            old(self).wf(),
        ensures
            final(self).wf(),
            old(self).spec_choice_made(index, *final(self), result),
    {
        let (outcomes, destination) = match &self.dialogue_tree {
            None => {
                return Err(Error::NoActiveDialogue);
            },
            Some(tree) => match tree.get_outcomes_and_destination_from_choice(index, self) {
                Ok(chosen) => chosen,
                Err(e) => {
                    return Err(e);
                },
            },
        };
        let applied = self.apply_outcomes(&outcomes, 0);
        let ghost done = *self;
        proof {
            assert(outcomes@.skip(0) =~= outcomes@);
            assert(old(self).spec_outcomes_applied(outcomes@, done, applied));
        }
        match applied {
            Err(e) => Err(e),
            Ok(()) => {
                match &mut self.dialogue_tree {
                    Some(tree) => {
                        tree.make_choice(destination.as_str());
                        Ok(())
                    },
                    None => Err(Error::NoActiveDialogue),
                }
            },
        }
    }
}

/// Where no entity has agency, ticks pass over the chunk without a trace.
pub proof fn lemma_idle_ticks(
    entries: Seq<(u32, Entity)>,
    rng: TickBasedRng,
    tick: u32,
    max_noise: u32,
    n: nat,
)
    requires
        crate::world::turn::spec_idle(entries),
    ensures
        spec_pass_ticks(entries, rng, tick, max_noise, n) == (TurnOutcome {
            entries,
            rng,
            error: None,
        }),
    decreases n,
{
    if n > 0 {
        crate::world::turn::lemma_idle_tick(entries, rng, tick, max_noise);
        lemma_idle_ticks(entries, rng, tick, max_noise, (n - 1) as nat);
    }
}

/// Time passes over a world in whose chunk no entity has agency without a
/// failure and without a trace: the world comes `ticks` ticks further, its
/// generator starts anew at that tick, and the entities, the messages, the
/// log and all else are as they were.
pub proof fn lemma_idle_world_passes_time(
    world: World,
    ticks: u32,
    after: World,
    result: Result<(), Error>,
)
    requires
        crate::world::turn::spec_idle(world.active_chunk@),
        world.spec_time_passed(ticks, after, result),
    ensures
        result is Ok,
        after.active_chunk@ == world.active_chunk@,
        after.messages@ == world.messages@,
        after.log == world.log,
        after.tick == world.tick + ticks,
        after.rng == (TickBasedRng { num: None, tick: after.tick, seed: world.rng.seed }),
        after == (World {
            active_chunk: after.active_chunk,
            rng: after.rng,
            tick: after.tick,
            messages: after.messages,
            ..world
        }),
{
    lemma_idle_ticks(world.active_chunk@, world.rng, world.tick, world.max_noise, ticks as nat);
}

/// A choice whose one outcome gives the interlocutor an item does so: where
/// the interlocutor stands in the chunk with space left in its inventory
/// and the catalogue can make the item, the choice succeeds, the item comes
/// behind the items that the interlocutor had, no other entity changes, and
/// the dialogue moves to the node that the choice leads to.
pub proof fn lemma_choice_gives_item(
    world: World,
    index: usize,
    item: crate::world::item::ItemType,
    after: World,
    result: Result<(), Error>,
)
    requires
        world.dialogue_tree is Some,
        world.dialogue_tree->0.spec_chosen(index, world) matches Ok(chosen) && chosen.0
            == seq![DialogueOutcome::GiveInterlocutorItem(item)],
        spec_index_of(world.active_chunk@, world.dialogue_tree->0.interlocutor_id) matches Some(i)
            && !world.active_chunk@[i].1.spec_inventory_full(),
        crate::world::item::Item::spec_can_make(
            item,
            world.items.spec_definitions(),
            world.items.spec_next_id(),
        ),
        world.spec_choice_made(index, after, result),
    ensures
        result is Ok,
        ({
            let tree = world.dialogue_tree->0;
            let i = spec_index_of(world.active_chunk@, tree.interlocutor_id)->0;
            let before = world.active_chunk@[i].1;
            let changed = after.active_chunk@[i].1;
            &&& after.active_chunk@ == world.active_chunk@.update(
                i,
                (tree.interlocutor_id, changed),
            )
            &&& changed == (Entity { inventory: changed.inventory, ..before })
            &&& changed.inventory@.len() == before.inventory@.len() + 1
            &&& changed.inventory@.drop_last() == before.inventory@
            &&& changed.inventory@.last().item_type == item
            &&& forall|j: int|
                0 <= j < world.active_chunk@.len() && j != i ==> after.active_chunk@[j]
                    == world.active_chunk@[j]
            &&& after.conditions == world.conditions
            &&& after.messages == world.messages
            &&& after.dialogue_tree matches Some(then) && then.active_node_name@
                == tree.spec_chosen(index, world)->Ok_0.1 && then == (DialogueTree {
                active_node_name: then.active_node_name,
                ..tree
            })
        }),
{
    let tree = world.dialogue_tree->0;
    let chosen = tree.spec_chosen(index, world)->Ok_0;
    let i = spec_index_of(world.active_chunk@, tree.interlocutor_id)->0;
    let outcome = DialogueOutcome::GiveInterlocutorItem(item);
    let (done, applied) = choose|done: World, applied: Result<(), Error>|
        {
            &&& #[trigger] world.spec_outcomes_applied(chosen.0, done, applied)
            &&& match applied {
                Err(e) => after == done && result == Err::<(), Error>(e),
                Ok(()) => {
                    &&& result is Ok
                    &&& done.dialogue_tree matches Some(at)
                    &&& after.dialogue_tree matches Some(then)
                    &&& after == (World { dialogue_tree: after.dialogue_tree, ..done })
                    &&& then == (DialogueTree { active_node_name: then.active_node_name, ..at })
                    &&& then.active_node_name@ == chosen.1
                },
            }
        };
    assert(chosen.0.len() == 1 && chosen.0[0] == outcome);
    let (next, first) = choose|next: World, first: Result<(), Error>|
        {
            &&& #[trigger] world.spec_outcome_applied(chosen.0[0], next, first)
            &&& if first is Err {
                done == next && applied == first
            } else {
                next.spec_outcomes_applied(chosen.0.drop_first(), done, applied)
            }
        };
    assert(chosen.0.drop_first().len() == 0);
    crate::utils::lemma_first_index(
        world.items.spec_definitions(),
        crate::world::item::defines_type(item),
    );
    crate::utils::lemma_first_index(
        world.active_chunk@,
        crate::world::chunk::entry_has_id(tree.interlocutor_id),
    );
    assert(first is Ok);
    assert(done == next);
    assert(applied is Ok);
}

/// A world that is saved and restored holds what was kept of it and nothing
/// else. So a world that held nothing else, as a world does that has just
/// been made, is restored as the world that it was.
pub proof fn lemma_saved_world_is_restored(world: World, kept: WorldSave<'_>, restored: World)
    requires
        kept.seed == world.seed,
        *kept.savename == world.savename,
        *kept.active_chunk == world.active_chunk,
        kept.chunk_coords == world.chunk_coords,
        kept.tick == world.tick,
        kept.next_entity_id == world.next_entity_id,
        restored.seed == kept.seed,
        restored.savename == *kept.savename,
        restored.active_chunk == *kept.active_chunk,
        restored.chunk_coords == kept.chunk_coords,
        restored.tick == kept.tick,
        restored.next_entity_id == kept.next_entity_id,
        restored.spec_holds_only_kept(),
    ensures
        restored.spec_restored_from(world),
        world.spec_holds_only_kept() ==> restored.spec_same(world),
        restored.wf() == world.active_chunk.wf(),
{
    if world.spec_holds_only_kept() {
        assert(restored.log@ =~= world.log@);
    }
}

} // verus!
