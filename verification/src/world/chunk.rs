//! The chunk: a bounded box of cells and the entities that live in it.

use vstd::prelude::*;
use crate::constants::{spec_in_bounds, MAX_X, MAX_Y, MAX_Z, MIN_X, MIN_Y, MIN_Z};
use crate::error::Error;
use crate::types::{Coords3D, Coords4D, Direction3D, FormattedString};
use crate::utils::{first_index, lemma_first_index, lemma_first_index_is, lemma_first_index_none};
use crate::world::entity::Entity;
use crate::world::log::LogStyle;

verus! {

/// The entities of a bounded box of cells, each under its id. The ids are
/// kept in ascending order, so no id occurs twice, and whatever walks the
/// chunk meets the entities in the order of their ids.
#[derive(Debug, PartialEq, Eq)]
pub struct Chunk {
    entities: Vec<(u32, Entity)>,
}

/// Holds of the entries of a chunk with the id `id`.
pub open spec fn entry_has_id(id: u32) -> spec_fn((u32, Entity)) -> bool {
    |entry: (u32, Entity)| entry.0 == id
}

/// Holds of the entries of a chunk whose entity stands at `coords`.
pub open spec fn entry_at(coords: Coords3D) -> spec_fn((u32, Entity)) -> bool {
    |entry: (u32, Entity)| entry.1.coords == coords
}

/// The ids of the entries, in their order.
pub open spec fn spec_ids(entries: Seq<(u32, Entity)>) -> Seq<u32> {
    entries.map_values(|entry: (u32, Entity)| entry.0)
}

/// Whether ids stand in ascending order, each once.
pub open spec fn spec_ascending(ids: Seq<u32>) -> bool {
    forall|i: int, j: int| 0 <= i < j < ids.len() ==> ids[i] < ids[j]
}

/// The place of the entity with the id `id` among the entries.
pub open spec fn spec_index_of(entries: Seq<(u32, Entity)>, id: u32) -> Option<int> {
    first_index(entries, entry_has_id(id))
}

/// The place among the entries of the entity that stands at `coords`; where
/// several stand there, of the first of them.
pub open spec fn spec_occupant(entries: Seq<(u32, Entity)>, coords: Coords3D) -> Option<int> {
    first_index(entries, entry_at(coords))
}

/// Holds of the entries of a chunk whose id is `id` or larger.
pub open spec fn entry_id_at_least(id: u32) -> spec_fn((u32, Entity)) -> bool {
    |entry: (u32, Entity)| entry.0 >= id
}

/// The entries with `entity` under the id `id`: in the place of the entity
/// that had the id, or else where the order of the ids puts it.
pub open spec fn spec_insert(entries: Seq<(u32, Entity)>, id: u32, entity: Entity) -> Seq<
    (u32, Entity),
> {
    match first_index(entries, entry_id_at_least(id)) {
        Some(p) => if entries[p].0 == id {
            entries.update(p, (id, entity))
        } else {
            entries.insert(p, (id, entity))
        },
        None => entries.push((id, entity)),
    }
}

/// The entries of the chunk that is made by putting the first `n` of
/// `entries` into an empty chunk, one after the other.
pub open spec fn spec_gathered(entries: Seq<(u32, Entity)>, n: int) -> Seq<(u32, Entity)>
    decreases n,
{
    if n <= 0 {
        Seq::empty()
    } else {
        spec_insert(spec_gathered(entries, n - 1), entries[n - 1].0, entries[n - 1].1)
    }
}

/// The entries without the entity with the id `id`.
pub open spec fn spec_remove(entries: Seq<(u32, Entity)>, id: u32) -> Seq<(u32, Entity)> {
    match spec_index_of(entries, id) {
        Some(i) => entries.remove(i),
        None => entries,
    }
}

/// The entity with the id `id`.
pub open spec fn spec_entity(entries: Seq<(u32, Entity)>, id: u32) -> Option<Entity> {
    match spec_index_of(entries, id) {
        Some(i) => Some(entries[i].1),
        None => None,
    }
}

/// The entries after the entity with the id `id` has tried one step in
/// `direction`. Nothing moves where no entity has that id or where the step
/// would leave the chunk. Into a free cell the entity moves. With the
/// first entity that stands in the way it changes places where neither of
/// the two is rooted; else nothing moves.
pub open spec fn spec_move(entries: Seq<(u32, Entity)>, id: u32, direction: Direction3D) -> Seq<
    (u32, Entity),
> {
    match spec_index_of(entries, id) {
        None => entries,
        Some(i) => {
            let mover = entries[i].1;
            let target = mover.coords.spec_step(direction);
            if !mover.coords.can_step(direction) || !spec_in_bounds(target) {
                entries
            } else {
                match spec_occupant(entries, target) {
                    None => entries.update(i, (id, Entity { coords: target, ..mover })),
                    Some(j) => {
                        let other = entries[j].1;
                        if !other.spec_is_rooted() && !mover.spec_is_rooted() {
                            entries.update(
                                j,
                                (entries[j].0, Entity { coords: mover.coords, ..other }),
                            ).update(i, (id, Entity { coords: target, ..mover }))
                        } else {
                            entries
                        }
                    },
                }
            }
        },
    }
}

impl View for Chunk {
    type V = Seq<(u32, Entity)>;

    /// The entities with their ids, in the order of the ids.
    closed spec fn view(&self) -> Seq<(u32, Entity)> {
        self.entities@
    }
}

impl Default for Chunk {
    fn default() -> (chunk: Self)
        ensures
            chunk@ == Seq::<(u32, Entity)>::empty(),
            chunk.wf(),
    {
        Chunk::new()
    }
}

impl Chunk {
    /// Whether the ids stand in ascending order.
    pub open spec fn wf(&self) -> bool {
        spec_ascending(spec_ids(self@))
    }

    /// Whether the ids stand in ascending order.
    pub fn is_wf(&self) -> (ok: bool)
        ensures
            ok == self.wf(),
    {
        let mut k: usize = 1;
        while k < self.entities.len()
            invariant
                1 <= k,
                forall|i: int, j: int|
                    0 <= i < j < k && j < self.entities@.len() ==> self.entities@[i].0
                        < self.entities@[j].0,
            decreases self.entities.len() - k,
        {
            if self.entities[k - 1].0 >= self.entities[k].0 {
                assert(spec_ids(self@)[k - 1] >= spec_ids(self@)[k as int]);
                return false;
            }
            k += 1;
        }
        true
    }

    /// A chunk without entities.
    pub fn new() -> (chunk: Self)
        ensures
            chunk@ == Seq::<(u32, Entity)>::empty(),
            chunk.wf(),
    {
        Chunk { entities: Vec::new() }
    }

    /// The chunk of these entities: each is put in under its id, a later
    /// one in the place of an earlier one with the same id.
    pub fn from_entities(entities: Vec<(u32, Entity)>) -> (chunk: Self)
        ensures
            chunk.wf(),
            chunk@ == spec_gathered(entities@, entities@.len() as int),
    {
        let mut chunk = Chunk::new();
        let mut rest = entities;
        let ghost all = rest@;
        let count: usize = rest.len();
        let mut k: usize = 0;
        while rest.len() > 0
            invariant
                chunk.wf(),
                all.len() == count,
                k + rest@.len() == all.len(),
                rest@ == all.skip(k as int),
                chunk@ == spec_gathered(all, k as int),
            decreases rest@.len(),
        {
            let entry = rest.remove(0);
            proof {
                assert(entry == all[k as int]);
                assert(rest@ =~= all.skip(k + 1));
            }
            let _ = chunk.insert_entity(entry.0, entry.1);
            k += 1;
        }
        chunk
    }

    /// The chunk at `coords` of the world with the seed `seed`. A chunk
    /// starts empty and takes no id.
    pub fn from_seed(coords: Coords4D, seed: u32, next_entity_id: &mut u32) -> (result: Result<
        Self,
        Error,
    >)
        ensures
            result matches Ok(chunk) && chunk@ == Seq::<(u32, Entity)>::empty() && chunk.wf(),
            *final(next_entity_id) == *old(next_entity_id),
    {
        Ok(Chunk::new())
    }

    /// The entities with their ids, in the order of the ids.
    pub fn get_entities(&self) -> (entities: &Vec<(u32, Entity)>)
        ensures
            entities@ == self@,
    {
        &self.entities
    }

    /// How many entities the chunk holds.
    pub fn len(&self) -> (len: usize)
        ensures
            len == self@.len(),
    {
        self.entities.len()
    }

    /// The place of the entity with the id `id`.
    pub fn index_of(&self, id: u32) -> (index: Option<usize>)
        ensures
            index matches Some(k) ==> spec_index_of(self@, id) == Some(k as int) && k
                < self@.len() && self@[k as int].0 == id,
            index is None ==> spec_index_of(self@, id) is None,
    {
        let mut k: usize = 0;
        while k < self.entities.len()
            invariant
                k <= self.entities.len(),
                forall|j: int| 0 <= j < k ==> !entry_has_id(id)(#[trigger] self.entities@[j]),
            decreases self.entities.len() - k,
        {
            if self.entities[k].0 == id {
                proof {
                    lemma_first_index_is(self.entities@, entry_has_id(id), k as int);
                }
                return Some(k);
            }
            k += 1;
        }
        proof {
            lemma_first_index_none(self.entities@, entry_has_id(id));
        }
        None
    }

    /// The place of the first entity that stands at `coords`.
    pub fn occupant(&self, coords: &Coords3D) -> (index: Option<usize>)
        ensures
            index matches Some(k) ==> spec_occupant(self@, *coords) == Some(k as int) && k
                < self@.len() && self@[k as int].1.coords == *coords,
            index is None ==> spec_occupant(self@, *coords) is None,
    {
        let mut k: usize = 0;
        while k < self.entities.len()
            invariant
                k <= self.entities.len(),
                forall|j: int| 0 <= j < k ==> !entry_at(*coords)(#[trigger] self.entities@[j]),
            decreases self.entities.len() - k,
        {
            if self.entities[k].1.coords == *coords {
                proof {
                    lemma_first_index_is(self.entities@, entry_at(*coords), k as int);
                }
                return Some(k);
            }
            k += 1;
        }
        proof {
            lemma_first_index_none(self.entities@, entry_at(*coords));
        }
        None
    }

    /// The entity with the id `id`.
    pub fn get_entity_from_id(&self, id: u32) -> (entity: Option<&Entity>)
        ensures
            match spec_entity(self@, id) {
                Some(e) => entity == Some(&e),
                None => entity is None,
            },
    {
        match self.index_of(id) {
            Some(k) => Some(&self.entities[k].1),
            None => None,
        }
    }

    /// The entity with the id `id`, to be changed in place. Its id stays,
    /// and so does every other entity.
    pub fn get_entity_mut_from_id(&mut self, id: u32) -> (entity: Option<&mut Entity>)
        ensures
            match spec_index_of(old(self)@, id) {
                Some(i) => entity matches Some(e) && *e == old(self)@[i].1
                    && final(self)@ == old(self)@.update(i, (id, *final(e))),
                None => entity is None && *final(self) == *old(self),
            },
    {
        match self.index_of(id) {
            Some(k) => Some(&mut self.entities[k].1),
            None => None,
        }
    }

    /// The first entity that stands at `coords`.
    pub fn get_entity_from_coords(&self, coords: &Coords3D) -> (entity: Option<&Entity>)
        ensures
            match spec_occupant(self@, *coords) {
                Some(i) => entity == Some(&self@[i].1),
                None => entity is None,
            },
    {
        match self.occupant(coords) {
            Some(k) => Some(&self.entities[k].1),
            None => None,
        }
    }

    /// The first entity that stands at `coords`, to be changed in place.
    pub fn get_entity_mut_from_coords(&mut self, coords: &Coords3D) -> (entity: Option<
        &mut Entity,
    >)
        ensures
            match spec_occupant(old(self)@, *coords) {
                Some(i) => entity matches Some(e) && *e == old(self)@[i].1
                    && final(self)@ == old(self)@.update(i, (old(self)@[i].0, *final(e))),
                None => entity is None && *final(self) == *old(self),
            },
    {
        match self.occupant(coords) {
            Some(k) => Some(&mut self.entities[k].1),
            None => None,
        }
    }

    /// The cell in which the entity with the id `id` stands.
    pub fn get_entity_coords(&self, id: u32) -> (coords: Option<&Coords3D>)
        ensures
            match spec_entity(self@, id) {
                Some(e) => coords == Some(&e.coords),
                None => coords is None,
            },
    {
        match self.index_of(id) {
            Some(k) => Some(&self.entities[k].1.coords),
            None => None,
        }
    }

    /// The description of the entity with the id `id`.
    pub fn inspect_entity(&self, id: u32) -> (result: Result<FormattedString<LogStyle>, Error>)
        ensures
            match spec_entity(self@, id) {
                Some(e) => result matches Ok(description) && description@ == e.description@,
                None => result == Err::<FormattedString<LogStyle>, Error>(
                    Error::EntityNotFound(id),
                ),
            },
    {
        match self.index_of(id) {
            Some(k) => Ok(self.entities[k].1.description.clone()),
            None => Err(Error::EntityNotFound(id)),
        }
    }

    /// Whether `coords` lies outside the chunk.
    pub fn is_oob(&self, coords: &Coords3D) -> (oob: bool)
        ensures
            oob == !spec_in_bounds(*coords),
    {
        if (coords.0 > MAX_X) || (coords.0 < MIN_X) {
            return true;
        }
        if (coords.1 > MAX_Y) || (coords.1 < MIN_Y) {
            return true;
        }
        if (coords.2 > MAX_Z) || (coords.2 < MIN_Z) {
            return true;
        }
        false
    }

    /// Puts `entity` into the chunk under the id `id`, and gives back the
    /// entity that had the id before, if there was one.
    pub fn insert_entity(&mut self, id: u32, entity: Entity) -> (previous: Option<Entity>)
        requires
            old(self).wf(),
        ensures
            final(self).wf(),
            final(self)@ == spec_insert(old(self)@, id, entity),
            previous == spec_entity(old(self)@, id),
            spec_entity(final(self)@, id) == Some(entity),
    {
        let mut k: usize = 0;
        while k < self.entities.len() && self.entities[k].0 < id
            invariant
                k <= self.entities.len(),
                forall|j: int| 0 <= j < k ==> (#[trigger] self.entities@[j]).0 < id,
            decreases self.entities.len() - k,
        {
            k += 1;
        }
        proof {
            lemma_first_index(self@, entry_has_id(id));
            if k < self.entities.len() {
                lemma_first_index_is(self@, entry_id_at_least(id), k as int);
            } else {
                lemma_first_index_none(self@, entry_id_at_least(id));
            }
            assert forall|a: int, b: int| 0 <= a < b < self@.len() implies self@[a].0
                < self@[b].0 by {
                assert(spec_ids(self@)[a] < spec_ids(self@)[b]);
            }
        }
        if k < self.entities.len() && self.entities[k].0 == id {
            let (_, previous) = self.entities.remove(k);
            self.entities.insert(k, (id, entity));
            proof {
                assert(self@ =~= old(self)@.update(k as int, (id, entity)));
                lemma_first_index_is(old(self)@, entry_has_id(id), k as int);
                lemma_first_index_is(self@, entry_has_id(id), k as int);
                assert(spec_ids(self@) =~= spec_ids(old(self)@));
            }
            Some(previous)
        } else {
            self.entities.insert(k, (id, entity));
            proof {
                if k < old(self)@.len() {
                    assert(self@ =~= old(self)@.insert(k as int, (id, entity)));
                } else {
                    assert(self@ =~= old(self)@.push((id, entity)));
                }
                lemma_first_index_is(self@, entry_has_id(id), k as int);
                assert forall|a: int, b: int| 0 <= a < b < self@.len() implies spec_ids(self@)[a]
                    < spec_ids(self@)[b] by {
                    if a < k && b > k {
                        assert(self@[b] == old(self)@[b - 1]);
                    } else if a > k {
                        assert(self@[a] == old(self)@[a - 1]);
                        assert(self@[b] == old(self)@[b - 1]);
                    }
                }
                assert(spec_index_of(old(self)@, id) is None) by {
                    assert forall|j: int| 0 <= j < old(self)@.len() implies !entry_has_id(id)(
                        #[trigger] old(self)@[j],
                    ) by {
                        if j > k {
                            assert(old(self)@[k as int].0 < old(self)@[j].0);
                        }
                    }
                    lemma_first_index_none(old(self)@, entry_has_id(id));
                }
            }
            None
        }
    }

    /// Takes the entity with the id `id` out of the chunk.
    pub fn remove_entity(&mut self, id: u32) -> (removed: Option<Entity>)
        ensures
            final(self)@ == spec_remove(old(self)@, id),
            removed == spec_entity(old(self)@, id),
            old(self).wf() ==> final(self).wf() && spec_entity(final(self)@, id) is None,
    {
        match self.index_of(id) {
            Some(k) => {
                let (_, removed) = self.entities.remove(k);
                proof {
                    if old(self).wf() {
                        assert forall|a: int, b: int| 0 <= a < b < self@.len() implies spec_ids(
                            self@,
                        )[a] < spec_ids(self@)[b] by {
                            let a0 = if a < k { a } else { a + 1 };
                            let b0 = if b < k { b } else { b + 1 };
                            assert(spec_ids(old(self)@)[a0] < spec_ids(old(self)@)[b0]);
                        }
                        assert forall|j: int| 0 <= j < self@.len() implies !entry_has_id(id)(
                            #[trigger] self@[j],
                        ) by {
                            let j0 = if j < k { j } else { j + 1 };
                            if j0 < k {
                                assert(spec_ids(old(self)@)[j0] < spec_ids(old(self)@)[k as int]);
                            } else {
                                assert(spec_ids(old(self)@)[k as int] < spec_ids(old(self)@)[j0]);
                            }
                        }
                        lemma_first_index_none(self@, entry_has_id(id));
                    }
                }
                Some(removed)
            },
            None => None,
        }
    }

    /// Puts `entity` at `coords`: in the place of the first entity that
    /// stands there, under that entity's id, or else as a new entity under
    /// the id `next_id`. Gives back the id that the next new entity is to
    /// get.
    pub fn overwrite_entity(&mut self, entity: Entity, coords: &Coords3D, next_id: u32) -> (id: u32)
        requires
            old(self).wf(),
        ensures
            final(self).wf(),
            match spec_occupant(old(self)@, *coords) {
                Some(i) => id == next_id && final(self)@ == old(self)@.update(
                    i,
                    (old(self)@[i].0, Entity { coords: *coords, ..entity }),
                ),
                None => id == (if next_id < u32::MAX {
                    (next_id + 1) as u32
                } else {
                    next_id
                }) && final(self)@ == spec_insert(
                    old(self)@,
                    next_id,
                    Entity { coords: *coords, ..entity },
                ),
            },
    {
        let mut entity = entity;
        entity.coords = *coords;
        match self.occupant(coords) {
            Some(k) => {
                let id: u32 = self.entities[k].0;
                let _ = self.entities.remove(k);
                self.entities.insert(k, (id, entity));
                proof {
                    assert(self@ =~= old(self)@.update(k as int, (id, entity)));
                    assert(spec_ids(self@) =~= spec_ids(old(self)@));
                }
                next_id
            },
            None => {
                let _ = self.insert_entity(next_id, entity);
                if next_id < u32::MAX {
                    next_id + 1
                } else {
                    next_id
                }
            },
        }
    }

    /// Gives the entity with the id `id` the focus `focus`. Where no entity
    /// has the id, nothing changes.
    pub fn set_focus(&mut self, id: u32, focus: Option<crate::world::entity::Focus>)
        ensures
            match spec_index_of(old(self)@, id) {
                Some(i) => final(self)@ == old(self)@.update(
                    i,
                    (id, Entity { focus, ..old(self)@[i].1 }),
                ),
                None => final(self)@ == old(self)@,
            },
            spec_ids(final(self)@) == spec_ids(old(self)@),
    {
        match self.index_of(id) {
            Some(k) => {
                self.entities[k].1.focus = focus;
                assert(self@ =~= old(self)@.update(
                    k as int,
                    (id, Entity { focus, ..old(self)@[k as int].1 }),
                ));
                assert(spec_ids(self@) =~= spec_ids(old(self)@));
            },
            None => {},
        }
    }

    /// Lets the entity with the id `id` try one step in `direction`.
    pub fn move_entity(&mut self, id: u32, direction: &Direction3D) -> (result: Result<(), Error>)
        ensures
            final(self)@ == spec_move(old(self)@, id, *direction),
            spec_ids(final(self)@) == spec_ids(old(self)@),
            match spec_index_of(old(self)@, id) {
                Some(_) => result is Ok,
                None => result == Err::<(), Error>(Error::EntityNotFound(id)),
            },
    {
        let i: usize = match self.index_of(id) {
            Some(i) => i,
            None => {
                return Err(Error::EntityNotFound(id));
            },
        };
        let from: Coords3D = self.entities[i].1.coords;
        let target: Coords3D = match from.step(direction) {
            Some(target) => target,
            None => {
                return Ok(());
            },
        };
        if self.is_oob(&target) {
            return Ok(());
        }
        match self.occupant(&target) {
            None => {
                self.entities[i].1.coords = target;
                assert(self@ =~= spec_move(old(self)@, id, *direction));
                assert(spec_ids(self@) =~= spec_ids(old(self)@));
            },
            Some(j) => {
                if !self.entities[j].1.is_rooted() && !self.entities[i].1.is_rooted() {
                    self.entities[j].1.coords = from;
                    self.entities[i].1.coords = target;
                    assert(self@ =~= spec_move(old(self)@, id, *direction));
                    assert(spec_ids(self@) =~= spec_ids(old(self)@));
                }
            },
        }
        Ok(())
    }
}

/// Changing an entity in its place changes no id.
pub proof fn lemma_update_keeps_ids(entries: Seq<(u32, Entity)>, id: u32, entity: Entity)
    ensures
        match spec_index_of(entries, id) {
            Some(i) => 0 <= i < entries.len() && entries[i].0 == id && spec_ids(
                entries.update(i, (id, entity)),
            ) == spec_ids(entries),
            None => true,
        },
{
    lemma_first_index(entries, entry_has_id(id));
    match spec_index_of(entries, id) {
        Some(i) => {
            assert(spec_ids(entries.update(i, (id, entity))) =~= spec_ids(entries));
        },
        None => {},
    }
}

/// In a chunk whose ids are in order, an entity is found under its id, and
/// under no other id.
pub proof fn lemma_entity_at_index(entries: Seq<(u32, Entity)>, i: int)
    requires
        spec_ascending(spec_ids(entries)),
        0 <= i < entries.len(),
    ensures
        spec_index_of(entries, entries[i].0) == Some(i),
        spec_entity(entries, entries[i].0) == Some(entries[i].1),
{
    assert forall|j: int| 0 <= j < i implies !entry_has_id(entries[i].0)(#[trigger] entries[j]) by {
        assert(spec_ids(entries)[j] < spec_ids(entries)[i]);
    }
    lemma_first_index_is(entries, entry_has_id(entries[i].0), i);
}

/// A chunk that is made again of its entities is the chunk that it was:
/// entities whose ids ascend are gathered as they stand.
pub proof fn lemma_chunk_is_rebuilt(entries: Seq<(u32, Entity)>, n: int)
    requires
        spec_ascending(spec_ids(entries)),
        0 <= n <= entries.len(),
    ensures
        spec_gathered(entries, n) == entries.take(n),
        n == entries.len() ==> spec_gathered(entries, n) == entries,
    decreases n,
{
    if n > 0 {
        lemma_chunk_is_rebuilt(entries, n - 1);
        let before = entries.take(n - 1);
        let id = entries[n - 1].0;
        assert forall|j: int| 0 <= j < before.len() implies !entry_id_at_least(id)(
            #[trigger] before[j],
        ) by {
            assert(spec_ids(entries)[j] < spec_ids(entries)[n - 1]);
        }
        lemma_first_index_none(before, entry_id_at_least(id));
        assert(before.push(entries[n - 1]) =~= entries.take(n));
    } else {
        assert(entries.take(0) =~= Seq::<(u32, Entity)>::empty());
    }
    if n == entries.len() {
        assert(entries.take(n) =~= entries);
    }
}

/// Putting an entity into a chunk leaves every entity under another id as
/// it was.
pub proof fn lemma_insert_keeps_others(
    entries: Seq<(u32, Entity)>,
    id: u32,
    entity: Entity,
    other: u32,
)
    requires
        spec_ascending(spec_ids(entries)),
        other != id,
    ensures
        spec_entity(spec_insert(entries, id, entity), other) == spec_entity(entries, other),
{
    let after = spec_insert(entries, id, entity);
    lemma_first_index(entries, entry_id_at_least(id));
    lemma_first_index(entries, entry_has_id(other));
    lemma_first_index(after, entry_has_id(other));
    match first_index(entries, entry_id_at_least(id)) {
        Some(p) => {
            if entries[p].0 == id {
                match spec_index_of(entries, other) {
                    Some(i) => {
                        assert(after[i] == entries[i]);
                        lemma_first_index_is(after, entry_has_id(other), i);
                    },
                    None => {
                        lemma_first_index_none(after, entry_has_id(other));
                    },
                }
            } else {
                match spec_index_of(entries, other) {
                    Some(i) => {
                        let i2 = if i < p {
                            i
                        } else {
                            i + 1
                        };
                        assert(after[i2] == entries[i]);
                        assert forall|j: int| 0 <= j < i2 implies !entry_has_id(other)(
                            #[trigger] after[j],
                        ) by {
                            if j < p {
                                assert(after[j] == entries[j]);
                            } else if j > p {
                                assert(after[j] == entries[j - 1]);
                            }
                        }
                        lemma_first_index_is(after, entry_has_id(other), i2);
                    },
                    None => {
                        assert forall|j: int| 0 <= j < after.len() implies !entry_has_id(other)(
                            #[trigger] after[j],
                        ) by {
                            if j < p {
                                assert(after[j] == entries[j]);
                            } else if j > p {
                                assert(after[j] == entries[j - 1]);
                            }
                        }
                        lemma_first_index_none(after, entry_has_id(other));
                    },
                }
            }
        },
        None => {
            match spec_index_of(entries, other) {
                Some(i) => {
                    assert(after[i] == entries[i]);
                    lemma_first_index_is(after, entry_has_id(other), i);
                },
                None => {
                    lemma_first_index_none(after, entry_has_id(other));
                },
            }
        },
    }
}

/// A move changes neither which entities there are nor their order, and it
/// changes of an entity nothing but the cell in which it stands.
pub proof fn lemma_move_keeps_entities(entries: Seq<(u32, Entity)>, id: u32, direction: Direction3D)
    ensures
        spec_move(entries, id, direction).len() == entries.len(),
        forall|k: int|
            0 <= k < entries.len() ==> (#[trigger] spec_move(entries, id, direction)[k]).0
                == entries[k].0 && spec_move(entries, id, direction)[k].1 == (Entity {
                coords: spec_move(entries, id, direction)[k].1.coords,
                ..entries[k].1
            }),
        spec_ids(spec_move(entries, id, direction)) == spec_ids(entries),
{
    lemma_first_index(entries, entry_has_id(id));
    match spec_index_of(entries, id) {
        None => {},
        Some(i) => {
            let target = entries[i].1.coords.spec_step(direction);
            lemma_first_index(entries, entry_at(target));
        },
    }
    assert(spec_ids(spec_move(entries, id, direction)) =~= spec_ids(entries));
}

/// Movement never leaves the chunk: where every entity stands within the
/// bounds before a move, every entity stands within them after it.
pub proof fn lemma_move_stays_in_bounds(
    entries: Seq<(u32, Entity)>,
    id: u32,
    direction: Direction3D,
)
    requires
        forall|k: int| 0 <= k < entries.len() ==> spec_in_bounds((#[trigger] entries[k]).1.coords),
    ensures
        forall|k: int|
            0 <= k < entries.len() ==> spec_in_bounds(
                (#[trigger] spec_move(entries, id, direction)[k]).1.coords,
            ),
{
    lemma_first_index(entries, entry_has_id(id));
    match spec_index_of(entries, id) {
        None => {},
        Some(i) => {
            let target = entries[i].1.coords.spec_step(direction);
            lemma_first_index(entries, entry_at(target));
        },
    }
}

/// An entity that stands within the bounds stays within them whatever it
/// tries, and whoever else moves.
pub proof fn lemma_move_keeps_entity_in_bounds(
    entries: Seq<(u32, Entity)>,
    id: u32,
    direction: Direction3D,
    k: int,
)
    requires
        0 <= k < entries.len(),
        spec_in_bounds(entries[k].1.coords),
        spec_index_of(entries, id) matches Some(i) && spec_in_bounds(entries[i].1.coords),
    ensures
        spec_in_bounds(spec_move(entries, id, direction)[k].1.coords),
{
    lemma_first_index(entries, entry_has_id(id));
    let i = spec_index_of(entries, id)->0;
    let target = entries[i].1.coords.spec_step(direction);
    lemma_first_index(entries, entry_at(target));
}

/// A swap is whole: where the mover steps towards a cell in which another
/// entity stands, either both change places or neither moves, and they
/// change places exactly where neither is rooted. No third entity moves.
pub proof fn lemma_move_swaps(
    entries: Seq<(u32, Entity)>,
    id: u32,
    direction: Direction3D,
    i: int,
    j: int,
)
    requires
        spec_index_of(entries, id) == Some(i),
        entries[i].1.coords.can_step(direction),
        spec_in_bounds(entries[i].1.coords.spec_step(direction)),
        spec_occupant(entries, entries[i].1.coords.spec_step(direction)) == Some(j),
    ensures
        i != j,
        ({
            let after = spec_move(entries, id, direction);
            let a = entries[i].1.coords;
            let b = entries[j].1.coords;
            &&& b == a.spec_step(direction)
            &&& !entries[i].1.spec_is_rooted() && !entries[j].1.spec_is_rooted()
                ==> after[i].1.coords == b && after[j].1.coords == a
            &&& entries[i].1.spec_is_rooted() || entries[j].1.spec_is_rooted() ==> after
                == entries
            &&& forall|k: int|
                0 <= k < entries.len() && k != i && k != j ==> #[trigger] after[k] == entries[k]
        }),
{
    lemma_first_index(entries, entry_has_id(id));
    lemma_first_index(entries, entry_at(entries[i].1.coords.spec_step(direction)));
}

} // verus!
