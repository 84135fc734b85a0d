//! The editor of one entity.

use vstd::prelude::*;
use crate::error::Error;
use crate::text::{FormattedStringView, FormattedTextView};
use crate::types::{Coords3D, Direction1D, FormattedString, FormattedText};
use crate::ui::traits::{is_named, ChoiceAttribute, StringLookup};
use crate::utils::first_index;
use crate::world::allegiance::Allegiance;
use crate::world::chunk::{spec_occupant, Chunk};
use crate::world::entity::{
    Entity, EntityAttribute, EntityAttributeChoice, EntityAttributeText, EntityType, Opacity, Size,
};
use crate::world::log::LogStyle;

verus! {

#[derive(Debug, PartialEq, Eq, Structural, Clone, Copy)]
pub enum EntityViewState {
    Main,
    FormattedStringInput,
}

/// A session of editing an entity: the entity, while one is edited, the
/// place of the cursor among its attributes, and the text attribute that is
/// being written, if one is.
#[derive(Debug, PartialEq, Eq)]
pub struct EntityView {
    pub entity: Option<Entity>,
    pub state: EntityViewState,
    pub cursor_pos: usize,
    pub text_attr: EntityAttributeText,
}

impl Default for EntityViewState {
    fn default() -> (state: Self)
        ensures
            state == EntityViewState::Main,
    {
        EntityViewState::Main
    }
}

/// The place in the order of the attributes of the `index`-th attribute
/// that `entity` has, looking at the places from `from` on, where `seen`
/// attributes that it has lie before `from`.
pub open spec fn spec_attribute_place(entity: Entity, index: int, from: int, seen: int) -> Option<
    int,
>
    decreases 8 - from,
{
    if from < 0 || from >= 8 {
        None
    } else if entity.spec_has_attribute(EntityAttribute::spec_attribute_order()[from]) {
        if seen == index {
            Some(from)
        } else {
            spec_attribute_place(entity, index, from + 1, seen + 1)
        }
    } else {
        spec_attribute_place(entity, index, from + 1, seen)
    }
}

/// The value that the choice named `s` gives to the attribute `attr` of
/// `entity`, if the name is one of the attribute's choices.
pub open spec fn spec_with_choice(entity: Entity, attr: EntityAttributeChoice, s: Seq<char>) -> Option<
    Entity,
> {
    match attr {
        EntityAttributeChoice::Type => match first_index(
            EntityType::spec_dictionary(),
            is_named(s),
        ) {
            Some(i) => Some(Entity { entity_type: EntityType::spec_dictionary()[i].0, ..entity }),
            None => None,
        },
        EntityAttributeChoice::IsRooted => match first_index(bool::spec_dictionary(), is_named(s)) {
            Some(i) => Some(Entity { is_rooted: Some(bool::spec_dictionary()[i].0), ..entity }),
            None => None,
        },
        EntityAttributeChoice::HasAgency => match first_index(bool::spec_dictionary(), is_named(s)) {
            Some(i) => Some(Entity { has_agency: Some(bool::spec_dictionary()[i].0), ..entity }),
            None => None,
        },
        EntityAttributeChoice::Allegiance => None,
        EntityAttributeChoice::Opacity => match first_index(
            Opacity::spec_dictionary(),
            is_named(s),
        ) {
            Some(i) => Some(Entity { opacity: Some(Opacity::spec_dictionary()[i].0), ..entity }),
            None => None,
        },
        EntityAttributeChoice::Size => match first_index(Size::spec_dictionary(), is_named(s)) {
            Some(i) => Some(Entity { size: Some(Size::spec_dictionary()[i].0), ..entity }),
            None => None,
        },
    }
}

impl EntityView {
    /// A view that edits nothing.
    pub fn new() -> (view: Self)
        ensures
            view.entity is None,
            view.state == EntityViewState::Main,
            view.cursor_pos == 0,
            view.text_attr == EntityAttributeText::Name,
    {
        EntityView {
            entity: None,
            state: EntityViewState::Main,
            cursor_pos: 0,
            text_attr: EntityAttributeText::Name,
        }
    }

    /// Ends the session and hands the entity out. Without an entity there
    /// is nothing to hand out.
    pub fn finish(&mut self) -> (result: Result<Entity, Error>)
        ensures
            *final(self) == (EntityView { entity: None, ..*old(self) }),
            match old(self).entity {
                Some(entity) => result == Ok::<Entity, Error>(entity),
                None => result == Err::<Entity, Error>(Error::EmptySession),
            },
    {
        match self.entity.take() {
            Some(entity) => Ok(entity),
            None => Err(Error::EmptySession),
        }
    }

    /// Begins to edit what stands at `coords`: a copy of the first entity
    /// that stands there, or a new entity where none does.
    pub fn start_editor(&mut self, coords: Coords3D, chunk: &Chunk)
        ensures
            final(self).cursor_pos == 0,
            final(self).state == old(self).state,
            final(self).text_attr == old(self).text_attr,
            final(self).entity matches Some(entity) && match spec_occupant(chunk@, coords) {
                Some(i) => entity.spec_same(chunk@[i].1),
                None => entity.spec_is_blank() && entity.coords == coords,
            },
    {
        self.cursor_pos = 0;
        let entity = match chunk.get_entity_from_coords(&coords) {
            Some(entity) => entity.clone(),
            None => Entity::new(&coords),
        };
        self.entity = Some(entity);
    }

    /// Begins to write the text attribute `attr`.
    pub fn start_attr_text_editor(&mut self, attr: EntityAttributeText)
        ensures
            *final(self) == (EntityView {
                text_attr: attr,
                state: EntityViewState::FormattedStringInput,
                ..*old(self)
            }),
    {
        self.text_attr = attr;
        self.state = EntityViewState::FormattedStringInput;
    }

    /// Gives the text attribute `attr` the plain text `value`.
    pub fn set_text_attribute(&mut self, attr: EntityAttributeText, value: &str) -> (result: Result<
        (),
        Error,
    >)
        ensures
            final(self).state == old(self).state,
            final(self).cursor_pos == old(self).cursor_pos,
            final(self).text_attr == old(self).text_attr,
            match old(self).entity {
                None => result == Err::<(), Error>(Error::EmptySession) && final(self).entity
                    is None,
                Some(before) => final(self).entity matches Some(after) && result is Ok && {
                    let text = FormattedStringView {
                        texts: seq![FormattedTextView { s: value@, style: LogStyle::Default }],
                        origin: None,
                    };
                    match attr {
                        EntityAttributeText::Name => after == (Entity { name: after.name, ..before })
                            && after.name@ == text,
                        EntityAttributeText::Description => after == (Entity {
                            description: after.description,
                            ..before
                        }) && after.description@ == text,
                    }
                },
            },
    {
        match &mut self.entity {
            None => Err(Error::EmptySession),
            Some(entity) => {
                match attr {
                    EntityAttributeText::Name => {
                        entity.name = FormattedString::raw(&None, value);
                    },
                    EntityAttributeText::Description => {
                        entity.description = FormattedString::raw(&None, value);
                    },
                }
                Ok(())
            },
        }
    }

    /// Gives the attribute `attr` the value that the choice named `s`
    /// stands for.
    pub fn set_choice_attr(&mut self, attr: EntityAttributeChoice, s: &str) -> (result: Result<
        (),
        Error,
    >)
        ensures
            final(self).state == old(self).state,
            final(self).cursor_pos == old(self).cursor_pos,
            final(self).text_attr == old(self).text_attr,
            match old(self).entity {
                None => result == Err::<(), Error>(Error::EmptySession) && final(self).entity
                    is None,
                Some(before) => match spec_with_choice(before, attr, s@) {
                    Some(after) => result is Ok && final(self).entity == Some(after),
                    None => result == Err::<(), Error>(Error::UnknownChoice) && final(self).entity
                        == Some(before),
                },
            },
    {
        match &mut self.entity {
            None => Err(Error::EmptySession),
            Some(entity) => {
                match attr {
                    EntityAttributeChoice::Type => match EntityType::from_str(s) {
                        Ok(value) => {
                            entity.entity_type = value;
                            Ok(())
                        },
                        Err(e) => Err(e),
                    },
                    EntityAttributeChoice::IsRooted => match bool::from_str(s) {
                        Ok(value) => {
                            entity.is_rooted = Some(value);
                            Ok(())
                        },
                        Err(e) => Err(e),
                    },
                    EntityAttributeChoice::HasAgency => match bool::from_str(s) {
                        Ok(value) => {
                            entity.has_agency = Some(value);
                            Ok(())
                        },
                        Err(e) => Err(e),
                    },
                    EntityAttributeChoice::Allegiance => match Allegiance::from_str(s) {
                        Ok(_) => Err(Error::UnknownChoice),
                        Err(e) => Err(e),
                    },
                    EntityAttributeChoice::Opacity => match Opacity::from_str(s) {
                        Ok(value) => {
                            entity.opacity = Some(value);
                            Ok(())
                        },
                        Err(e) => Err(e),
                    },
                    EntityAttributeChoice::Size => match Size::from_str(s) {
                        Ok(value) => {
                            entity.size = Some(value);
                            Ok(())
                        },
                        Err(e) => Err(e),
                    },
                }
            },
        }
    }

    /// The `index`-th of the attributes that `entity` has, with its value.
    pub fn index_to_attribute_lookup(index: usize, entity: &Entity) -> (result: Result<
        (EntityAttribute, FormattedString<LogStyle>),
        Error,
    >)
        ensures
            match spec_attribute_place(*entity, index as int, 0, 0) {
                Some(place) => result matches Ok(found) && 0 <= place < 8 && found.0
                    == EntityAttribute::spec_attribute_order()[place] && found.1@
                    == entity.spec_attribute_value(found.0),
                None => result == Err::<(EntityAttribute, FormattedString<LogStyle>), Error>(
                    Error::AttributeOutOfRange(index),
                ),
            },
    {
        let order = EntityAttribute::attribute_order();
        let mut attr_count: usize = 0;
        let mut k: usize = 0;
        while k < 8
            invariant
                k <= 8,
                attr_count <= k,
                attr_count <= index,
                order@ == EntityAttribute::spec_attribute_order(),
                spec_attribute_place(*entity, index as int, 0, 0) == spec_attribute_place(
                    *entity,
                    index as int,
                    k as int,
                    attr_count as int,
                ),
            decreases 8 - k,
        {
            if entity.has_attribute(&order[k]) {
                if index == attr_count {
                    let value = entity.get_attribute_value(&order[k]);
                    return Ok((order[k], value));
                }
                attr_count += 1;
            }
            k += 1;
        }
        Err(Error::AttributeOutOfRange(index))
    }

    /// The attribute under the cursor.
    pub fn get_current_attribute(&self) -> (result: Result<EntityAttribute, Error>)
        ensures
            match self.entity {
                None => result == Err::<EntityAttribute, Error>(Error::EmptySession),
                Some(entity) => match spec_attribute_place(entity, self.cursor_pos as int, 0, 0) {
                    Some(place) => result == Ok::<EntityAttribute, Error>(
                        EntityAttribute::spec_attribute_order()[place],
                    ),
                    None => result == Err::<EntityAttribute, Error>(
                        Error::AttributeOutOfRange(self.cursor_pos),
                    ),
                },
            },
    {
        match &self.entity {
            None => Err(Error::EmptySession),
            Some(entity) => match Self::index_to_attribute_lookup(self.cursor_pos, entity) {
                Ok(found) => Ok(found.0),
                Err(e) => Err(e),
            },
        }
    }

    /// Gives the entity an attribute that it lacks.
    pub fn add_attribute(&mut self, attr: &EntityAttribute) -> (result: Result<(), Error>)
        ensures
            final(self).state == old(self).state,
            final(self).cursor_pos == old(self).cursor_pos,
            final(self).text_attr == old(self).text_attr,
            match old(self).entity {
                None => result == Err::<(), Error>(Error::EmptySession) && final(self).entity
                    is None,
                Some(before) => final(self).entity matches Some(after) && (if attr.is_required() {
                    result == Err::<(), Error>(Error::AttributeRequired(*attr)) && after == before
                } else if before.spec_has_attribute(*attr) {
                    result == Err::<(), Error>(Error::AttributePresent(*attr)) && after == before
                } else {
                    result is Ok && before.spec_attribute_added(*attr, after)
                }),
            },
    {
        match &mut self.entity {
            None => Err(Error::EmptySession),
            Some(entity) => entity.add_attribute(attr),
        }
    }

    /// Takes from the entity an attribute that it has.
    pub fn remove_attribute(&mut self, attr: &EntityAttribute) -> (result: Result<(), Error>)
        ensures
            final(self).state == old(self).state,
            final(self).cursor_pos == old(self).cursor_pos,
            final(self).text_attr == old(self).text_attr,
            match old(self).entity {
                None => result == Err::<(), Error>(Error::EmptySession) && final(self).entity
                    is None,
                Some(before) => final(self).entity matches Some(after) && (if attr.is_required() {
                    result == Err::<(), Error>(Error::AttributeRequired(*attr)) && after == before
                } else if !before.spec_has_attribute(*attr) {
                    result == Err::<(), Error>(Error::AttributeAbsent(*attr)) && after == before
                } else {
                    result is Ok && after == before.spec_without_attribute(*attr)
                }),
            },
    {
        match &mut self.entity {
            None => Err(Error::EmptySession),
            Some(entity) => entity.remove_attribute(attr),
        }
    }

    /// Whether the entity has the attribute.
    pub fn has_attribute(&self, attr: &EntityAttribute) -> (result: Result<bool, Error>)
        ensures
            match self.entity {
                None => result == Err::<bool, Error>(Error::EmptySession),
                Some(entity) => result == Ok::<bool, Error>(entity.spec_has_attribute(*attr)),
            },
    {
        match &self.entity {
            None => Err(Error::EmptySession),
            Some(entity) => Ok(entity.has_attribute(attr)),
        }
    }

    /// The attributes that `entity` has, in their order, each with its name
    /// in the style of attributes and with its value.
    pub fn attribute_list(entity: &Entity) -> (result: Result<
        Vec<(FormattedText<LogStyle>, FormattedString<LogStyle>)>,
        Error,
    >)
        ensures
            result matches Ok(list) && list@.len() == entity.spec_attribute_count() && forall|j: int|
                0 <= j < list@.len() ==> {
                    let place = spec_attribute_place(*entity, j, 0, 0);
                    &&& place is Some
                    &&& 0 <= place->0 < 8
                    &&& (#[trigger] list@[j]).0@ == (FormattedTextView {
                        s: EntityAttribute::spec_attribute_order()[place->0].spec_name(),
                        style: LogStyle::Attribute,
                    })
                    &&& list@[j].1@ == entity.spec_attribute_value(
                        EntityAttribute::spec_attribute_order()[place->0],
                    )
                },
    {
        let order = EntityAttribute::attribute_order();
        let mut list: Vec<(FormattedText<LogStyle>, FormattedString<LogStyle>)> = Vec::new();
        let mut k: usize = 0;
        while k < 8
            invariant
                k <= 8,
                order@ == EntityAttribute::spec_attribute_order(),
                list@.len() == entity.spec_attribute_count_upto(k as int),
                list@.len() <= k,
                forall|j: int|
                    0 <= j < list@.len() ==> {
                        let place = spec_attribute_place(*entity, j, 0, 0);
                        &&& place is Some
                        &&& 0 <= place->0 < k
                        &&& (#[trigger] list@[j]).0@ == (FormattedTextView {
                            s: EntityAttribute::spec_attribute_order()[place->0].spec_name(),
                            style: LogStyle::Attribute,
                        })
                        &&& list@[j].1@ == entity.spec_attribute_value(
                            EntityAttribute::spec_attribute_order()[place->0],
                        )
                    },
            decreases 8 - k,
        {
            if entity.has_attribute(&order[k]) {
                let key = FormattedText::new(order[k].name(), LogStyle::Attribute);
                let value = entity.get_attribute_value(&order[k]);
                proof {
                    lemma_attribute_place(*entity, list@.len() as int, k as int);
                }
                list.push((key, value));
            }
            k += 1;
        }
        Ok(list)
    }

    /// Where the cursor is after a step in `direction` over `count`
    /// attributes: it stops at the first and at the last.
    pub open spec fn spec_moved(self, direction: Direction1D, count: int) -> usize {
        match direction {
            Direction1D::Up => if self.cursor_pos > 0 {
                (self.cursor_pos - 1) as usize
            } else {
                self.cursor_pos
            },
            Direction1D::Down => if self.cursor_pos + 1 < count {
                (self.cursor_pos + 1) as usize
            } else {
                self.cursor_pos
            },
        }
    }

    /// Moves the cursor one attribute up or down.
    pub fn move_cursor(&mut self, direction: &Direction1D) -> (result: Result<(), Error>)
        ensures
            final(self).entity == old(self).entity,
            final(self).state == old(self).state,
            final(self).text_attr == old(self).text_attr,
            match old(self).entity {
                None => result == Err::<(), Error>(Error::EmptySession) && final(self).cursor_pos
                    == old(self).cursor_pos,
                Some(entity) => result is Ok && final(self).cursor_pos == old(self).spec_moved(
                    *direction,
                    entity.spec_attribute_count(),
                ),
            },
    {
        let count: usize = match &self.entity {
            None => {
                return Err(Error::EmptySession);
            },
            Some(entity) => entity.attribute_count(),
        };
        match direction {
            Direction1D::Up => {
                if self.cursor_pos > 0 {
                    self.cursor_pos -= 1;
                }
            },
            Direction1D::Down => {
                if self.cursor_pos < count - 1 {
                    self.cursor_pos += 1;
                }
            },
        }
        Ok(())
    }

    /// Brings the cursor back onto the last attribute where it has got
    /// behind it.
    pub fn validate_cursor_pos(&mut self) -> (result: Result<(), Error>)
        ensures
            final(self).entity == old(self).entity,
            final(self).state == old(self).state,
            final(self).text_attr == old(self).text_attr,
            match old(self).entity {
                None => result == Err::<(), Error>(Error::EmptySession) && final(self).cursor_pos
                    == old(self).cursor_pos,
                Some(entity) => result is Ok && final(self).cursor_pos == (if entity.spec_attribute_count()
                    - 1 < old(self).cursor_pos {
                    (entity.spec_attribute_count() - 1) as usize
                } else {
                    old(self).cursor_pos
                }),
            },
    {
        let count: usize = match &self.entity {
            None => {
                return Err(Error::EmptySession);
            },
            Some(entity) => entity.attribute_count(),
        };
        let max: usize = count - 1;
        if max < self.cursor_pos {
            self.cursor_pos = max;
        }
        Ok(())
    }

    pub fn refresh_rate(&self) -> (rate: u16)
        ensures
            rate == 60,
    {
        60
    }
}

/// The attribute at the place `place` is the one that the count of the
/// attributes before it says: where the entity has it, it is its
/// attribute number `spec_attribute_count_upto(place)`.
pub proof fn lemma_attribute_place(entity: Entity, index: int, place: int)
    requires
        0 <= place < 8,
        entity.spec_has_attribute(EntityAttribute::spec_attribute_order()[place]),
        index == entity.spec_attribute_count_upto(place),
    ensures
        spec_attribute_place(entity, index, 0, 0) == Some(place),
{
    lemma_attribute_place_from(entity, index, place, 0);
}

/// Looking for an attribute from a place before it on finds it.
pub proof fn lemma_attribute_place_from(entity: Entity, index: int, place: int, from: int)
    requires
        0 <= from <= place < 8,
        entity.spec_has_attribute(EntityAttribute::spec_attribute_order()[place]),
        index == entity.spec_attribute_count_upto(place),
    ensures
        spec_attribute_place(entity, index, from, entity.spec_attribute_count_upto(from)) == Some(
            place,
        ),
    decreases place - from,
{
    if from < place {
        lemma_attribute_place_from(entity, index, place, from + 1);
        lemma_count_grows(entity, from + 1, place);
    }
}

/// The count of the attributes up to a place does not shrink with the place.
pub proof fn lemma_count_grows(entity: Entity, n: int, m: int)
    requires
        0 <= n <= m,
    ensures
        entity.spec_attribute_count_upto(n) <= entity.spec_attribute_count_upto(m),
    decreases m - n,
{
    if n < m {
        lemma_count_grows(entity, n, m - 1);
    }
}

} // verus!
