//! Items, the catalogue that defines them, and the ids they get.

use vstd::prelude::*;
use vstd::string::StringExecFns;
use crate::error::Error;
use crate::utils::{first_index, lemma_first_index, lemma_first_index_is, lemma_first_index_none};

verus! {

/// Ids below this number are set aside for unique items, which the catalogue
/// names; every other item gets an id from this number on.
pub const RESERVED_ID_COUNT: u32 = 1024;

#[derive(Debug, PartialEq, Eq, Structural, Clone, Copy)]
pub enum BookType {
    ILoveYou,
    Babel,
}

#[derive(Debug, PartialEq, Eq, Structural, Clone, Copy)]
pub enum WeaponType {
    ShortSword,
    BastardSword,
    Zweihander,
}

#[derive(Debug, PartialEq, Eq, Structural, Clone, Copy)]
pub enum ArmourType {
    Cloak,
    Hauberk,
    Knight,
}

#[derive(Debug, PartialEq, Eq, Structural, Clone, Copy)]
pub enum ItemType {
    Book(BookType),
    Weapon(WeaponType),
    Armour(ArmourType),
    Torch,
}

/// A thing that an entity can hold.
#[derive(Debug, PartialEq, Eq)]
pub struct Item {
    pub id: u32,
    pub item_type: ItemType,
    pub name: String,
}

/// What the catalogue says of one type of item. A unique item has an id of
/// its own; of any other type there can be many items.
#[derive(Debug, PartialEq, Eq)]
pub struct ItemData {
    pub item_type: ItemType,
    pub name: String,
    pub description: String,
    pub damage: u32,
    pub range: u8,
    pub unique_id: Option<u32>,
}

/// The definitions of all items, and the id that the next item gets that is
/// not unique.
#[derive(Debug, PartialEq, Eq)]
pub struct ItemCatalogue {
    definitions: Vec<ItemData>,
    next_id: u32,
}

/// Holds of the definitions of items of type `item_type`.
pub open spec fn defines_type(item_type: ItemType) -> spec_fn(ItemData) -> bool {
    |data: ItemData| data.item_type == item_type
}

/// Holds of the definition of the unique item with the id `id`.
pub open spec fn defines_id(id: u32) -> spec_fn(ItemData) -> bool {
    |data: ItemData| data.unique_id == Some(id)
}

/// Holds of the items with the id `id`.
pub open spec fn has_id(id: u32) -> spec_fn(Item) -> bool {
    |item: Item| item.id == id
}

/// Holds of the items of type `item_type`.
pub open spec fn has_type(item_type: ItemType) -> spec_fn(Item) -> bool {
    |item: Item| item.item_type == item_type
}

impl Clone for Item {
    fn clone(&self) -> (item: Self)
        ensures
            item == *self,
    {
        Item { id: self.id, item_type: self.item_type, name: self.name.clone() }
    }
}

impl Clone for ItemData {
    fn clone(&self) -> (data: Self)
        ensures
            data == *self,
    {
        ItemData {
            item_type: self.item_type,
            name: self.name.clone(),
            description: self.description.clone(),
            damage: self.damage,
            range: self.range,
            unique_id: self.unique_id,
        }
    }
}

impl ItemCatalogue {
    /// The id that the next item gets that is not unique.
    pub closed spec fn spec_next_id(&self) -> u32 {
        self.next_id
    }

    /// The definitions, in the order in which they are searched.
    pub closed spec fn spec_definitions(&self) -> Seq<ItemData> {
        self.definitions@
    }

    /// No id that the catalogue gives out is one of those set aside.
    pub open spec fn wf(&self) -> bool {
        self.spec_next_id() >= RESERVED_ID_COUNT
    }

    /// Whether no id that the catalogue gives out is one of those set aside.
    pub fn is_wf(&self) -> (ok: bool)
        ensures
            ok == self.wf(),
    {
        self.next_id >= RESERVED_ID_COUNT
    }

    /// A catalogue of these definitions that has given out no id yet.
    pub fn new(definitions: Vec<ItemData>) -> (catalogue: Self)
        ensures
            catalogue.spec_definitions() == definitions@,
            catalogue.spec_next_id() == RESERVED_ID_COUNT,
            catalogue.wf(),
    {
        ItemCatalogue { definitions, next_id: RESERVED_ID_COUNT }
    }

    /// A catalogue of these definitions that goes on giving out ids from
    /// `next_id`, or from the first id that is not set aside, if that is
    /// larger.
    pub fn resume(definitions: Vec<ItemData>, next_id: u32) -> (catalogue: Self)
        ensures
            catalogue.spec_definitions() == definitions@,
            catalogue.spec_next_id() == if next_id < RESERVED_ID_COUNT {
                RESERVED_ID_COUNT
            } else {
                next_id
            },
            catalogue.wf(),
    {
        let next_id: u32 = if next_id < RESERVED_ID_COUNT {
            RESERVED_ID_COUNT
        } else {
            next_id
        };
        ItemCatalogue { definitions, next_id }
    }

    /// The id that the next item gets that is not unique.
    pub fn next_id(&self) -> (id: u32)
        ensures
            id == self.spec_next_id(),
    {
        self.next_id
    }

    /// The definitions, in the order in which they are searched.
    pub fn definitions(&self) -> (definitions: &Vec<ItemData>)
        ensures
            definitions@ == self.spec_definitions(),
    {
        &self.definitions
    }

    /// The index of the first definition of `item_type`.
    pub fn find_type(&self, item_type: ItemType) -> (index: Option<usize>)
        ensures
            index matches Some(k) ==> first_index(self.spec_definitions(), defines_type(item_type)) == Some(
                k as int,
            ) && k < self.spec_definitions().len(),
            index is None ==> first_index(self.spec_definitions(), defines_type(item_type)) is None,
    {
        let mut k: usize = 0;
        while k < self.definitions.len()
            invariant
                k <= self.definitions.len(),
                forall|j: int| 0 <= j < k ==> !defines_type(item_type)(#[trigger] self.definitions@[j]),
            decreases self.definitions.len() - k,
        {
            if self.definitions[k].item_type == item_type {
                proof {
                    lemma_first_index_is(self.definitions@, defines_type(item_type), k as int);
                }
                return Some(k);
            }
            k += 1;
        }
        proof {
            lemma_first_index_none(self.definitions@, defines_type(item_type));
        }
        None
    }

    /// The index of the first definition of the unique item with this id.
    pub fn find_id(&self, id: u32) -> (index: Option<usize>)
        ensures
            index matches Some(k) ==> first_index(self.spec_definitions(), defines_id(id)) == Some(
                k as int,
            ) && k < self.spec_definitions().len(),
            index is None ==> first_index(self.spec_definitions(), defines_id(id)) is None,
    {
        let mut k: usize = 0;
        while k < self.definitions.len()
            invariant
                k <= self.definitions.len(),
                forall|j: int| 0 <= j < k ==> !defines_id(id)(#[trigger] self.definitions@[j]),
            decreases self.definitions.len() - k,
        {
            let known: bool = match self.definitions[k].unique_id {
                Some(unique) => unique == id,
                None => false,
            };
            if known {
                proof {
                    lemma_first_index_is(self.definitions@, defines_id(id), k as int);
                }
                return Some(k);
            }
            k += 1;
        }
        proof {
            lemma_first_index_none(self.definitions@, defines_id(id));
        }
        None
    }
}

impl Item {
    /// What `new` gives: an item with the catalogue's next id, unless the
    /// ids have run out.
    pub open spec fn spec_new(
        item_type: ItemType,
        name: Seq<char>,
        next_id: u32,
        result: Result<Item, Error>,
    ) -> bool {
        if next_id == u32::MAX {
            result == Err::<Item, Error>(Error::ItemIdsExhausted)
        } else {
            &&& result matches Ok(item)
            &&& item.id == next_id
            &&& item.item_type == item_type
            &&& item.name@ == name
        }
    }

    /// What `new_with_id` gives: an item with the id asked for, unless that
    /// id is not one of those set aside for unique items.
    pub open spec fn spec_new_with_id(
        item_type: ItemType,
        name: Seq<char>,
        id: u32,
        result: Result<Item, Error>,
    ) -> bool {
        if id >= RESERVED_ID_COUNT {
            result == Err::<Item, Error>(Error::ReservedIdOutOfRange(id))
        } else {
            &&& result matches Ok(item)
            &&& item.id == id
            &&& item.item_type == item_type
            &&& item.name@ == name
        }
    }

    /// A new item that is not unique. It takes the catalogue's next id.
    pub fn new(item_type: ItemType, name: &str, catalogue: &mut ItemCatalogue) -> (result: Result<
        Self,
        Error,
    >)
        requires
            old(catalogue).wf(),
        ensures
            Self::spec_new(item_type, name@, old(catalogue).spec_next_id(), result),
            final(catalogue).wf(),
            final(catalogue).spec_definitions() == old(catalogue).spec_definitions(),
            final(catalogue).spec_next_id() == if result is Ok {
                old(catalogue).spec_next_id() + 1
            } else {
                old(catalogue).spec_next_id() as int
            },
            result matches Ok(item) ==> item.id >= RESERVED_ID_COUNT,
    {
        if catalogue.next_id == u32::MAX {
            return Err(Error::ItemIdsExhausted);
        }
        let id: u32 = catalogue.next_id;
        catalogue.next_id = id + 1;
        Ok(Item { id, item_type, name: name.to_owned() })
    }

    /// A unique item with the id that the catalogue set aside for it.
    pub fn new_with_id(item_type: ItemType, name: &str, id: u32) -> (result: Result<Self, Error>)
        ensures
            Self::spec_new_with_id(item_type, name@, id, result),
    {
        if id >= RESERVED_ID_COUNT {
            return Err(Error::ReservedIdOutOfRange(id));
        }
        Ok(Item { id, item_type, name: name.to_owned() })
    }

    /// What `from_item_type` gives: an item after the first definition of
    /// its type, with that definition's own id where it has one and with the
    /// catalogue's next id where it has none.
    pub open spec fn spec_from_item_type(
        item_type: ItemType,
        definitions: Seq<ItemData>,
        next_id: u32,
        result: Result<Item, Error>,
    ) -> bool {
        match first_index(definitions, defines_type(item_type)) {
            None => result == Err::<Item, Error>(Error::ItemTypeNotFound(item_type)),
            Some(i) => match definitions[i].unique_id {
                Some(id) => Self::spec_new_with_id(item_type, definitions[i].name@, id, result),
                None => Self::spec_new(item_type, definitions[i].name@, next_id, result),
            },
        }
    }

    /// Whether the catalogue can make an item of the type `item_type`:
    /// whether it defines the type, and the first definition of the type
    /// names an id of its own that is set aside for unique items, or names
    /// none while the ids have not run out.
    pub open spec fn spec_can_make(
        item_type: ItemType,
        definitions: Seq<ItemData>,
        next_id: u32,
    ) -> bool {
        match first_index(definitions, defines_type(item_type)) {
            None => false,
            Some(i) => match definitions[i].unique_id {
                Some(id) => id < RESERVED_ID_COUNT,
                None => next_id < u32::MAX,
            },
        }
    }

    /// Whether an item of the type `item_type` takes the catalogue's next id:
    /// whether the first definition of the type names no id of its own.
    pub open spec fn spec_takes_next_id(item_type: ItemType, definitions: Seq<ItemData>) -> bool {
        match first_index(definitions, defines_type(item_type)) {
            None => false,
            Some(i) => definitions[i].unique_id is None,
        }
    }

    /// An item of the type `item_type`, as the catalogue defines it.
    pub fn from_item_type(item_type: ItemType, catalogue: &mut ItemCatalogue) -> (result: Result<
        Self,
        Error,
    >)
        requires
            old(catalogue).wf(),
        ensures
            Self::spec_from_item_type(
                item_type,
                old(catalogue).spec_definitions(),
                old(catalogue).spec_next_id(),
                result,
            ),
            final(catalogue).wf(),
            final(catalogue).spec_definitions() == old(catalogue).spec_definitions(),
            final(catalogue).spec_next_id() == if result is Ok && Self::spec_takes_next_id(
                item_type,
                old(catalogue).spec_definitions(),
            ) {
                old(catalogue).spec_next_id() + 1
            } else {
                old(catalogue).spec_next_id() as int
            },
    {
        match catalogue.find_type(item_type) {
            None => Err(Error::ItemTypeNotFound(item_type)),
            Some(k) => {
                let unique: Option<u32> = catalogue.definitions[k].unique_id;
                let name: String = catalogue.definitions[k].name.clone();
                match unique {
                    Some(id) => Item::new_with_id(item_type, name.as_str(), id),
                    None => Item::new(item_type, name.as_str(), catalogue),
                }
            },
        }
    }

    /// What `from_id` gives: the unique item that the first definition with
    /// this id defines.
    pub open spec fn spec_from_id(
        id: u32,
        definitions: Seq<ItemData>,
        result: Result<Item, Error>,
    ) -> bool {
        match first_index(definitions, defines_id(id)) {
            None => result == Err::<Item, Error>(Error::ItemIdNotFound(id)),
            Some(i) => Self::spec_new_with_id(
                definitions[i].item_type,
                definitions[i].name@,
                id,
                result,
            ),
        }
    }

    /// The unique item with the id `id`, as the catalogue defines it.
    pub fn from_id(id: u32, catalogue: &ItemCatalogue) -> (result: Result<Self, Error>)
        ensures
            Self::spec_from_id(id, catalogue.spec_definitions(), result),
    {
        match catalogue.find_id(id) {
            None => Err(Error::ItemIdNotFound(id)),
            Some(k) => {
                proof {
                    lemma_first_index(catalogue.definitions@, defines_id(id));
                }
                Item::new_with_id(
                    catalogue.definitions[k].item_type,
                    catalogue.definitions[k].name.as_str(),
                    id,
                )
            },
        }
    }
}

impl BookType {
    pub open spec fn spec_name(self) -> Seq<char> {
        match self {
            BookType::ILoveYou => "ILoveYou"@,
            BookType::Babel => "Babel"@,
        }
    }

    pub fn name(&self) -> (name: &'static str)
        ensures
            name@ == self.spec_name(),
    {
        match self {
            BookType::ILoveYou => "ILoveYou",
            BookType::Babel => "Babel",
        }
    }
}

impl WeaponType {
    pub open spec fn spec_name(self) -> Seq<char> {
        match self {
            WeaponType::ShortSword => "ShortSword"@,
            WeaponType::BastardSword => "BastardSword"@,
            WeaponType::Zweihander => "Zweihander"@,
        }
    }

    pub fn name(&self) -> (name: &'static str)
        ensures
            name@ == self.spec_name(),
    {
        match self {
            WeaponType::ShortSword => "ShortSword",
            WeaponType::BastardSword => "BastardSword",
            WeaponType::Zweihander => "Zweihander",
        }
    }
}

impl ArmourType {
    pub open spec fn spec_name(self) -> Seq<char> {
        match self {
            ArmourType::Cloak => "Cloak"@,
            ArmourType::Hauberk => "Hauberk"@,
            ArmourType::Knight => "Knight"@,
        }
    }

    pub fn name(&self) -> (name: &'static str)
        ensures
            name@ == self.spec_name(),
    {
        match self {
            ArmourType::Cloak => "Cloak",
            ArmourType::Hauberk => "Hauberk",
            ArmourType::Knight => "Knight",
        }
    }
}

impl ItemType {
    /// The type in words: the kind of item, and which one of its kind.
    pub open spec fn spec_name(self) -> Seq<char> {
        match self {
            ItemType::Book(book) => "book: "@ + book.spec_name(),
            ItemType::Weapon(weapon) => "weapon: "@ + weapon.spec_name(),
            ItemType::Armour(armour) => "armour: "@ + armour.spec_name(),
            ItemType::Torch => "torch"@,
        }
    }

    /// The type in words.
    pub fn name(&self) -> (name: String)
        ensures
            name@ == self.spec_name(),
    {
        match self {
            ItemType::Book(book) => "book: ".to_owned().concat(book.name()),
            ItemType::Weapon(weapon) => "weapon: ".to_owned().concat(weapon.name()),
            ItemType::Armour(armour) => "armour: ".to_owned().concat(armour.name()),
            ItemType::Torch => "torch".to_owned(),
        }
    }
}

} // verus!
