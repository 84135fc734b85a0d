//! Entities: what lives in a chunk.

use vstd::prelude::*;
use crate::error::Error;
use crate::text::{FormattedStringView, FormattedTextView};
use crate::types::{Coords3D, FormattedString, FormattedText};
use crate::ui::traits::{ChoiceAttribute, StringLookup, StringLookupDictionary};
use crate::utils::{first_index, lemma_first_index_is, lemma_first_index_none};
use crate::world::action::Action;
use crate::world::allegiance::Allegiance;
use crate::world::item::{has_id, has_type, Item, ItemCatalogue, ItemType};
use crate::world::log::LogStyle;

verus! {

#[derive(Debug, PartialEq, Eq, Structural, Clone, Copy)]
pub enum EntityType {
    Player,
    Grass,
    Tree,
    NpcFriendly,
    Void,
}

/// The attributes that hold a text.
#[derive(Debug, PartialEq, Eq, Structural, Clone, Copy)]
pub enum EntityAttributeText {
    Name,
    Description,
}

/// The attributes whose value is one of a few choices.
#[derive(Debug, PartialEq, Eq, Structural, Clone, Copy)]
pub enum EntityAttributeChoice {
    Type,
    IsRooted,
    HasAgency,
    Allegiance,
    Opacity,
    Size,
}

/// An attribute of an entity. Type, name and description belong to every
/// entity; each of the others can be there or not.
#[derive(Debug, PartialEq, Eq, Structural, Clone, Copy)]
pub enum EntityAttribute {
    Text(EntityAttributeText),
    Choice(EntityAttributeChoice),
}

/// What an entity has set out to do, and the tick in which it decided so.
#[derive(Debug, PartialEq, Eq, Structural, Clone, Copy)]
pub struct Focus {
    pub action: Action,
    pub tick_born: u32,
}

/// What one entity thinks of another.
#[derive(Debug, PartialEq, Eq, Structural, Clone, Copy)]
pub enum Opinion {
    Love,
    Friendly,
    Neutral,
    Enemy,
    ArchNemesis,
    Fear,
}

#[derive(Debug, PartialEq, Eq, Structural, Clone, Copy)]
pub enum Size {
    Small,
    Medium,
    Large,
}

#[derive(Debug, PartialEq, Eq, Structural, Clone, Copy)]
pub enum Opacity {
    Solid,
    Dense,
    MostlyTransparent,
    Transparent,
}

/// Something that lives in a chunk. An attribute that is not there has its
/// default: an entity is rooted, has no agency, is solid and of medium size
/// unless it says otherwise.
#[derive(Debug, PartialEq, Eq)]
pub struct Entity {
    pub entity_type: EntityType,
    pub name: FormattedString<LogStyle>,
    pub description: FormattedString<LogStyle>,
    pub is_rooted: Option<bool>,
    pub has_agency: Option<bool>,
    pub allegiance: Option<String>,
    pub opacity: Option<Opacity>,
    pub size: Option<Size>,
    pub coords: Coords3D,
    pub inventory: Vec<Item>,
    pub focus: Option<Focus>,
    pub inventory_spaces: usize,
}

pub const IS_ROOTED_DEFAULT: bool = true;

pub const HAS_AGENCY_DEFAULT: bool = false;

pub const ATTRIBUTE_COUNT: usize = 8;

impl Default for EntityType {
    fn default() -> (entity_type: Self)
        ensures
            entity_type == EntityType::Void,
    {
        EntityType::Void
    }
}

impl Default for Size {
    fn default() -> (size: Self)
        ensures
            size == Size::Medium,
    {
        Size::Medium
    }
}

impl Default for Opacity {
    fn default() -> (opacity: Self)
        ensures
            opacity == Opacity::Solid,
    {
        Opacity::Solid
    }
}

impl Default for EntityAttributeText {
    fn default() -> (attr: Self)
        ensures
            attr == EntityAttributeText::Name,
    {
        EntityAttributeText::Name
    }
}

impl Default for EntityAttributeChoice {
    fn default() -> (attr: Self)
        ensures
            attr == EntityAttributeChoice::Type,
    {
        EntityAttributeChoice::Type
    }
}

impl EntityType {
    /// The name of the type as it is written.
    pub open spec fn spec_name(self) -> Seq<char> {
        match self {
            EntityType::Player => "Player"@,
            EntityType::Grass => "Grass"@,
            EntityType::Tree => "Tree"@,
            EntityType::NpcFriendly => "NpcFriendly"@,
            EntityType::Void => "Void"@,
        }
    }

    pub fn name(&self) -> (name: &'static str)
        ensures
            name@ == self.spec_name(),
    {
        match self {
            EntityType::Player => "Player",
            EntityType::Grass => "Grass",
            EntityType::Tree => "Tree",
            EntityType::NpcFriendly => "NpcFriendly",
            EntityType::Void => "Void",
        }
    }
}

impl Size {
    pub open spec fn spec_name(self) -> Seq<char> {
        match self {
            Size::Small => "Small"@,
            Size::Medium => "Medium"@,
            Size::Large => "Large"@,
        }
    }

    pub fn name(&self) -> (name: &'static str)
        ensures
            name@ == self.spec_name(),
    {
        match self {
            Size::Small => "Small",
            Size::Medium => "Medium",
            Size::Large => "Large",
        }
    }
}

impl Opacity {
    pub open spec fn spec_name(self) -> Seq<char> {
        match self {
            Opacity::Solid => "Solid"@,
            Opacity::Dense => "Dense"@,
            Opacity::MostlyTransparent => "MostlyTransparent"@,
            Opacity::Transparent => "Transparent"@,
        }
    }

    pub fn name(&self) -> (name: &'static str)
        ensures
            name@ == self.spec_name(),
    {
        match self {
            Opacity::Solid => "Solid",
            Opacity::Dense => "Dense",
            Opacity::MostlyTransparent => "MostlyTransparent",
            Opacity::Transparent => "Transparent",
        }
    }
}

impl StringLookup for EntityType {
    open spec fn spec_dictionary() -> Seq<(EntityType, Seq<char>)> {
        seq![
            (EntityType::Player, "Player"@),
            (EntityType::Grass, "Grass"@),
            (EntityType::Tree, "Tree"@),
            (EntityType::NpcFriendly, "Friendly NPC"@),
            (EntityType::Void, "Void"@),
        ]
    }

    fn dictionary() -> (dictionary: StringLookupDictionary<EntityType>) {
        let mut dict: Vec<(EntityType, &'static str)> = Vec::new();
        dict.push((EntityType::Player, "Player"));
        dict.push((EntityType::Grass, "Grass"));
        dict.push((EntityType::Tree, "Tree"));
        dict.push((EntityType::NpcFriendly, "Friendly NPC"));
        dict.push((EntityType::Void, "Void"));
        StringLookupDictionary { dict }
    }
}

impl ChoiceAttribute for EntityType {

}

impl StringLookup for Size {
    open spec fn spec_dictionary() -> Seq<(Size, Seq<char>)> {
        seq![(Size::Small, "Small"@), (Size::Medium, "Medium"@), (Size::Large, "Large"@)]
    }

    fn dictionary() -> (dictionary: StringLookupDictionary<Size>) {
        let mut dict: Vec<(Size, &'static str)> = Vec::new();
        dict.push((Size::Small, "Small"));
        dict.push((Size::Medium, "Medium"));
        dict.push((Size::Large, "Large"));
        StringLookupDictionary { dict }
    }
}

impl ChoiceAttribute for Size {

}

impl StringLookup for Opacity {
    open spec fn spec_dictionary() -> Seq<(Opacity, Seq<char>)> {
        seq![
            (Opacity::Solid, "Solid"@),
            (Opacity::Dense, "Dense"@),
            (Opacity::MostlyTransparent, "Mostly Transparent"@),
            (Opacity::Transparent, "Transparent"@),
        ]
    }

    fn dictionary() -> (dictionary: StringLookupDictionary<Opacity>) {
        let mut dict: Vec<(Opacity, &'static str)> = Vec::new();
        dict.push((Opacity::Solid, "Solid"));
        dict.push((Opacity::Dense, "Dense"));
        dict.push((Opacity::MostlyTransparent, "Mostly Transparent"));
        dict.push((Opacity::Transparent, "Transparent"));
        StringLookupDictionary { dict }
    }
}

impl ChoiceAttribute for Opacity {

}

/// Something on a line of sight that lets less of what lies behind it be
/// seen.
pub trait VisibilityModifier {
    /// The share of the sight that this takes away, in hundredths.
    spec fn spec_visibility_reduction_factor(&self) -> int;

    fn visibility_reduction_factor(&self) -> (factor: u64)
        ensures
            factor == self.spec_visibility_reduction_factor(),
            factor <= 100,
    ;
}

impl VisibilityModifier for Opacity {
    open spec fn spec_visibility_reduction_factor(&self) -> int {
        match self {
            Opacity::Transparent => 0,
            Opacity::MostlyTransparent => 10,
            Opacity::Dense => 30,
            Opacity::Solid => 100,
        }
    }

    fn visibility_reduction_factor(&self) -> (factor: u64) {
        match self {
            Opacity::Transparent => 0,
            Opacity::MostlyTransparent => 10,
            Opacity::Dense => 30,
            Opacity::Solid => 100,
        }
    }
}

impl VisibilityModifier for Size {
    open spec fn spec_visibility_reduction_factor(&self) -> int {
        match self {
            Size::Small => 10,
            Size::Medium => 30,
            Size::Large => 70,
        }
    }

    fn visibility_reduction_factor(&self) -> (factor: u64) {
        match self {
            Size::Small => 10,
            Size::Medium => 30,
            Size::Large => 70,
        }
    }
}

impl VisibilityModifier for Entity {
    /// The factor of the entity's opacity times that of its size.
    open spec fn spec_visibility_reduction_factor(&self) -> int {
        self.spec_opacity().spec_visibility_reduction_factor()
            * self.spec_size().spec_visibility_reduction_factor() / 100
    }

    fn visibility_reduction_factor(&self) -> (factor: u64) {
        let opacity: u64 = self.opacity().visibility_reduction_factor();
        let size: u64 = self.size().visibility_reduction_factor();
        assert(opacity * size <= 100 * 100) by (nonlinear_arith)
            requires
                opacity <= 100,
                size <= 100,
        ;
        opacity * size / 100
    }
}

/// One, as a weight: weights are counted in millionths.
pub const OPINION_WEIGHT_ONE: u64 = 1_000_000;

impl Opinion {
    /// How much an opinion draws the eye, in millionths: fear most, then
    /// the enemies, then the friends, and indifference least.
    pub open spec fn spec_get_weight(self) -> u64 {
        match self {
            Opinion::Love => 200_000,
            Opinion::Friendly => 100_000,
            Opinion::Neutral => 30_000,
            Opinion::Enemy => 600_000,
            Opinion::ArchNemesis => 800_000,
            Opinion::Fear => 1_000_000,
        }
    }

    pub fn get_weight(&self) -> (weight: u64)
        ensures
            weight == self.spec_get_weight(),
            weight <= OPINION_WEIGHT_ONE,
    {
        match self {
            Opinion::Love => 200_000,
            Opinion::Friendly => 100_000,
            Opinion::Neutral => 30_000,
            Opinion::Enemy => 600_000,
            Opinion::ArchNemesis => 800_000,
            Opinion::Fear => 1_000_000,
        }
    }
}

impl EntityAttributeText {
    pub open spec fn spec_name(self) -> Seq<char> {
        match self {
            EntityAttributeText::Name => "Name"@,
            EntityAttributeText::Description => "Description"@,
        }
    }

    pub fn name(&self) -> (name: &'static str)
        ensures
            name@ == self.spec_name(),
    {
        match self {
            EntityAttributeText::Name => "Name",
            EntityAttributeText::Description => "Description",
        }
    }
}

impl EntityAttributeChoice {
    pub open spec fn spec_name(self) -> Seq<char> {
        match self {
            EntityAttributeChoice::Type => "Type"@,
            EntityAttributeChoice::IsRooted => "Is rooted"@,
            EntityAttributeChoice::HasAgency => "Has agency"@,
            EntityAttributeChoice::Allegiance => "Allegiance"@,
            EntityAttributeChoice::Opacity => "Opacity"@,
            EntityAttributeChoice::Size => "Size"@,
        }
    }

    pub fn name(&self) -> (name: &'static str)
        ensures
            name@ == self.spec_name(),
    {
        match self {
            EntityAttributeChoice::Type => "Type",
            EntityAttributeChoice::IsRooted => "Is rooted",
            EntityAttributeChoice::HasAgency => "Has agency",
            EntityAttributeChoice::Allegiance => "Allegiance",
            EntityAttributeChoice::Opacity => "Opacity",
            EntityAttributeChoice::Size => "Size",
        }
    }

    /// The names of the values that the attribute can take.
    pub open spec fn spec_choices(self) -> Seq<Seq<char>> {
        match self {
            EntityAttributeChoice::Type => EntityType::spec_dictionary().map_values(
                |e: (EntityType, Seq<char>)| e.1,
            ),
            EntityAttributeChoice::IsRooted => bool::spec_dictionary().map_values(
                |e: (bool, Seq<char>)| e.1,
            ),
            EntityAttributeChoice::HasAgency => bool::spec_dictionary().map_values(
                |e: (bool, Seq<char>)| e.1,
            ),
            EntityAttributeChoice::Allegiance => Allegiance::spec_dictionary().map_values(
                |e: (Allegiance, Seq<char>)| e.1,
            ),
            EntityAttributeChoice::Opacity => Opacity::spec_dictionary().map_values(
                |e: (Opacity, Seq<char>)| e.1,
            ),
            EntityAttributeChoice::Size => Size::spec_dictionary().map_values(
                |e: (Size, Seq<char>)| e.1,
            ),
        }
    }

    /// The names of the values that the attribute can take.
    pub fn choices(&self) -> (choices: Vec<&'static str>)
        ensures
            choices@.len() == self.spec_choices().len(),
            forall|i: int|
                0 <= i < choices@.len() ==> (#[trigger] choices@[i])@ == self.spec_choices()[i],
    {
        match self {
            EntityAttributeChoice::Type => EntityType::choices(),
            EntityAttributeChoice::IsRooted => bool::choices(),
            EntityAttributeChoice::HasAgency => bool::choices(),
            EntityAttributeChoice::Allegiance => Allegiance::choices(),
            EntityAttributeChoice::Opacity => Opacity::choices(),
            EntityAttributeChoice::Size => Size::choices(),
        }
    }
}

impl EntityAttribute {
    /// The attributes in the order in which they are shown.
    pub open spec fn spec_attribute_order() -> Seq<EntityAttribute> {
        seq![
            EntityAttribute::Choice(EntityAttributeChoice::Type),
            EntityAttribute::Text(EntityAttributeText::Name),
            EntityAttribute::Text(EntityAttributeText::Description),
            EntityAttribute::Choice(EntityAttributeChoice::IsRooted),
            EntityAttribute::Choice(EntityAttributeChoice::HasAgency),
            EntityAttribute::Choice(EntityAttributeChoice::Allegiance),
            EntityAttribute::Choice(EntityAttributeChoice::Opacity),
            EntityAttribute::Choice(EntityAttributeChoice::Size),
        ]
    }

    /// The attributes in the order in which they are shown.
    pub fn attribute_order() -> (order: [EntityAttribute; 8])
        ensures
            order@ == Self::spec_attribute_order(),
    {
        let order = [
            EntityAttribute::Choice(EntityAttributeChoice::Type),
            EntityAttribute::Text(EntityAttributeText::Name),
            EntityAttribute::Text(EntityAttributeText::Description),
            EntityAttribute::Choice(EntityAttributeChoice::IsRooted),
            EntityAttribute::Choice(EntityAttributeChoice::HasAgency),
            EntityAttribute::Choice(EntityAttributeChoice::Allegiance),
            EntityAttribute::Choice(EntityAttributeChoice::Opacity),
            EntityAttribute::Choice(EntityAttributeChoice::Size),
        ];
        assert(order@ =~= Self::spec_attribute_order());
        order
    }

    /// Whether every entity has the attribute.
    pub open spec fn is_required(self) -> bool {
        match self {
            EntityAttribute::Text(_) => true,
            EntityAttribute::Choice(EntityAttributeChoice::Type) => true,
            _ => false,
        }
    }

    /// The name of the attribute.
    pub open spec fn spec_name(self) -> Seq<char> {
        match self {
            EntityAttribute::Text(attr) => attr.spec_name(),
            EntityAttribute::Choice(attr) => attr.spec_name(),
        }
    }

    pub fn name(&self) -> (name: &'static str)
        ensures
            name@ == self.spec_name(),
    {
        match self {
            EntityAttribute::Text(attr) => attr.name(),
            EntityAttribute::Choice(attr) => attr.name(),
        }
    }
}

/// The text that stands for a truth value.
pub open spec fn spec_bool_text(b: bool) -> Seq<char> {
    if b {
        "true"@
    } else {
        "false"@
    }
}

/// The view of a string that holds no text and speaks of no cell.
pub open spec fn spec_empty_string() -> FormattedStringView<LogStyle> {
    FormattedStringView { texts: Seq::empty(), origin: None }
}

impl Clone for Entity {
    fn clone(&self) -> (entity: Self)
        ensures
            entity.spec_same(*self),
    {
        let mut inventory: Vec<Item> = Vec::new();
        let mut k: usize = 0;
        while k < self.inventory.len()
            invariant
                k <= self.inventory.len(),
                inventory@ == self.inventory@.take(k as int),
            decreases self.inventory.len() - k,
        {
            inventory.push(self.inventory[k].clone());
            assert(self.inventory@.take(k as int).push(self.inventory@[k as int])
                =~= self.inventory@.take(k + 1));
            k += 1;
        }
        assert(self.inventory@.take(k as int) =~= self.inventory@);
        Entity {
            entity_type: self.entity_type,
            name: self.name.clone(),
            description: self.description.clone(),
            is_rooted: self.is_rooted,
            has_agency: self.has_agency,
            allegiance: match &self.allegiance {
                Some(allegiance) => Some(allegiance.clone()),
                None => None,
            },
            opacity: self.opacity,
            size: self.size,
            coords: self.coords,
            inventory,
            focus: self.focus,
            inventory_spaces: self.inventory_spaces,
        }
    }
}

impl Default for Entity {
    fn default() -> (entity: Self)
        ensures
            entity.spec_is_blank(),
            entity.coords == Coords3D(0, 0, 0),
    {
        Entity::new(&Coords3D(0, 0, 0))
    }
}

impl Entity {
    /// Whether two entities are the same in all that can be seen of them:
    /// the same texts in name and description, the same items in the same
    /// order, and everything else equal.
    pub open spec fn spec_same(self, other: Entity) -> bool {
        &&& self.entity_type == other.entity_type
        &&& self.name@ == other.name@
        &&& self.description@ == other.description@
        &&& self.is_rooted == other.is_rooted
        &&& self.has_agency == other.has_agency
        &&& self.allegiance == other.allegiance
        &&& self.opacity == other.opacity
        &&& self.size == other.size
        &&& self.coords == other.coords
        &&& self.inventory@ == other.inventory@
        &&& self.focus == other.focus
        &&& self.inventory_spaces == other.inventory_spaces
    }

    /// Whether the entity is as a new one is: a void without name,
    /// description, inventory or focus, with none of the attributes that can
    /// be left out.
    pub open spec fn spec_is_blank(&self) -> bool {
        &&& self.entity_type == EntityType::Void
        &&& self.name@ == spec_empty_string()
        &&& self.description@ == spec_empty_string()
        &&& self.is_rooted is None
        &&& self.has_agency is None
        &&& self.allegiance is None
        &&& self.opacity is None
        &&& self.size is None
        &&& self.inventory@ == Seq::<Item>::empty()
        &&& self.focus is None
        &&& self.inventory_spaces == 0
    }

    /// A new entity at `coords`.
    pub fn new(coords: &Coords3D) -> (entity: Self)
        ensures
            entity.spec_is_blank(),
            entity.coords == *coords,
    {
        let name: FormattedString<LogStyle> = FormattedString { texts: Vec::new(), origin: None };
        let description: FormattedString<LogStyle> = FormattedString {
            texts: Vec::new(),
            origin: None,
        };
        assert(name@.texts =~= Seq::empty());
        assert(description@.texts =~= Seq::empty());
        Entity {
            entity_type: EntityType::Void,
            name,
            description,
            is_rooted: None,
            has_agency: None,
            allegiance: None,
            opacity: None,
            size: None,
            coords: *coords,
            inventory: Vec::new(),
            focus: None,
            inventory_spaces: 0,
        }
    }

    pub open spec fn spec_opacity(&self) -> Opacity {
        match self.opacity {
            Some(opacity) => opacity,
            None => Opacity::Solid,
        }
    }

    pub open spec fn spec_size(&self) -> Size {
        match self.size {
            Some(size) => size,
            None => Size::Medium,
        }
    }

    pub open spec fn spec_allegiance(&self) -> Seq<char> {
        match self.allegiance {
            Some(allegiance) => allegiance@,
            None => "None"@,
        }
    }

    pub open spec fn spec_has_agency(&self) -> bool {
        match self.has_agency {
            Some(has_agency) => has_agency,
            None => HAS_AGENCY_DEFAULT,
        }
    }

    pub open spec fn spec_is_rooted(&self) -> bool {
        match self.is_rooted {
            Some(is_rooted) => is_rooted,
            None => IS_ROOTED_DEFAULT,
        }
    }

    /// How opaque the entity is: solid unless it says otherwise.
    pub fn opacity(&self) -> (opacity: Opacity)
        ensures
            opacity == self.spec_opacity(),
    {
        match self.opacity {
            Some(opacity) => opacity,
            None => Opacity::Solid,
        }
    }

    /// How large the entity is: of medium size unless it says otherwise.
    pub fn size(&self) -> (size: Size)
        ensures
            size == self.spec_size(),
    {
        match self.size {
            Some(size) => size,
            None => Size::Medium,
        }
    }

    /// The side the entity is on, or the word `None` where it is on none.
    pub fn allegiance(&self) -> (allegiance: String)
        ensures
            allegiance@ == self.spec_allegiance(),
    {
        match &self.allegiance {
            Some(allegiance) => allegiance.clone(),
            None => "None".to_owned(),
        }
    }

    /// Whether the entity takes turns: it does not unless it says otherwise.
    pub fn has_agency(&self) -> (has_agency: bool)
        ensures
            has_agency == self.spec_has_agency(),
    {
        match self.has_agency {
            Some(has_agency) => has_agency,
            None => HAS_AGENCY_DEFAULT,
        }
    }

    /// Whether the entity is held in place: it is unless it says otherwise.
    pub fn is_rooted(&self) -> (is_rooted: bool)
        ensures
            is_rooted == self.spec_is_rooted(),
    {
        match self.is_rooted {
            Some(is_rooted) => is_rooted,
            None => IS_ROOTED_DEFAULT,
        }
    }

    /// Whether the entity has the attribute.
    pub open spec fn spec_has_attribute(&self, attr: EntityAttribute) -> bool {
        match attr {
            EntityAttribute::Text(_) => true,
            EntityAttribute::Choice(choice) => match choice {
                EntityAttributeChoice::Type => true,
                EntityAttributeChoice::IsRooted => self.is_rooted is Some,
                EntityAttributeChoice::HasAgency => self.has_agency is Some,
                EntityAttributeChoice::Allegiance => self.allegiance is Some,
                EntityAttributeChoice::Opacity => self.opacity is Some,
                EntityAttributeChoice::Size => self.size is Some,
            },
        }
    }

    /// Whether the entity has the attribute.
    pub fn has_attribute(&self, attr: &EntityAttribute) -> (has: bool)
        ensures
            has == self.spec_has_attribute(*attr),
    {
        match attr {
            EntityAttribute::Text(_) => true,
            EntityAttribute::Choice(choice) => match choice {
                EntityAttributeChoice::Type => true,
                EntityAttributeChoice::IsRooted => self.is_rooted.is_some(),
                EntityAttributeChoice::HasAgency => self.has_agency.is_some(),
                EntityAttributeChoice::Allegiance => self.allegiance.is_some(),
                EntityAttributeChoice::Opacity => self.opacity.is_some(),
                EntityAttributeChoice::Size => self.size.is_some(),
            },
        }
    }

    /// How many of the first `n` attributes, in the order in which they are
    /// shown, the entity has.
    pub open spec fn spec_attribute_count_upto(&self, n: int) -> int
        decreases n,
    {
        if n <= 0 {
            0
        } else {
            self.spec_attribute_count_upto(n - 1) + if self.spec_has_attribute(
                EntityAttribute::spec_attribute_order()[n - 1],
            ) {
                1int
            } else {
                0int
            }
        }
    }

    /// How many attributes the entity has.
    pub open spec fn spec_attribute_count(&self) -> int {
        self.spec_attribute_count_upto(8)
    }

    /// How many attributes the entity has.
    pub fn attribute_count(&self) -> (count: usize)
        ensures
            count == self.spec_attribute_count(),
            3 <= count <= 8,
    {
        let order = EntityAttribute::attribute_order();
        let mut count: usize = 0;
        let mut k: usize = 0;
        while k < 8
            invariant
                k <= 8,
                order@ == EntityAttribute::spec_attribute_order(),
                count == self.spec_attribute_count_upto(k as int),
                count <= k,
                k >= 3 ==> count >= 3,
                k < 3 ==> count == k,
            decreases 8 - k,
        {
            if self.has_attribute(&order[k]) {
                count += 1;
            }
            k += 1;
        }
        count
    }

    /// The text that shows the value of an attribute with choices.
    pub open spec fn spec_choice_text(&self, choice: EntityAttributeChoice) -> Seq<char> {
        match choice {
            EntityAttributeChoice::Type => self.entity_type.spec_name(),
            EntityAttributeChoice::IsRooted => spec_bool_text(self.spec_is_rooted()),
            EntityAttributeChoice::HasAgency => spec_bool_text(self.spec_has_agency()),
            EntityAttributeChoice::Allegiance => self.spec_allegiance(),
            EntityAttributeChoice::Opacity => self.spec_opacity().spec_name(),
            EntityAttributeChoice::Size => self.spec_size().spec_name(),
        }
    }

    /// The string that shows the value of an attribute: name and description
    /// as they are, and for any other the value it has or defaults to, as
    /// one text in the style of values.
    pub open spec fn spec_attribute_value(
        &self,
        attr: EntityAttribute,
    ) -> FormattedStringView<LogStyle> {
        match attr {
            EntityAttribute::Text(EntityAttributeText::Name) => self.name@,
            EntityAttribute::Text(EntityAttributeText::Description) => self.description@,
            EntityAttribute::Choice(choice) => FormattedStringView {
                texts: seq![
                    FormattedTextView { s: self.spec_choice_text(choice), style: LogStyle::Value },
                ],
                origin: None,
            },
        }
    }

    /// The string that shows the value of an attribute.
    pub fn get_attribute_value(&self, attr: &EntityAttribute) -> (value: FormattedString<LogStyle>)
        ensures
            value@ == self.spec_attribute_value(*attr),
    {
        match attr {
            EntityAttribute::Text(EntityAttributeText::Name) => self.name.clone(),
            EntityAttribute::Text(EntityAttributeText::Description) => self.description.clone(),
            EntityAttribute::Choice(choice) => {
                let text: String = match choice {
                    EntityAttributeChoice::Type => self.entity_type.name().to_owned(),
                    EntityAttributeChoice::IsRooted => if self.is_rooted() {
                        "true".to_owned()
                    } else {
                        "false".to_owned()
                    },
                    EntityAttributeChoice::HasAgency => if self.has_agency() {
                        "true".to_owned()
                    } else {
                        "false".to_owned()
                    },
                    EntityAttributeChoice::Allegiance => self.allegiance(),
                    EntityAttributeChoice::Opacity => self.opacity().name().to_owned(),
                    EntityAttributeChoice::Size => self.size().name().to_owned(),
                };
                FormattedString::from(&None, FormattedText::new(text.as_str(), LogStyle::Value))
            },
        }
    }

    /// Whether `after` is the entity with the attribute `attr`, which it
    /// lacked and which can be left out, added with the value that a new
    /// attribute has: not rooted, without agency, on no side, solid, of
    /// medium size.
    pub open spec fn spec_attribute_added(self, attr: EntityAttribute, after: Entity) -> bool {
        match attr {
            EntityAttribute::Choice(EntityAttributeChoice::IsRooted) => after == (Entity {
                is_rooted: Some(false),
                ..self
            }),
            EntityAttribute::Choice(EntityAttributeChoice::HasAgency) => after == (Entity {
                has_agency: Some(false),
                ..self
            }),
            EntityAttribute::Choice(EntityAttributeChoice::Allegiance) => after == (Entity {
                allegiance: after.allegiance,
                ..self
            }) && after.allegiance is Some && after.allegiance->0@ == Seq::<char>::empty(),
            EntityAttribute::Choice(EntityAttributeChoice::Opacity) => after == (Entity {
                opacity: Some(Opacity::Solid),
                ..self
            }),
            EntityAttribute::Choice(EntityAttributeChoice::Size) => after == (Entity {
                size: Some(Size::Medium),
                ..self
            }),
            _ => false,
        }
    }

    /// Gives the entity an attribute that it lacks, with the value that a
    /// new attribute has.
    pub fn add_attribute(&mut self, attr: &EntityAttribute) -> (result: Result<(), Error>)
        ensures
            attr.is_required() ==> result == Err::<(), Error>(Error::AttributeRequired(*attr))
                && *final(self) == *old(self),
            !attr.is_required() && old(self).spec_has_attribute(*attr) ==> result == Err::<
                (),
                Error,
            >(Error::AttributePresent(*attr)) && *final(self) == *old(self),
            !attr.is_required() && !old(self).spec_has_attribute(*attr) ==> result is Ok
                && old(self).spec_attribute_added(*attr, *final(self)),
    {
        match attr {
            EntityAttribute::Text(_) => Err(Error::AttributeRequired(*attr)),
            EntityAttribute::Choice(choice) => match choice {
                EntityAttributeChoice::Type => Err(Error::AttributeRequired(*attr)),
                EntityAttributeChoice::IsRooted => {
                    if self.is_rooted.is_some() {
                        Err(Error::AttributePresent(*attr))
                    } else {
                        self.is_rooted = Some(false);
                        Ok(())
                    }
                },
                EntityAttributeChoice::HasAgency => {
                    if self.has_agency.is_some() {
                        Err(Error::AttributePresent(*attr))
                    } else {
                        self.has_agency = Some(false);
                        Ok(())
                    }
                },
                EntityAttributeChoice::Allegiance => {
                    if self.allegiance.is_some() {
                        Err(Error::AttributePresent(*attr))
                    } else {
                        self.allegiance = Some(String::new());
                        Ok(())
                    }
                },
                EntityAttributeChoice::Opacity => {
                    if self.opacity.is_some() {
                        Err(Error::AttributePresent(*attr))
                    } else {
                        self.opacity = Some(Opacity::Solid);
                        Ok(())
                    }
                },
                EntityAttributeChoice::Size => {
                    if self.size.is_some() {
                        Err(Error::AttributePresent(*attr))
                    } else {
                        self.size = Some(Size::Medium);
                        Ok(())
                    }
                },
            },
        }
    }

    /// The entity without the attribute `attr`, which can be left out.
    pub open spec fn spec_without_attribute(self, attr: EntityAttribute) -> Entity {
        match attr {
            EntityAttribute::Choice(EntityAttributeChoice::IsRooted) => Entity {
                is_rooted: None,
                ..self
            },
            EntityAttribute::Choice(EntityAttributeChoice::HasAgency) => Entity {
                has_agency: None,
                ..self
            },
            EntityAttribute::Choice(EntityAttributeChoice::Allegiance) => Entity {
                allegiance: None,
                ..self
            },
            EntityAttribute::Choice(EntityAttributeChoice::Opacity) => Entity {
                opacity: None,
                ..self
            },
            EntityAttribute::Choice(EntityAttributeChoice::Size) => Entity { size: None, ..self },
            _ => self,
        }
    }

    /// Takes from the entity an attribute that it has and that can be left
    /// out.
    pub fn remove_attribute(&mut self, attr: &EntityAttribute) -> (result: Result<(), Error>)
        ensures
            attr.is_required() ==> result == Err::<(), Error>(Error::AttributeRequired(*attr))
                && *final(self) == *old(self),
            !attr.is_required() && !old(self).spec_has_attribute(*attr) ==> result == Err::<
                (),
                Error,
            >(Error::AttributeAbsent(*attr)) && *final(self) == *old(self),
            !attr.is_required() && old(self).spec_has_attribute(*attr) ==> result is Ok
                && *final(self) == old(self).spec_without_attribute(*attr),
    {
        match attr {
            EntityAttribute::Text(_) => Err(Error::AttributeRequired(*attr)),
            EntityAttribute::Choice(choice) => match choice {
                EntityAttributeChoice::Type => Err(Error::AttributeRequired(*attr)),
                EntityAttributeChoice::IsRooted => {
                    if self.is_rooted.is_none() {
                        Err(Error::AttributeAbsent(*attr))
                    } else {
                        self.is_rooted = None;
                        Ok(())
                    }
                },
                EntityAttributeChoice::HasAgency => {
                    if self.has_agency.is_none() {
                        Err(Error::AttributeAbsent(*attr))
                    } else {
                        self.has_agency = None;
                        Ok(())
                    }
                },
                EntityAttributeChoice::Allegiance => {
                    if self.allegiance.is_none() {
                        Err(Error::AttributeAbsent(*attr))
                    } else {
                        self.allegiance = None;
                        Ok(())
                    }
                },
                EntityAttributeChoice::Opacity => {
                    if self.opacity.is_none() {
                        Err(Error::AttributeAbsent(*attr))
                    } else {
                        self.opacity = None;
                        Ok(())
                    }
                },
                EntityAttributeChoice::Size => {
                    if self.size.is_none() {
                        Err(Error::AttributeAbsent(*attr))
                    } else {
                        self.size = None;
                        Ok(())
                    }
                },
            },
        }
    }

    /// Whether the inventory holds an item of the type `item`.
    pub open spec fn spec_has_item(&self, item: ItemType) -> bool {
        first_index(self.inventory@, has_type(item)) is Some
    }

    /// Whether the inventory holds the item with the id `item_id`.
    pub open spec fn spec_has_specific_item(&self, item_id: u32) -> bool {
        first_index(self.inventory@, has_id(item_id)) is Some
    }

    /// Whether the inventory holds an item of the type `item`.
    pub fn has_item(&self, item: ItemType) -> (has: bool)
        ensures
            has == self.spec_has_item(item),
            has == exists|i: int|
                0 <= i < self.inventory@.len() && (#[trigger] self.inventory@[i]).item_type == item,
    {
        let mut k: usize = 0;
        while k < self.inventory.len()
            invariant
                k <= self.inventory.len(),
                forall|j: int| 0 <= j < k ==> !has_type(item)(#[trigger] self.inventory@[j]),
            decreases self.inventory.len() - k,
        {
            if self.inventory[k].item_type == item {
                proof {
                    lemma_first_index_is(self.inventory@, has_type(item), k as int);
                }
                return true;
            }
            k += 1;
        }
        proof {
            lemma_first_index_none(self.inventory@, has_type(item));
        }
        false
    }

    /// The place in the inventory of the first item with the id `item_id`.
    pub fn find_specific_item(&self, item_id: u32) -> (index: Option<usize>)
        ensures
            index matches Some(k) ==> first_index(self.inventory@, has_id(item_id)) == Some(
                k as int,
            ) && k < self.inventory@.len() && self.inventory@[k as int].id == item_id,
            index is None ==> first_index(self.inventory@, has_id(item_id)) is None,
            index is None ==> forall|i: int|
                0 <= i < self.inventory@.len() ==> (#[trigger] self.inventory@[i]).id != item_id,
    {
        let mut k: usize = 0;
        while k < self.inventory.len()
            invariant
                k <= self.inventory.len(),
                forall|j: int| 0 <= j < k ==> !has_id(item_id)(#[trigger] self.inventory@[j]),
            decreases self.inventory.len() - k,
        {
            if self.inventory[k].id == item_id {
                proof {
                    lemma_first_index_is(self.inventory@, has_id(item_id), k as int);
                }
                return Some(k);
            }
            k += 1;
        }
        proof {
            lemma_first_index_none(self.inventory@, has_id(item_id));
        }
        None
    }

    /// Whether the inventory holds the item with the id `item_id`.
    pub fn has_specific_item(&self, item_id: u32) -> (has: bool)
        ensures
            has == self.spec_has_specific_item(item_id),
            has == exists|i: int|
                0 <= i < self.inventory@.len() && (#[trigger] self.inventory@[i]).id == item_id,
    {
        self.find_specific_item(item_id).is_some()
    }

    /// Whether the inventory has no free space.
    pub open spec fn spec_inventory_full(&self) -> bool {
        self.inventory@.len() >= self.inventory_spaces
    }

    /// What giving an item of the type `item` makes of the entity: nothing
    /// but the inventory changes. A full inventory refuses; else the item
    /// that the catalogue gives for the type comes behind the items that are
    /// there, or the catalogue's failure is the result.
    pub open spec fn spec_give_item(
        self,
        item: ItemType,
        definitions: Seq<crate::world::item::ItemData>,
        next_id: u32,
        after: Entity,
        result: Result<(), Error>,
    ) -> bool {
        &&& after == (Entity { inventory: after.inventory, ..self })
        &&& if self.spec_inventory_full() {
            result == Err::<(), Error>(Error::InventoryFull) && after.inventory@ == self.inventory@
        } else {
            match result {
                Ok(()) => after.inventory@.len() == self.inventory@.len() + 1
                    && after.inventory@.drop_last() == self.inventory@ && Item::spec_from_item_type(
                    item,
                    definitions,
                    next_id,
                    Ok(after.inventory@.last()),
                ),
                Err(e) => after.inventory@ == self.inventory@ && Item::spec_from_item_type(
                    item,
                    definitions,
                    next_id,
                    Err(e),
                ),
            }
        }
    }

    /// What giving the unique item with the id `id` makes of the entity.
    pub open spec fn spec_give_specific_item(
        self,
        id: u32,
        definitions: Seq<crate::world::item::ItemData>,
        after: Entity,
        result: Result<(), Error>,
    ) -> bool {
        &&& after == (Entity { inventory: after.inventory, ..self })
        &&& if self.spec_inventory_full() {
            result == Err::<(), Error>(Error::InventoryFull) && after.inventory@ == self.inventory@
        } else {
            match result {
                Ok(()) => after.inventory@.len() == self.inventory@.len() + 1
                    && after.inventory@.drop_last() == self.inventory@ && Item::spec_from_id(
                    id,
                    definitions,
                    Ok(after.inventory@.last()),
                ),
                Err(e) => after.inventory@ == self.inventory@ && Item::spec_from_id(
                    id,
                    definitions,
                    Err(e),
                ),
            }
        }
    }

    /// What taking the item with the id `id` makes of the entity: the first
    /// item with the id leaves the inventory, and nothing else changes.
    pub open spec fn spec_take_specific_item(
        self,
        id: u32,
        after: Entity,
        result: Result<(), Error>,
    ) -> bool {
        &&& after == (Entity { inventory: after.inventory, ..self })
        &&& match first_index(self.inventory@, has_id(id)) {
            Some(i) => result is Ok && after.inventory@ == self.inventory@.remove(i),
            None => result == Err::<(), Error>(Error::ItemNotInInventory(id)) && after.inventory@
                == self.inventory@,
        }
    }

    /// Puts an item of the type `item` into the inventory, behind the items
    /// that are there. A full inventory takes nothing, and the catalogue is
    /// then not even asked.
    pub fn give_item(&mut self, item: ItemType, catalogue: &mut ItemCatalogue) -> (result: Result<
        (),
        Error,
    >)
        requires
            old(catalogue).wf(),
        ensures
            final(catalogue).wf(),
            final(catalogue).spec_definitions() == old(catalogue).spec_definitions(),
            old(self).spec_give_item(
                item,
                old(catalogue).spec_definitions(),
                old(catalogue).spec_next_id(),
                *final(self),
                result,
            ),
            final(catalogue).spec_next_id() == if result is Ok && Item::spec_takes_next_id(
                item,
                old(catalogue).spec_definitions(),
            ) {
                old(catalogue).spec_next_id() + 1
            } else {
                old(catalogue).spec_next_id() as int
            },
    {
        if self.inventory.len() >= self.inventory_spaces {
            return Err(Error::InventoryFull);
        }
        match Item::from_item_type(item, catalogue) {
            Ok(new_item) => {
                self.inventory.push(new_item);
                assert(self.inventory@.drop_last() =~= old(self).inventory@);
                Ok(())
            },
            Err(e) => Err(e),
        }
    }

    /// Puts the unique item with the id `id` into the inventory, behind the
    /// items that are there. A full inventory takes nothing.
    pub fn give_specific_item(&mut self, id: u32, catalogue: &ItemCatalogue) -> (result: Result<
        (),
        Error,
    >)
        ensures
            old(self).spec_give_specific_item(id, catalogue.spec_definitions(), *final(self), result),
    {
        if self.inventory.len() >= self.inventory_spaces {
            return Err(Error::InventoryFull);
        }
        match Item::from_id(id, catalogue) {
            Ok(new_item) => {
                self.inventory.push(new_item);
                assert(self.inventory@.drop_last() =~= old(self).inventory@);
                Ok(())
            },
            Err(e) => Err(e),
        }
    }

    /// Takes the first item with the id `id` out of the inventory; the
    /// others keep their order.
    pub fn take_specific_item(&mut self, id: u32) -> (result: Result<(), Error>)
        ensures
            old(self).spec_take_specific_item(id, *final(self), result),
    {
        match self.find_specific_item(id) {
            Some(k) => {
                let _ = self.inventory.remove(k);
                Ok(())
            },
            None => Err(Error::ItemNotInInventory(id)),
        }
    }
}

} // verus!
