use quietude::constants::{max_coords, min_coords};
use quietude::error::{Error, ErrorKind};
use quietude::rng::TickBasedRng;
use quietude::types::{Coords3D, Coords4D, Direction3D, FormattedString, FormattedText};
use quietude::world::action::{Action, SoloAction};
use quietude::world::chunk::Chunk;
use quietude::world::conditions::WorldCondition;
use quietude::world::decision::{cooperative_action, ACTIVATION_THRESHOLD, DEFAULT_MAX_NOISE};
use quietude::world::dialogue::{
    DialogueChoice, DialogueNode, DialogueOutcome, DialoguePrecondition, DialogueStyle,
    DialogueTree,
};
use quietude::world::entity::{
    Entity, EntityAttribute, EntityAttributeChoice, EntityAttributeText, EntityType, Focus,
    Opacity, Opinion, Size, VisibilityModifier,
};
use quietude::world::item::{
    ArmourType, BookType, Item, ItemCatalogue, ItemData, ItemType, WeaponType, RESERVED_ID_COUNT,
};
use quietude::world::log::LogStyle;
use quietude::world::turn::fan;
use quietude::world::world::World;

fn definition(item_type: ItemType, name: &str, unique_id: Option<u32>) -> ItemData {
    ItemData {
        item_type,
        name: name.to_string(),
        description: String::new(),
        damage: 0,
        range: 0,
        unique_id,
    }
}

fn catalogue() -> ItemCatalogue {
    ItemCatalogue::new(vec![
        definition(ItemType::Torch, "Torch", None),
        definition(ItemType::Book(BookType::Babel), "The Library", Some(7)),
        definition(ItemType::Torch, "Second torch", Some(8)),
        definition(ItemType::Weapon(WeaponType::Zweihander), "Too long", Some(5000)),
        definition(ItemType::Book(BookType::ILoveYou), "Copy", Some(7)),
    ])
}

fn entity_at(x: i32, y: i32, z: i32) -> Entity {
    Entity::new(&Coords3D(x, y, z))
}

fn mover_at(x: i32, y: i32, z: i32) -> Entity {
    let mut entity = entity_at(x, y, z);
    entity.is_rooted = Some(false);
    entity
}

fn npc_at(x: i32, y: i32, z: i32) -> Entity {
    let mut entity = entity_at(x, y, z);
    entity.entity_type = EntityType::NpcFriendly;
    entity.has_agency = Some(true);
    entity
}

fn player_at(x: i32, y: i32, z: i32) -> Entity {
    let mut entity = entity_at(x, y, z);
    entity.entity_type = EntityType::Player;
    entity.has_agency = Some(false);
    entity
}

fn coords_of(chunk: &Chunk, id: u32) -> Coords3D {
    *chunk.get_entity_coords(id).unwrap()
}

#[test]
fn items_take_ids_from_the_catalogue() {
    let mut items = catalogue();
    assert_eq!(items.next_id(), RESERVED_ID_COUNT);
    let torch = Item::from_item_type(ItemType::Torch, &mut items).unwrap();
    assert_eq!(torch.id, 1024);
    assert_eq!(torch.item_type, ItemType::Torch);
    assert_eq!(torch.name, "Torch");
    let second = Item::from_item_type(ItemType::Torch, &mut items).unwrap();
    assert_eq!(second.id, 1025);
    assert_eq!(items.next_id(), 1026);

    let book = Item::from_item_type(ItemType::Book(BookType::Babel), &mut items).unwrap();
    assert_eq!(book.id, 7);
    assert_eq!(book.name, "The Library");
    assert_eq!(items.next_id(), 1026);

    assert_eq!(
        Item::from_item_type(ItemType::Armour(ArmourType::Cloak), &mut items),
        Err(Error::ItemTypeNotFound(ItemType::Armour(ArmourType::Cloak)))
    );
    assert_eq!(
        Item::from_item_type(ItemType::Weapon(WeaponType::Zweihander), &mut items),
        Err(Error::ReservedIdOutOfRange(5000))
    );
    assert_eq!(items.next_id(), 1026);
    assert_eq!(items.definitions().len(), 5);
}

#[test]
fn unique_items_are_found_by_id() {
    let items = catalogue();
    let book = Item::from_id(7, &items).unwrap();
    assert_eq!(book.item_type, ItemType::Book(BookType::Babel));
    assert_eq!(book.name, "The Library");
    assert_eq!(book.id, 7);
    assert_eq!(Item::from_id(8, &items).unwrap().name, "Second torch");
    assert_eq!(Item::from_id(9, &items), Err(Error::ItemIdNotFound(9)));
    assert_eq!(Item::from_id(5000, &items), Err(Error::ReservedIdOutOfRange(5000)));
    assert_eq!(items.find_id(7), Some(1));
    assert_eq!(items.find_type(ItemType::Torch), Some(0));
    assert_eq!(items.find_type(ItemType::Armour(ArmourType::Knight)), None);
}

#[test]
fn item_ids_stay_out_of_the_reserved_range() {
    let mut items = ItemCatalogue::resume(vec![], 10);
    assert_eq!(items.next_id(), RESERVED_ID_COUNT);
    let item = Item::new(ItemType::Torch, "a", &mut items).unwrap();
    assert_eq!(item.id, RESERVED_ID_COUNT);
    assert_eq!(item.clone(), item);

    let mut late = ItemCatalogue::resume(vec![], u32::MAX - 1);
    assert_eq!(Item::new(ItemType::Torch, "a", &mut late).unwrap().id, u32::MAX - 1);
    assert_eq!(Item::new(ItemType::Torch, "b", &mut late), Err(Error::ItemIdsExhausted));
    assert_eq!(late.next_id(), u32::MAX);

    assert_eq!(Item::new_with_id(ItemType::Torch, "t", 1023).unwrap().id, 1023);
    assert_eq!(
        Item::new_with_id(ItemType::Torch, "t", 1024),
        Err(Error::ReservedIdOutOfRange(1024))
    );
}

#[test]
fn item_types_have_names() {
    assert_eq!(ItemType::Torch.name(), "torch");
    assert_eq!(ItemType::Book(BookType::ILoveYou).name(), "book: ILoveYou");
    assert_eq!(ItemType::Weapon(WeaponType::BastardSword).name(), "weapon: BastardSword");
    assert_eq!(ItemType::Armour(ArmourType::Hauberk).name(), "armour: Hauberk");
}

#[test]
fn errors_have_kinds() {
    assert_eq!(Error::EntityNotFound(3).kind(), ErrorKind::NotFound);
    assert_eq!(Error::ItemIdNotFound(3).kind(), ErrorKind::NotFound);
    assert_eq!(Error::ItemNotInInventory(3).kind(), ErrorKind::NotFound);
    assert_eq!(Error::ItemTypeNotFound(ItemType::Torch).kind(), ErrorKind::NotFound);
    assert_eq!(Error::ActiveNodeNotFound.kind(), ErrorKind::NotFound);
    assert_eq!(Error::NoActiveDialogue.kind(), ErrorKind::NotFound);
    assert_eq!(Error::ChoiceOutOfRange(0).kind(), ErrorKind::NotFound);
    assert_eq!(Error::InventoryFull.kind(), ErrorKind::CapacityExceeded);
    assert_eq!(Error::ItemIdsExhausted.kind(), ErrorKind::CapacityExceeded);
    assert_eq!(Error::ReservedIdOutOfRange(2000).kind(), ErrorKind::Malformed);
    assert_eq!(Error::UnknownChoice.kind(), ErrorKind::Malformed);
    assert_eq!(Error::EmptySession.kind(), ErrorKind::InvalidState);
    assert_eq!(Error::SoloActionInInteraction.kind(), ErrorKind::InvalidState);
    assert_eq!(Error::InteractionInSoloAction.kind(), ErrorKind::InvalidState);
    assert_eq!(Error::AttributeOutOfRange(9).kind(), ErrorKind::NotFound);
    let attr = EntityAttribute::Choice(EntityAttributeChoice::Size);
    assert_eq!(Error::AttributeRequired(attr).kind(), ErrorKind::InvalidState);
    assert_eq!(Error::AttributePresent(attr).kind(), ErrorKind::InvalidState);
    assert_eq!(Error::AttributeAbsent(attr).kind(), ErrorKind::InvalidState);
}

#[test]
fn new_entities_are_blank() {
    let entity = Entity::new(&Coords3D(3, -4, 1));
    assert_eq!(entity.coords, Coords3D(3, -4, 1));
    assert_eq!(entity.entity_type, EntityType::Void);
    assert_eq!(entity.name.text(), "");
    assert_eq!(entity.description.text(), "");
    assert!(entity.is_rooted());
    assert!(!entity.has_agency());
    assert_eq!(entity.opacity(), Opacity::Solid);
    assert_eq!(entity.size(), Size::Medium);
    assert_eq!(entity.allegiance(), "None");
    assert!(entity.inventory.is_empty());
    assert_eq!(entity.inventory_spaces, 0);
    assert_eq!(entity.focus, None);
    assert_eq!(entity.attribute_count(), 3);
    assert_eq!(Entity::default(), Entity::new(&Coords3D(0, 0, 0)));
}

#[test]
fn attributes_are_added_and_removed_one_by_one() {
    let optional = [
        EntityAttributeChoice::IsRooted,
        EntityAttributeChoice::HasAgency,
        EntityAttributeChoice::Allegiance,
        EntityAttributeChoice::Opacity,
        EntityAttributeChoice::Size,
    ];
    let mut entity = entity_at(0, 0, 0);
    for (count, choice) in optional.iter().enumerate() {
        let attr = EntityAttribute::Choice(*choice);
        assert!(!entity.has_attribute(&attr));
        assert_eq!(entity.remove_attribute(&attr), Err(Error::AttributeAbsent(attr)));
        assert_eq!(entity.add_attribute(&attr), Ok(()));
        assert!(entity.has_attribute(&attr));
        assert_eq!(entity.add_attribute(&attr), Err(Error::AttributePresent(attr)));
        assert_eq!(entity.attribute_count(), 4 + count);
    }
    assert_eq!(entity.is_rooted, Some(false));
    assert_eq!(entity.has_agency, Some(false));
    assert_eq!(entity.allegiance, Some(String::new()));
    assert_eq!(entity.opacity, Some(Opacity::Solid));
    assert_eq!(entity.size, Some(Size::Medium));
    assert_eq!(entity.attribute_count(), 8);

    let agency = EntityAttribute::Choice(EntityAttributeChoice::HasAgency);
    assert_eq!(entity.remove_attribute(&agency), Ok(()));
    assert_eq!(entity.has_agency, None);
    assert_eq!(entity.is_rooted, Some(false));
    assert_eq!(entity.attribute_count(), 7);

    let mut fresh = entity_at(0, 0, 0);
    fresh.is_rooted = Some(true);
    assert_eq!(fresh.add_attribute(&agency), Ok(()));
    assert_eq!(fresh.has_agency, Some(false));

    for required in [
        EntityAttribute::Text(EntityAttributeText::Name),
        EntityAttribute::Text(EntityAttributeText::Description),
        EntityAttribute::Choice(EntityAttributeChoice::Type),
    ] {
        let before = entity_at(1, 1, 1);
        let mut entity = entity_at(1, 1, 1);
        assert!(entity.has_attribute(&required));
        assert_eq!(entity.add_attribute(&required), Err(Error::AttributeRequired(required)));
        assert_eq!(entity.remove_attribute(&required), Err(Error::AttributeRequired(required)));
        assert_eq!(entity, before);
    }
}

#[test]
fn attribute_values_are_shown_as_text() {
    let mut entity = entity_at(0, 0, 0);
    entity.entity_type = EntityType::NpcFriendly;
    entity.name = FormattedString::from(
        &None,
        FormattedText::new("Ada", LogStyle::Emphasis(quietude::types::Color::Green)),
    );
    entity.description = FormattedString::raw(&None, "A mathematician.");
    let value = |entity: &Entity, choice| {
        entity.get_attribute_value(&EntityAttribute::Choice(choice))
    };
    assert_eq!(
        entity.get_attribute_value(&EntityAttribute::Text(EntityAttributeText::Name)),
        entity.name
    );
    assert_eq!(
        entity.get_attribute_value(&EntityAttribute::Text(EntityAttributeText::Description)),
        entity.description
    );
    let shown = value(&entity, EntityAttributeChoice::Type);
    assert_eq!(shown.texts, vec![FormattedText::new("NpcFriendly", LogStyle::Value)]);
    assert_eq!(shown.origin, None);
    assert_eq!(value(&entity, EntityAttributeChoice::IsRooted).text(), "true");
    assert_eq!(value(&entity, EntityAttributeChoice::HasAgency).text(), "false");
    assert_eq!(value(&entity, EntityAttributeChoice::Allegiance).text(), "None");
    assert_eq!(value(&entity, EntityAttributeChoice::Opacity).text(), "Solid");
    assert_eq!(value(&entity, EntityAttributeChoice::Size).text(), "Medium");
    entity.is_rooted = Some(false);
    entity.has_agency = Some(true);
    entity.allegiance = Some("Crown".to_string());
    entity.opacity = Some(Opacity::MostlyTransparent);
    entity.size = Some(Size::Large);
    assert_eq!(value(&entity, EntityAttributeChoice::IsRooted).text(), "false");
    assert_eq!(value(&entity, EntityAttributeChoice::HasAgency).text(), "true");
    assert_eq!(value(&entity, EntityAttributeChoice::Allegiance).text(), "Crown");
    assert_eq!(value(&entity, EntityAttributeChoice::Opacity).text(), "MostlyTransparent");
    assert_eq!(value(&entity, EntityAttributeChoice::Size).text(), "Large");
    assert_eq!(entity.allegiance(), "Crown");
}

#[test]
fn a_full_inventory_refuses_items() {
    let mut items = catalogue();
    let mut entity = entity_at(0, 0, 0);
    entity.inventory_spaces = 1;
    assert_eq!(entity.give_item(ItemType::Torch, &mut items), Ok(()));
    assert_eq!(entity.inventory.len(), 1);
    let before = entity.inventory.clone();
    let next_id = items.next_id();

    let result = entity.give_item(ItemType::Torch, &mut items);
    assert_eq!(result, Err(Error::InventoryFull));
    assert_eq!(result.unwrap_err().kind(), ErrorKind::CapacityExceeded);
    assert_eq!(entity.inventory, before);
    assert_eq!(items.next_id(), next_id);

    assert_eq!(entity.give_specific_item(7, &items), Err(Error::InventoryFull));
    assert_eq!(entity.inventory, before);

    let mut none = entity_at(0, 0, 0);
    assert_eq!(none.give_item(ItemType::Torch, &mut items), Err(Error::InventoryFull));
    assert!(none.inventory.is_empty());
}

#[test]
fn inventories_give_and_take() {
    let mut items = catalogue();
    let mut entity = entity_at(0, 0, 0);
    entity.inventory_spaces = 4;
    assert!(!entity.has_item(ItemType::Torch));
    assert_eq!(entity.give_item(ItemType::Torch, &mut items), Ok(()));
    assert_eq!(entity.give_specific_item(7, &items), Ok(()));
    assert_eq!(entity.give_item(ItemType::Torch, &mut items), Ok(()));
    let ids: Vec<u32> = entity.inventory.iter().map(|item| item.id).collect();
    assert_eq!(ids, vec![1024, 7, 1025]);
    assert!(entity.has_item(ItemType::Torch));
    assert!(entity.has_item(ItemType::Book(BookType::Babel)));
    assert!(!entity.has_item(ItemType::Book(BookType::ILoveYou)));
    assert!(entity.has_specific_item(7));
    assert!(!entity.has_specific_item(8));
    assert_eq!(entity.find_specific_item(1025), Some(2));

    assert_eq!(
        entity.give_item(ItemType::Armour(ArmourType::Cloak), &mut items),
        Err(Error::ItemTypeNotFound(ItemType::Armour(ArmourType::Cloak)))
    );
    assert_eq!(entity.give_specific_item(99, &items), Err(Error::ItemIdNotFound(99)));
    assert_eq!(entity.inventory.len(), 3);

    assert_eq!(entity.take_specific_item(7), Ok(()));
    let ids: Vec<u32> = entity.inventory.iter().map(|item| item.id).collect();
    assert_eq!(ids, vec![1024, 1025]);
    assert_eq!(entity.take_specific_item(7), Err(Error::ItemNotInInventory(7)));
    assert_eq!(entity.inventory.len(), 2);
    assert_eq!(entity.coords, Coords3D(0, 0, 0));
}

#[test]
fn visibility_factors_count_hundredths() {
    assert_eq!(Opacity::Transparent.visibility_reduction_factor(), 0);
    assert_eq!(Opacity::MostlyTransparent.visibility_reduction_factor(), 10);
    assert_eq!(Opacity::Dense.visibility_reduction_factor(), 30);
    assert_eq!(Opacity::Solid.visibility_reduction_factor(), 100);
    assert_eq!(Size::Small.visibility_reduction_factor(), 10);
    assert_eq!(Size::Medium.visibility_reduction_factor(), 30);
    assert_eq!(Size::Large.visibility_reduction_factor(), 70);
    let mut entity = entity_at(0, 0, 0);
    assert_eq!(entity.visibility_reduction_factor(), 30);
    entity.size = Some(Size::Large);
    assert_eq!(entity.visibility_reduction_factor(), 70);
    entity.opacity = Some(Opacity::Dense);
    assert_eq!(entity.visibility_reduction_factor(), 21);
    entity.size = Some(Size::Small);
    assert_eq!(entity.visibility_reduction_factor(), 3);
    entity.opacity = Some(Opacity::Transparent);
    assert_eq!(entity.visibility_reduction_factor(), 0);
}

#[test]
fn opinions_weigh_in_millionths() {
    assert_eq!(Opinion::Love.get_weight(), 200_000);
    assert_eq!(Opinion::Friendly.get_weight(), 100_000);
    assert_eq!(Opinion::Neutral.get_weight(), 30_000);
    assert_eq!(Opinion::Enemy.get_weight(), 600_000);
    assert_eq!(Opinion::ArchNemesis.get_weight(), 800_000);
    assert_eq!(Opinion::Fear.get_weight(), 1_000_000);
    assert_eq!(ACTIVATION_THRESHOLD, 500);
    assert_eq!(DEFAULT_MAX_NOISE, 100_000);
}

#[test]
fn chunks_keep_entities_by_id() {
    let mut chunk = Chunk::new();
    assert_eq!(chunk.len(), 0);
    assert_eq!(chunk.insert_entity(5, entity_at(1, 0, 0)), None);
    assert_eq!(chunk.insert_entity(2, entity_at(2, 0, 0)), None);
    assert_eq!(chunk.insert_entity(9, entity_at(3, 0, 0)), None);
    let ids: Vec<u32> = chunk.get_entities().iter().map(|entry| entry.0).collect();
    assert_eq!(ids, vec![2, 5, 9]);
    assert_eq!(chunk.get_entity_from_id(5), Some(&entity_at(1, 0, 0)));
    assert_eq!(chunk.get_entity_from_id(4), None);
    assert_eq!(chunk.index_of(9), Some(2));
    assert_eq!(chunk.get_entity_coords(2), Some(&Coords3D(2, 0, 0)));
    assert_eq!(chunk.get_entity_coords(3), None);

    assert_eq!(chunk.insert_entity(5, entity_at(4, 0, 0)), Some(entity_at(1, 0, 0)));
    assert_eq!(chunk.len(), 3);
    assert_eq!(coords_of(&chunk, 5), Coords3D(4, 0, 0));

    assert_eq!(chunk.get_entity_from_coords(&Coords3D(3, 0, 0)), Some(&entity_at(3, 0, 0)));
    assert_eq!(chunk.get_entity_from_coords(&Coords3D(1, 0, 0)), None);
    assert_eq!(chunk.occupant(&Coords3D(4, 0, 0)), Some(1));

    chunk.get_entity_mut_from_id(9).unwrap().coords = Coords3D(4, 0, 0);
    assert_eq!(chunk.occupant(&Coords3D(4, 0, 0)), Some(1));
    chunk.get_entity_mut_from_coords(&Coords3D(4, 0, 0)).unwrap().inventory_spaces = 3;
    assert_eq!(chunk.get_entity_from_id(5).unwrap().inventory_spaces, 3);
    assert_eq!(chunk.get_entity_from_id(9).unwrap().inventory_spaces, 0);
    assert!(chunk.get_entity_mut_from_id(4).is_none());
    assert!(chunk.get_entity_mut_from_coords(&Coords3D(9, 9, 0)).is_none());

    assert_eq!(chunk.remove_entity(2), Some(entity_at(2, 0, 0)));
    assert_eq!(chunk.remove_entity(2), None);
    assert_eq!(chunk.len(), 2);
    assert_eq!(Chunk::default(), Chunk::new());

    let mut next = 40;
    assert_eq!(Chunk::from_seed(Coords4D(1, 2, 3, 4), 99, &mut next), Ok(Chunk::new()));
    assert_eq!(next, 40);
}

#[test]
fn overwrite_replaces_the_occupant_or_adds_an_entity() {
    let mut chunk = Chunk::new();
    let mut named = entity_at(9, 9, 9);
    named.entity_type = EntityType::Tree;
    assert_eq!(chunk.overwrite_entity(named, &Coords3D(1, 1, 0), 3), 4);
    let stored = chunk.get_entity_from_id(3).unwrap();
    assert_eq!(stored.coords, Coords3D(1, 1, 0));
    assert_eq!(stored.entity_type, EntityType::Tree);

    let mut grass = entity_at(1, 1, 0);
    grass.entity_type = EntityType::Grass;
    assert_eq!(chunk.overwrite_entity(grass, &Coords3D(1, 1, 0), 4), 4);
    assert_eq!(chunk.len(), 1);
    assert_eq!(chunk.get_entity_from_id(3).unwrap().entity_type, EntityType::Grass);

    assert_eq!(chunk.overwrite_entity(entity_at(0, 0, 0), &Coords3D(2, 2, 0), u32::MAX), u32::MAX);
    assert_eq!(coords_of(&chunk, u32::MAX), Coords3D(2, 2, 0));
}

#[test]
fn inspect_gives_the_description() {
    let mut chunk = Chunk::new();
    let mut entity = entity_at(0, 0, 0);
    entity.description = FormattedString::raw(&Some(Coords3D(0, 0, 0)), "An old oak.");
    let description = entity.description.clone();
    chunk.insert_entity(1, entity);
    assert_eq!(chunk.inspect_entity(1), Ok(description));
    assert_eq!(chunk.inspect_entity(2), Err(Error::EntityNotFound(2)));
    assert_eq!(chunk.inspect_entity(2).unwrap_err().kind(), ErrorKind::NotFound);
}

#[test]
fn moving_into_a_free_cell_relocates() {
    let mut chunk = Chunk::new();
    chunk.insert_entity(1, entity_at(0, 0, 0));
    chunk.insert_entity(2, entity_at(5, 5, 1));
    assert_eq!(chunk.move_entity(1, &Direction3D::Southeast), Ok(()));
    assert_eq!(coords_of(&chunk, 1), Coords3D(1, 1, 0));
    assert_eq!(coords_of(&chunk, 2), Coords3D(5, 5, 1));
    assert_eq!(chunk.move_entity(1, &Direction3D::Up), Ok(()));
    assert_eq!(coords_of(&chunk, 1), Coords3D(1, 1, 1));
    assert_eq!(chunk.move_entity(3, &Direction3D::Up), Err(Error::EntityNotFound(3)));
    assert_eq!(chunk.len(), 2);
}

#[test]
fn movement_never_leaves_the_bounds() {
    assert_eq!(max_coords(), Coords3D(31, 15, 1));
    assert_eq!(min_coords(), Coords3D(-32, -16, 0));
    let directions = [
        Direction3D::North,
        Direction3D::Northeast,
        Direction3D::East,
        Direction3D::Southeast,
        Direction3D::South,
        Direction3D::Southwest,
        Direction3D::West,
        Direction3D::Northwest,
        Direction3D::Up,
        Direction3D::Down,
    ];
    let chunk = Chunk::new();
    for corner in [Coords3D(31, 15, 1), Coords3D(-32, -16, 0), Coords3D(31, -16, 1)] {
        assert!(!chunk.is_oob(&corner));
        for direction in directions {
            let mut chunk = Chunk::new();
            chunk.insert_entity(1, mover_at(corner.0, corner.1, corner.2));
            assert_eq!(chunk.move_entity(1, &direction), Ok(()));
            let cell = coords_of(&chunk, 1);
            assert!(!chunk.is_oob(&cell));
            let stepped = corner.step(&direction).unwrap();
            if chunk.is_oob(&stepped) {
                assert_eq!(cell, corner);
            } else {
                assert_eq!(cell, stepped);
            }
        }
    }
    assert!(chunk.is_oob(&Coords3D(32, 0, 0)));
    assert!(chunk.is_oob(&Coords3D(0, -17, 0)));
    assert!(chunk.is_oob(&Coords3D(0, 0, 2)));
    assert!(chunk.is_oob(&Coords3D(0, 0, -1)));

    let mut walker = Chunk::new();
    walker.insert_entity(1, mover_at(0, 0, 0));
    let mut rng = TickBasedRng::new(3, 0);
    for _ in 0..2000 {
        let direction = directions[(rng.rand() % 10) as usize];
        assert_eq!(walker.move_entity(1, &direction), Ok(()));
        assert!(!walker.is_oob(&coords_of(&walker, 1)));
    }

    let mut stale = Chunk::new();
    stale.insert_entity(1, mover_at(i32::MAX, 0, 0));
    assert_eq!(stale.move_entity(1, &Direction3D::East), Ok(()));
    assert_eq!(coords_of(&stale, 1), Coords3D(i32::MAX, 0, 0));
}

#[test]
fn two_movers_swap_places() {
    let mut chunk = Chunk::new();
    chunk.insert_entity(1, mover_at(0, 0, 0));
    chunk.insert_entity(2, mover_at(1, 0, 0));
    chunk.insert_entity(3, mover_at(2, 0, 0));
    assert_eq!(chunk.move_entity(1, &Direction3D::East), Ok(()));
    assert_eq!(coords_of(&chunk, 1), Coords3D(1, 0, 0));
    assert_eq!(coords_of(&chunk, 2), Coords3D(0, 0, 0));
    assert_eq!(coords_of(&chunk, 3), Coords3D(2, 0, 0));
    assert_eq!(chunk.move_entity(2, &Direction3D::East), Ok(()));
    assert_eq!(coords_of(&chunk, 1), Coords3D(0, 0, 0));
    assert_eq!(coords_of(&chunk, 2), Coords3D(1, 0, 0));
}

#[test]
fn a_rooted_entity_blocks_the_swap() {
    for (mover_rooted, other_rooted) in [(true, false), (false, true), (true, true)] {
        let mut chunk = Chunk::new();
        let mut mover = entity_at(0, 0, 0);
        mover.is_rooted = Some(mover_rooted);
        let mut other = entity_at(0, 1, 0);
        other.is_rooted = Some(other_rooted);
        chunk.insert_entity(1, mover);
        chunk.insert_entity(2, other);
        assert_eq!(chunk.move_entity(1, &Direction3D::South), Ok(()));
        assert_eq!(coords_of(&chunk, 1), Coords3D(0, 0, 0));
        assert_eq!(coords_of(&chunk, 2), Coords3D(0, 1, 0));
    }
    let mut chunk = Chunk::new();
    chunk.insert_entity(1, entity_at(0, 0, 0));
    chunk.insert_entity(2, mover_at(0, 1, 0));
    assert_eq!(chunk.move_entity(1, &Direction3D::South), Ok(()));
    assert_eq!(coords_of(&chunk, 1), Coords3D(0, 0, 0));
    assert_eq!(chunk.move_entity(1, &Direction3D::North), Ok(()));
    assert_eq!(coords_of(&chunk, 1), Coords3D(0, -1, 0));
}

#[test]
fn sight_is_clear_with_nothing_between() {
    let mut chunk = Chunk::new();
    chunk.insert_entity(1, entity_at(0, 0, 0));
    chunk.insert_entity(2, entity_at(4, 0, 0));
    chunk.insert_entity(3, entity_at(4, 1, 0));
    let mut wall = entity_at(1, 0, 0);
    wall.opacity = Some(Opacity::Solid);
    wall.size = Some(Size::Large);
    chunk.insert_entity(4, wall);
    let viewer = entity_at(0, 0, 0);
    let target = entity_at(4, 0, 0);
    let mut clear = Chunk::new();
    clear.insert_entity(1, entity_at(0, 0, 0));
    clear.insert_entity(2, entity_at(4, 0, 0));
    clear.insert_entity(3, entity_at(4, 1, 0));
    assert!(viewer.can_see(&clear, &target));
    assert!(target.can_see(&clear, &viewer));
    assert!(viewer.can_see(&clear, &viewer));
    assert!(viewer.can_see(&clear, &entity_at(1, 0, 0)));
    assert!(!viewer.can_see(&chunk, &target));
    assert!(viewer.can_see(&chunk, &entity_at(1, 0, 0)));
}

#[test]
fn sight_multiplies_what_stands_between() {
    let viewer = entity_at(0, 0, 0);
    let target = entity_at(4, 0, 0);
    let seen_through = |obstacles: Vec<(Option<Opacity>, Option<Size>)>| {
        let mut chunk = Chunk::new();
        chunk.insert_entity(1, entity_at(0, 0, 0));
        chunk.insert_entity(2, entity_at(4, 0, 0));
        for (place, (opacity, size)) in obstacles.into_iter().enumerate() {
            let mut obstacle = entity_at(1 + place as i32, 0, 0);
            obstacle.opacity = opacity;
            obstacle.size = size;
            chunk.insert_entity(10 + place as u32, obstacle);
        }
        (viewer.can_see(&chunk, &target), target.can_see(&chunk, &viewer))
    };
    let solid_large = (Some(Opacity::Solid), Some(Size::Large));
    let solid_medium = (Some(Opacity::Solid), Some(Size::Medium));
    let dense_large = (Some(Opacity::Dense), Some(Size::Large));
    assert_eq!(seen_through(vec![]), (true, true));
    assert_eq!(seen_through(vec![(None, None)]), (true, true));
    assert_eq!(seen_through(vec![solid_large]), (false, false));
    assert_eq!(seen_through(vec![solid_medium]), (true, true));
    assert_eq!(seen_through(vec![dense_large]), (true, true));
    assert_eq!(seen_through(vec![(Some(Opacity::Transparent), Some(Size::Large))]), (true, true));
    assert_eq!(seen_through(vec![solid_large, solid_large]), (false, false));
    assert_eq!(seen_through(vec![solid_medium, solid_medium]), (false, false));
    assert_eq!(seen_through(vec![dense_large, dense_large]), (true, true));
    assert_eq!(seen_through(vec![dense_large, dense_large, dense_large]), (false, false));
    assert_eq!(seen_through(vec![solid_medium, solid_large]), (false, false));
    assert_eq!(seen_through(vec![solid_large, (None, None), dense_large]), (false, false));
}

#[test]
fn a_solid_large_entity_at_the_midpoint_hides_both_ends() {
    let hidden = |from: (i32, i32, i32), mid: (i32, i32, i32), to: (i32, i32, i32)| {
        let a = entity_at(from.0, from.1, from.2);
        let b = entity_at(to.0, to.1, to.2);
        let mut wall = entity_at(mid.0, mid.1, mid.2);
        wall.opacity = Some(Opacity::Solid);
        wall.size = Some(Size::Large);
        let mut chunk = Chunk::new();
        chunk.insert_entity(1, a.clone());
        chunk.insert_entity(2, b.clone());
        let open = (a.can_see(&chunk, &b), b.can_see(&chunk, &a));
        chunk.insert_entity(3, wall);
        (open, (a.can_see(&chunk, &b), b.can_see(&chunk, &a)))
    };
    assert_eq!(hidden((0, 0, 0), (2, 0, 0), (4, 0, 0)), ((true, true), (false, false)));
    assert_eq!(hidden((-3, 2, 0), (0, 0, 0), (3, -2, 0)), ((true, true), (false, false)));
    assert_eq!(hidden((0, 0, 0), (1, 1, 0), (2, 2, 0)), ((true, true), (false, false)));
    assert_eq!(hidden((-20, -10, 0), (0, 0, 0), (20, 10, 0)), ((true, true), (false, false)));
}

#[test]
fn many_faint_obstacles_add_up() {
    let viewer = entity_at(-32, 0, 0);
    let target = entity_at(31, 0, 0);
    let seen_through = |count: i32, opacity: Opacity, size: Size| {
        let mut chunk = Chunk::new();
        chunk.insert_entity(1, viewer.clone());
        chunk.insert_entity(2, target.clone());
        for place in 0..count {
            let mut obstacle = entity_at(-31 + place, 0, 0);
            obstacle.opacity = Some(opacity);
            obstacle.size = Some(size);
            chunk.insert_entity(10 + place as u32, obstacle);
        }
        viewer.can_see(&chunk, &target)
    };
    assert!(seen_through(6, Opacity::Solid, Size::Small));
    assert!(!seen_through(7, Opacity::Solid, Size::Small));
    assert!(seen_through(22, Opacity::MostlyTransparent, Size::Medium));
    assert!(!seen_through(23, Opacity::MostlyTransparent, Size::Medium));
    assert!(seen_through(62, Opacity::MostlyTransparent, Size::Small));
    assert!(seen_through(62, Opacity::Transparent, Size::Large));
}

#[test]
fn actions_follow_opinion_and_distance() {
    assert_eq!(cooperative_action(Opinion::Fear, 0, 4), Action::Flee(4));
    assert_eq!(cooperative_action(Opinion::Fear, 9000, 4), Action::Flee(4));
    for opinion in [
        Opinion::Love,
        Opinion::Friendly,
        Opinion::Neutral,
        Opinion::Enemy,
        Opinion::ArchNemesis,
    ] {
        assert_eq!(cooperative_action(opinion, 2001, 4), Action::Approach(4));
    }
    assert_eq!(cooperative_action(Opinion::Love, 2000, 4), Action::Talk(4));
    assert_eq!(cooperative_action(Opinion::Friendly, 1000, 4), Action::Talk(4));
    assert_eq!(cooperative_action(Opinion::Neutral, 0, 4), Action::Talk(4));
    assert_eq!(cooperative_action(Opinion::Enemy, 2000, 4), Action::Fight(4));
    assert_eq!(cooperative_action(Opinion::ArchNemesis, 1414, 4), Action::Fight(4));
    assert_eq!(Action::Fight(4).target(), Some(4));
    assert_eq!(Action::Flee(5).target(), Some(5));
    assert_eq!(Action::Talk(6).target(), Some(6));
    assert_eq!(Action::Approach(7).target(), Some(7));
    assert_eq!(Action::Solo(SoloAction::Wander).target(), None);
}

#[test]
fn scores_weigh_distance_and_opinion() {
    let viewer = entity_at(0, 0, 0);
    assert_eq!(viewer.score(&entity_at(0, 0, 0)), 0);
    assert_eq!(viewer.score(&entity_at(1, 0, 0)), 30_000);
    assert_eq!(viewer.score(&entity_at(0, 2, 0)), 15_000);
    assert_eq!(viewer.score(&entity_at(3, 0, 0)), 10_000);
    assert_eq!(viewer.score(&entity_at(1, 0, 1)), 21_213);
    assert_eq!(viewer.score(&entity_at(60, 0, 0)), 500);
    assert_eq!(viewer.score(&entity_at(61, 0, 0)), 491);
    assert_eq!(viewer.score(&entity_at(36, 12, 48)), 416);
    assert_eq!(viewer.score(&entity_at(3, 1, 4)), 5_000);
    assert_eq!(viewer.find_opinion(&entity_at(1, 0, 0)), Opinion::Neutral);
    assert_eq!(
        viewer.generate_solo_focus(9),
        Focus { action: Action::Solo(SoloAction::Wander), tick_born: 9 }
    );
    assert_eq!(
        viewer.generate_cooperative_focus(3, &entity_at(2, 0, 0), 9),
        Focus { action: Action::Talk(3), tick_born: 9 }
    );
    assert_eq!(
        viewer.generate_cooperative_focus(3, &entity_at(2, 1, 0), 9),
        Focus { action: Action::Approach(3), tick_born: 9 }
    );
}

#[test]
fn a_new_focus_goes_to_the_best_candidate() {
    let mut chunk = Chunk::new();
    chunk.insert_entity(7, npc_at(0, 0, 0));
    let viewer = npc_at(0, 0, 0);
    let mut rng = TickBasedRng::new(1, 0);
    assert_eq!(
        viewer.find_new_focus(7, &chunk, &mut rng, 3, 0),
        Focus { action: Action::Solo(SoloAction::Wander), tick_born: 3 }
    );
    assert_eq!(rng, TickBasedRng::new(1, 0));

    chunk.insert_entity(9, entity_at(0, 3, 0));
    chunk.insert_entity(2, entity_at(-2, 0, 0));
    chunk.insert_entity(4, entity_at(0, -2, 0));
    chunk.insert_entity(5, entity_at(40, 0, 0));
    let focus = viewer.find_new_focus(7, &chunk, &mut rng, 3, 0);
    assert_eq!(focus, Focus { action: Action::Talk(2), tick_born: 3 });
    assert_eq!(rng.num, Some(0x1000_0000));

    let mut far = Chunk::new();
    far.insert_entity(7, npc_at(0, 0, 0));
    far.insert_entity(1, entity_at(0, 61, 0));
    let mut rng = TickBasedRng::new(1, 0);
    assert_eq!(
        viewer.find_new_focus(7, &far, &mut rng, 0, 0),
        Focus { action: Action::Solo(SoloAction::Wander), tick_born: 0 }
    );
    assert_eq!(rng.num, Some(0x8000_0000));

    let mut hidden = Chunk::new();
    hidden.insert_entity(7, npc_at(0, 0, 0));
    let mut wall = entity_at(2, 0, 0);
    wall.opacity = Some(Opacity::Solid);
    wall.size = Some(Size::Large);
    hidden.insert_entity(1, wall);
    hidden.insert_entity(2, entity_at(4, 0, 0));
    let mut rng = TickBasedRng::new(1, 0);
    assert_eq!(
        viewer.find_new_focus(7, &hidden, &mut rng, 0, 0),
        Focus { action: Action::Talk(1), tick_born: 0 }
    );
    assert_eq!(rng.num, Some(0x8000_0000));

    let mut seen = Chunk::new();
    seen.insert_entity(7, npc_at(0, 0, 0));
    seen.insert_entity(1, entity_at(2, 0, 0));
    seen.insert_entity(2, entity_at(4, 0, 0));
    let mut rng = TickBasedRng::new(1, 0);
    assert_eq!(
        viewer.find_new_focus(7, &seen, &mut rng, 0, 0),
        Focus { action: Action::Talk(1), tick_born: 0 }
    );
    assert_eq!(rng.num, Some(0x4000_0000));

    let mut edge = Chunk::new();
    edge.insert_entity(7, npc_at(-30, 0, 0));
    edge.insert_entity(1, entity_at(30, 0, 0));
    let at_edge = npc_at(-30, 0, 0);
    let mut rng = TickBasedRng::new(1, 0);
    assert_eq!(
        at_edge.find_new_focus(7, &edge, &mut rng, 0, 0),
        Focus { action: Action::Approach(1), tick_born: 0 }
    );
    edge.insert_entity(1, entity_at(31, 0, 0));
    let mut rng = TickBasedRng::new(1, 0);
    assert_eq!(
        at_edge.find_new_focus(7, &edge, &mut rng, 0, 0),
        Focus { action: Action::Solo(SoloAction::Wander), tick_born: 0 }
    );
}

#[test]
fn noise_can_change_the_winner_but_not_the_replay() {
    let mut chunk = Chunk::new();
    chunk.insert_entity(7, npc_at(0, 0, 0));
    chunk.insert_entity(1, entity_at(1, 0, 0));
    chunk.insert_entity(2, entity_at(0, 1, 0));
    let viewer = npc_at(0, 0, 0);
    let run = |seed: u32, tick: u32| {
        let mut rng = TickBasedRng::new(seed, tick);
        let focus = viewer.find_new_focus(7, &chunk, &mut rng, tick, 100_000);
        (focus, rng)
    };
    assert_eq!(run(0, 0), run(0, 0));
    assert_eq!(run(0, 0).0, Focus { action: Action::Talk(1), tick_born: 0 });
    assert_eq!(run(5, 0).0, Focus { action: Action::Talk(2), tick_born: 0 });
    assert_eq!(run(6, 0).0, Focus { action: Action::Solo(SoloAction::Wander), tick_born: 0 });
}

#[test]
fn fans_hold_a_direction_and_its_neighbours() {
    assert_eq!(
        fan(Direction3D::North),
        vec![Direction3D::North, Direction3D::Northeast, Direction3D::Northwest]
    );
    assert_eq!(
        fan(Direction3D::Northeast),
        vec![Direction3D::Northeast, Direction3D::North, Direction3D::East]
    );
    assert_eq!(
        fan(Direction3D::East),
        vec![Direction3D::East, Direction3D::Northeast, Direction3D::Southeast]
    );
    assert_eq!(
        fan(Direction3D::Southeast),
        vec![Direction3D::Southeast, Direction3D::East, Direction3D::South]
    );
    assert_eq!(
        fan(Direction3D::South),
        vec![Direction3D::South, Direction3D::Southeast, Direction3D::Southwest]
    );
    assert_eq!(
        fan(Direction3D::Southwest),
        vec![Direction3D::Southwest, Direction3D::South, Direction3D::West]
    );
    assert_eq!(
        fan(Direction3D::West),
        vec![Direction3D::West, Direction3D::Southwest, Direction3D::Northwest]
    );
    assert_eq!(
        fan(Direction3D::Northwest),
        vec![Direction3D::Northwest, Direction3D::West, Direction3D::North]
    );
    assert_eq!(fan(Direction3D::Up), vec![Direction3D::Up]);
    assert_eq!(fan(Direction3D::Down), vec![Direction3D::Down]);
}

#[test]
fn fleeing_leads_away_and_approaching_leads_closer() {
    let target = Coords3D(5, 0, 0);
    let mut chunk = Chunk::new();
    chunk.insert_entity(1, mover_at(0, 0, 0));
    let mut rng = TickBasedRng::new(1, 0);
    assert_eq!(chunk.approach(1, &target, &mut rng), Ok(None));
    assert_eq!(coords_of(&chunk, 1), Coords3D(1, 1, 0));
    assert_eq!(rng.num, Some(0x8000_0000));
    assert_eq!(chunk.approach(1, &target, &mut rng), Ok(None));
    assert_eq!(coords_of(&chunk, 1), Coords3D(2, 0, 0));
    assert_eq!(chunk.approach(1, &target, &mut rng), Ok(None));
    assert_eq!(coords_of(&chunk, 1), Coords3D(3, 1, 0));

    let mut chunk = Chunk::new();
    chunk.insert_entity(1, mover_at(0, 0, 0));
    let mut rng = TickBasedRng::new(1, 0);
    assert_eq!(chunk.flee(1, &target, &mut rng), Ok(None));
    assert_eq!(coords_of(&chunk, 1), Coords3D(-1, -1, 0));

    let mut below = Chunk::new();
    below.insert_entity(1, mover_at(0, 0, 0));
    assert_eq!(below.approach(1, &Coords3D(0, 0, 1), &mut rng), Ok(None));
    assert_eq!(coords_of(&below, 1), Coords3D(0, 0, 1));
    assert_eq!(below.flee(1, &Coords3D(0, 0, 0), &mut rng), Ok(None));
    assert_eq!(coords_of(&below, 1), Coords3D(0, 0, 1));

    let before = rng;
    assert_eq!(below.flee(2, &target, &mut rng), Err(Error::EntityNotFound(2)));
    assert_eq!(below.approach(2, &target, &mut rng), Err(Error::EntityNotFound(2)));
    assert_eq!(rng, before);
}

#[test]
fn actions_are_resolved_where_they_belong() {
    let mut chunk = Chunk::new();
    chunk.insert_entity(1, mover_at(0, 0, 0));
    chunk.insert_entity(2, entity_at(3, 0, 0));
    let mut rng = TickBasedRng::new(1, 0);
    let talk = Focus { action: Action::Talk(2), tick_born: 0 };
    let fight = Focus { action: Action::Fight(2), tick_born: 0 };
    let wander = Focus { action: Action::Solo(SoloAction::Wander), tick_born: 0 };
    let lost = Focus { action: Action::Approach(8), tick_born: 0 };
    let untouched = TickBasedRng::new(1, 0);

    assert_eq!(chunk.entity_interaction(1, &mut rng, &talk, 0), Ok(None));
    assert_eq!(chunk.entity_interaction(1, &mut rng, &fight, 0), Ok(None));
    assert_eq!(coords_of(&chunk, 1), Coords3D(0, 0, 0));
    assert_eq!(
        chunk.entity_interaction(1, &mut rng, &wander, 0),
        Err(Error::SoloActionInInteraction)
    );
    assert_eq!(
        chunk.entity_interaction(1, &mut rng, &lost, 0),
        Err(Error::EntityNotFound(8))
    );
    assert_eq!(
        chunk.entity_interaction(9, &mut rng, &talk, 0),
        Err(Error::EntityNotFound(9))
    );
    assert_eq!(
        chunk.entity_take_solo_action(1, &mut rng, &talk, 0),
        Err(Error::InteractionInSoloAction)
    );
    assert_eq!(rng, untouched);

    assert_eq!(chunk.entity_take_solo_action(1, &mut rng, &wander, 0), Ok(None));
    assert_eq!(coords_of(&chunk, 1), Coords3D(-1, 0, 0));
    assert_eq!(
        chunk.entity_take_solo_action(9, &mut rng, &wander, 0),
        Err(Error::EntityNotFound(9))
    );
    assert_eq!(chunk.npc_turn(9, &mut rng, 0, 0), Err(Error::EntityNotFound(9)));
}

#[test]
fn nothing_happens_without_agency() {
    let mut world = World::from_seed(17).unwrap();
    world.active_chunk.insert_entity(1, player_at(3, 4, 0));
    assert_eq!(world.pass_time(5), Ok(()));
    assert!(world.messages.is_empty());
    assert_eq!(coords_of(&world.active_chunk, 1), Coords3D(3, 4, 0));
    assert_eq!(world.active_chunk.get_entity_from_id(1), Some(&player_at(3, 4, 0)));
    assert_eq!(world.tick, 5);
    assert_eq!(world.rng, TickBasedRng { num: None, tick: 5, seed: 17 });
}

#[test]
fn a_neighbour_is_talked_to() {
    let mut world = World::from_seed(17).unwrap();
    world.max_noise = 0;
    world.active_chunk.insert_entity(1, player_at(1, 0, 0));
    world.active_chunk.insert_entity(10, npc_at(0, 0, 0));
    assert_eq!(world.pass_time(1), Ok(()));
    let npc = world.active_chunk.get_entity_from_id(10).unwrap();
    assert_eq!(npc.focus, Some(Focus { action: Action::Talk(1), tick_born: 0 }));
    assert_eq!(npc.coords, Coords3D(0, 0, 0));
    assert_eq!(world.active_chunk.get_entity_from_id(1), Some(&player_at(1, 0, 0)));
    assert!(world.messages.is_empty());
    assert_eq!(world.tick, 1);

    assert_eq!(world.pass_time(3), Ok(()));
    let npc = world.active_chunk.get_entity_from_id(10).unwrap();
    assert_eq!(npc.focus, Some(Focus { action: Action::Talk(1), tick_born: 0 }));
    assert_eq!(world.tick, 4);
}

#[test]
fn an_entity_out_of_reach_is_approached() {
    let mut world = World::from_seed(1).unwrap();
    world.max_noise = 0;
    world.active_chunk.insert_entity(1, player_at(5, 0, 0));
    world.active_chunk.insert_entity(10, npc_at(0, 0, 0));
    assert_eq!(world.pass_time(2), Ok(()));
    let npc = world.active_chunk.get_entity_from_id(10).unwrap();
    assert_eq!(npc.focus, Some(Focus { action: Action::Approach(1), tick_born: 0 }));
    assert_eq!(npc.coords, Coords3D(2, 0, 0));
    assert_eq!(coords_of(&world.active_chunk, 1), Coords3D(5, 0, 0));
    assert_eq!(world.tick, 2);
    assert_eq!(world.rng, TickBasedRng { num: None, tick: 2, seed: 1 });
}

#[test]
fn a_lone_entity_wanders() {
    let mut world = World::from_seed(1).unwrap();
    world.active_chunk.insert_entity(5, npc_at(0, 0, 0));
    assert_eq!(world.pass_time(1), Ok(()));
    let npc = world.active_chunk.get_entity_from_id(5).unwrap();
    assert_eq!(npc.focus, Some(Focus { action: Action::Solo(SoloAction::Wander), tick_born: 0 }));
    assert_eq!(npc.coords, Coords3D(-1, 0, 0));
    assert_eq!(world.pass_time(1), Ok(()));
    assert_eq!(coords_of(&world.active_chunk, 5), Coords3D(-1, 1, 0));
    assert_eq!(world.tick, 2);

    let mut replay = World::from_seed(1).unwrap();
    replay.active_chunk.insert_entity(5, npc_at(0, 0, 0));
    replay.pass_time(1).unwrap();
    replay.pass_time(1).unwrap();
    assert_eq!(replay, world);
}

#[test]
fn a_failing_turn_ends_the_tick() {
    let mut world = World::from_seed(1).unwrap();
    let mut first = npc_at(0, 0, 0);
    first.focus = Some(Focus { action: Action::Talk(99), tick_born: 0 });
    world.active_chunk.insert_entity(1, first);
    world.active_chunk.insert_entity(2, npc_at(1, 1, 0));
    assert_eq!(world.pass_time(2), Err(Error::EntityNotFound(99)));
    assert_eq!(world.tick, 0);
    assert_eq!(world.active_chunk.get_entity_from_id(2), Some(&npc_at(1, 1, 0)));
    assert_eq!(world.rng, TickBasedRng::new(1, 0));

    let mut chunk = Chunk::new();
    chunk.insert_entity(1, npc_at(0, 0, 0));
    let mut late = npc_at(1, 1, 0);
    late.focus = Some(Focus { action: Action::Flee(99), tick_born: 0 });
    chunk.insert_entity(2, late);
    let mut rng = TickBasedRng::new(1, 0);
    assert_eq!(chunk.pass_tick(&mut rng, 0, 0), Err(Error::EntityNotFound(99)));
    assert!(chunk.get_entity_from_id(1).unwrap().focus.is_some());
    assert!(rng.num.is_some());
}

fn gated_tree() -> (String, Vec<DialogueNode>) {
    let gated = DialogueChoice::new(
        FormattedString::raw(&None, "Tell me of the isles."),
        vec![DialoguePrecondition::WorldConditionIsActive(WorldCondition::DiscoveredTimeIsles)],
        vec![
            DialogueOutcome::GiveInterlocutorItem(ItemType::Torch),
            DialogueOutcome::RemoveWorldCondition(WorldCondition::DiscoveredTimeIsles),
        ],
        "isles",
    );
    let start = DialogueNode::new(
        "start",
        FormattedString::raw(&None, "Well met."),
        vec![gated],
    );
    let back = DialogueChoice::new(FormattedString::raw(&None, "Back."), vec![], vec![], "start");
    let greedy = DialogueChoice::new(
        FormattedString::raw(&None, "More."),
        vec![DialoguePrecondition::InterlocutorHasItem(ItemType::Torch)],
        vec![
            DialogueOutcome::AddWorldCondition(WorldCondition::DiscoveredTimeIsles),
            DialogueOutcome::GiveInterlocutorSpecificItem(7),
            DialogueOutcome::TakeInterlocutorSpecificItem(1024),
        ],
        "nowhere",
    );
    let isles = DialogueNode::new(
        "isles",
        FormattedString::raw(&None, "They lie west."),
        vec![back, greedy],
    );
    ("Elder".to_string(), vec![start, isles])
}

fn talking_world() -> World {
    let mut world = World::from_seed(3).unwrap();
    world.items = catalogue();
    let mut player = player_at(0, 0, 0);
    player.inventory_spaces = 1;
    world.active_chunk.insert_entity(1, player);
    world.active_chunk.insert_entity(2, npc_at(1, 0, 0));
    let (name, nodes) = gated_tree();
    assert_eq!(world.begin_dialogue(2, 1, name, nodes), Ok(()));
    world
}

fn open_texts(world: &World) -> Vec<String> {
    let node = world.dialogue_tree.as_ref().unwrap().get_active_node().unwrap();
    node.choices_text(world).unwrap().iter().map(|text| text.text()).collect()
}

#[test]
fn a_condition_opens_a_choice() {
    let mut world = talking_world();
    let tree = world.dialogue_tree.as_ref().unwrap();
    assert_eq!(tree.speaker_name, "Elder");
    assert_eq!(tree.speaker_id, 2);
    assert_eq!(tree.interlocutor_id, 1);
    assert_eq!(tree.active_node_name, "start");
    assert_eq!(tree.get_active_node().unwrap().speaker_dialogue().text(), "Well met.");

    assert!(open_texts(&world).is_empty());
    assert!(tree.get_active_node().unwrap().choices(&world).unwrap().is_empty());
    assert_eq!(tree.get_active_node().unwrap().choices_count_unconditional(), 1);
    assert_eq!(
        tree.get_active_node().unwrap().choices_text_unconditional().unwrap()[0].text(),
        "Tell me of the isles."
    );
    let before = talking_world();
    assert_eq!(world.make_dialogue_choice(0), Err(Error::ChoiceOutOfRange(0)));
    assert_eq!(world, before);

    world.add_condition(WorldCondition::DiscoveredTimeIsles);
    assert_eq!(open_texts(&world), vec!["Tell me of the isles."]);
    assert_eq!(world.make_dialogue_choice(1), Err(Error::ChoiceOutOfRange(1)));
    assert_eq!(world.make_dialogue_choice(0), Ok(()));
    assert_eq!(world.dialogue_tree.as_ref().unwrap().active_node_name, "isles");
    let player = world.active_chunk.get_entity_from_id(1).unwrap();
    assert_eq!(player.inventory.len(), 1);
    assert_eq!(player.inventory[0].id, 1024);
    assert_eq!(player.inventory[0].item_type, ItemType::Torch);
    assert!(!world.has_condition(WorldCondition::DiscoveredTimeIsles));
    assert_eq!(open_texts(&world), vec!["Back.", "More."]);
}

#[test]
fn a_failing_outcome_keeps_what_was_done() {
    let mut world = talking_world();
    world.add_condition(WorldCondition::DiscoveredTimeIsles);
    world.make_dialogue_choice(0).unwrap();
    assert_eq!(world.make_dialogue_choice(1), Err(Error::InventoryFull));
    assert!(world.has_condition(WorldCondition::DiscoveredTimeIsles));
    assert_eq!(world.dialogue_tree.as_ref().unwrap().active_node_name, "isles");
    assert_eq!(world.active_chunk.get_entity_from_id(1).unwrap().inventory.len(), 1);

    world.active_chunk.get_entity_mut_from_id(1).unwrap().inventory_spaces = 2;
    assert_eq!(world.make_dialogue_choice(1), Ok(()));
    let ids: Vec<u32> = world
        .active_chunk
        .get_entity_from_id(1)
        .unwrap()
        .inventory
        .iter()
        .map(|item| item.id)
        .collect();
    assert_eq!(ids, vec![7]);
    let tree = world.dialogue_tree.as_ref().unwrap();
    assert_eq!(tree.active_node_name, "nowhere");
    assert_eq!(tree.get_active_node(), Err(Error::ActiveNodeNotFound));
    assert_eq!(world.make_dialogue_choice(0), Err(Error::ActiveNodeNotFound));
    assert_eq!(Error::ActiveNodeNotFound.kind(), ErrorKind::NotFound);
}

#[test]
fn dialogue_needs_the_talkers() {
    let mut silent = World::from_seed(3).unwrap();
    assert_eq!(silent.make_dialogue_choice(0), Err(Error::NoActiveDialogue));
    assert_eq!(
        silent.activate_dialogue_outcome(&DialogueOutcome::AddWorldCondition(
            WorldCondition::DiscoveredTimeIsles
        )),
        Err(Error::NoActiveDialogue)
    );
    assert!(!silent.has_condition(WorldCondition::DiscoveredTimeIsles));
    assert_eq!(
        DialoguePrecondition::WorldConditionIsInactive(WorldCondition::DiscoveredTimeIsles)
            .is_met(&silent),
        Err(Error::NoActiveDialogue)
    );

    let mut world = talking_world();
    assert_eq!(
        DialoguePrecondition::WorldConditionIsInactive(WorldCondition::DiscoveredTimeIsles)
            .is_met(&world),
        Ok(true)
    );
    assert_eq!(
        DialoguePrecondition::InterlocutorHasItem(ItemType::Torch).is_met(&world),
        Ok(false)
    );
    assert_eq!(
        DialoguePrecondition::InterlocutorHasSpecificItem(7).is_met(&world),
        Ok(false)
    );
    world.active_chunk.remove_entity(1);
    assert_eq!(
        DialoguePrecondition::InterlocutorHasItem(ItemType::Torch).is_met(&world),
        Err(Error::EntityNotFound(1))
    );
    assert_eq!(
        world.activate_dialogue_outcome(&DialogueOutcome::GiveInterlocutorItem(ItemType::Torch)),
        Err(Error::EntityNotFound(1))
    );
    assert_eq!(
        world.activate_dialogue_outcome(&DialogueOutcome::TakeInterlocutorSpecificItem(4)),
        Err(Error::EntityNotFound(1))
    );
    world.add_condition(WorldCondition::DiscoveredTimeIsles);
    assert_eq!(world.make_dialogue_choice(0), Err(Error::EntityNotFound(1)));
    assert_eq!(world.dialogue_tree.as_ref().unwrap().active_node_name, "start");
    world.end_dialogue();
    assert_eq!(world.dialogue_tree, None);
}

#[test]
fn dialogue_trees_are_rebuilt_from_what_is_kept() {
    let (name, nodes) = gated_tree();
    let mut tree = DialogueTree::from_entity_name(4, 5, name, nodes).unwrap();
    tree.make_choice("isles");
    assert_eq!(tree.active_node_name, "isles");
    let (kept_name, kept_nodes) = tree.save();
    assert_eq!(kept_name, "Elder");
    assert_eq!(kept_nodes.len(), 2);
    let (name, nodes) = gated_tree();
    assert_eq!(kept_nodes, &nodes);
    let rebuilt = DialogueTree::from_entity_name(4, 5, name, nodes).unwrap();
    tree.make_choice("start");
    assert_eq!(rebuilt, tree);

    let empty = DialogueTree::new("Nobody");
    assert_eq!(empty.speaker_name, "Nobody");
    assert_eq!(empty.active_node_name, "start");
    assert!(empty.nodes.is_empty());
    assert_eq!((empty.speaker_id, empty.interlocutor_id), (0, 0));
    assert_eq!(empty.get_active_node(), Err(Error::ActiveNodeNotFound));
    assert_eq!(DialogueStyle::Default, DialogueStyle::Default);
}

#[test]
fn conditions_are_set_once() {
    let mut world = World::default();
    let isles = WorldCondition::DiscoveredTimeIsles;
    assert!(!world.has_condition(isles));
    world.remove_condition(isles);
    assert!(world.conditions.is_empty());
    world.add_condition(isles);
    world.add_condition(isles);
    assert_eq!(world.conditions, vec![isles]);
    assert!(world.has_condition(isles));
    world.remove_condition(isles);
    assert!(!world.has_condition(isles));
    assert!(world.conditions.is_empty());
}

#[test]
fn worlds_start_empty() {
    let world = World::from_seed(77).unwrap();
    assert_eq!(world.seed, 77);
    assert_eq!(world.savename, None);
    assert_eq!(world.active_chunk, Chunk::new());
    assert_eq!(world.chunk_coords, Coords4D(0, 0, 0, 0));
    assert_eq!(world.tick, 0);
    assert_eq!(world.rng, TickBasedRng::new(77, 0));
    assert!(!world.pass_tick);
    assert!(world.messages.is_empty());
    assert_eq!(world.next_entity_id, u32::MAX / 2);
    assert!(world.log.contents.is_empty());
    assert_eq!(world.dialogue_tree, None);
    assert!(world.conditions.is_empty());
    assert_eq!(world.max_noise, DEFAULT_MAX_NOISE);

    let default = World::default();
    assert_eq!(default.seed, 0);
    assert_eq!(default.next_entity_id, 0);
    assert_eq!(default, World::default());
}

#[test]
fn a_world_is_loaded_or_grown_anew() {
    let mut loaded = World::from_seed(5).unwrap();
    loaded.tick = 12;
    loaded.set_savename("spring");
    let mut same = World::from_seed(5).unwrap();
    same.tick = 12;
    same.set_savename("spring");
    assert_eq!(World::new(Some(loaded)), Ok(same));

    let grown = World::new(None).unwrap();
    assert_eq!(grown, World::from_seed(grown.seed).unwrap());
    let seeds: Vec<u32> = (0..8).map(|_| World::new(None).unwrap().seed).collect();
    assert!(seeds.iter().any(|seed| *seed != seeds[0]));
}

#[test]
fn worlds_change_chunks_and_names() {
    let mut world = World::from_seed(77).unwrap();
    world.active_chunk.insert_entity(1, entity_at(0, 0, 0));
    let first = {
        let mut chunk = Chunk::new();
        chunk.insert_entity(1, entity_at(0, 0, 0));
        chunk
    };
    let mut second = Chunk::new();
    second.insert_entity(2, entity_at(1, 1, 1));

    let (name, kept) = world.add_chunk(Chunk::new());
    assert_eq!(name, "world/0,0,0,0.json");
    assert_eq!(kept, first);
    assert_eq!(world.active_chunk, Chunk::new());

    let (name, kept) = world.add_chunk_in_dir("/tmp/project/", first);
    assert_eq!(name, "/tmp/project/world/0,0,0,0.json");
    assert_eq!(kept, Chunk::new());

    let (name, kept) = world.change_to_chunk(Coords4D(1, 0, -1, 0), Some(second)).unwrap();
    assert_eq!(name, "world/0,0,0,0.json");
    assert_eq!(kept.len(), 1);
    assert_eq!(world.chunk_coords, Coords4D(1, 0, -1, 0));
    assert_eq!(coords_of(&world.active_chunk, 2), Coords3D(1, 1, 1));

    let (name, kept) = world.change_to_chunk(Coords4D(0, 0, 0, 2), None).unwrap();
    assert_eq!(name, "world/1,0,-1,0.json");
    assert_eq!(kept.len(), 1);
    assert_eq!(world.active_chunk, Chunk::new());
    assert_eq!(world.next_entity_id, u32::MAX / 2);

    assert_eq!(world.save_name(), "world");
    world.set_savename("autumn");
    assert_eq!(world.savename, Some("autumn".to_string()));
    assert_eq!(world.save_name(), "autumn");
    world.tick = 9;
    let kept = world.save_world();
    assert_eq!(kept.seed, 77);
    assert_eq!(kept.savename, &Some("autumn".to_string()));
    assert_eq!(kept.active_chunk, &Chunk::new());
    assert_eq!(kept.chunk_coords, Coords4D(0, 0, 0, 2));
    assert_eq!(kept.tick, 9);
    assert_eq!(kept.next_entity_id, u32::MAX / 2);
}
