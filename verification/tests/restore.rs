use quietude::constants::{MAX_NAME_LENGTH, MIN_NAME_LENGTH};
use quietude::types::{Coords3D, Coords4D};
use quietude::ui::utils::{name_length, NameLength};
use quietude::world::chunk::Chunk;
use quietude::world::conditions::WorldCondition;
use quietude::world::entity::Entity;
use quietude::world::item::{ItemCatalogue, ItemData, ItemType};
use quietude::world::world::World;

fn torches() -> ItemCatalogue {
    ItemCatalogue::new(vec![ItemData {
        item_type: ItemType::Torch,
        name: "Torch".to_string(),
        description: String::new(),
        damage: 0,
        range: 0,
        unique_id: None,
    }])
}

fn carrier(x: i32, y: i32, items: &mut ItemCatalogue, count: usize) -> Entity {
    let mut entity = Entity::new(&Coords3D(x, y, 0));
    entity.inventory_spaces = 4;
    for _ in 0..count {
        assert_eq!(entity.give_item(ItemType::Torch, items), Ok(()));
    }
    entity
}

fn populated() -> Chunk {
    let mut items = torches();
    let mut chunk = Chunk::new();
    chunk.insert_entity(7, carrier(1, 1, &mut items, 2));
    chunk.insert_entity(3, carrier(2, 1, &mut items, 1));
    chunk.insert_entity(9, carrier(3, 1, &mut items, 3));
    chunk
}

#[test]
fn a_chunk_made_again_of_its_entities_is_the_same() {
    let chunk = populated();
    let rebuilt = Chunk::from_entities(chunk.get_entities().clone());
    assert_eq!(rebuilt, chunk);
    assert_eq!(rebuilt.get_entities().len(), 3);
    assert_eq!(rebuilt.get_entity_from_id(7).unwrap().inventory.len(), 2);
    assert_eq!(rebuilt.get_entity_from_id(9).unwrap().inventory.len(), 3);
    assert_eq!(Chunk::from_entities(Vec::new()), Chunk::new());
}

#[test]
fn entities_are_gathered_in_the_order_of_their_ids() {
    let mut shuffled = populated().get_entities().clone();
    shuffled.reverse();
    let rebuilt = Chunk::from_entities(shuffled);
    assert_eq!(rebuilt, populated());
    let ids: Vec<u32> = rebuilt.get_entities().iter().map(|entry| entry.0).collect();
    assert_eq!(ids, vec![3, 7, 9]);
    let twice = Chunk::from_entities(vec![
        (4, Entity::new(&Coords3D(0, 0, 0))),
        (2, Entity::new(&Coords3D(1, 0, 0))),
        (4, Entity::new(&Coords3D(5, 5, 0))),
    ]);
    assert_eq!(twice.get_entities().len(), 2);
    assert_eq!(twice.get_entity_from_id(4).unwrap().coords, Coords3D(5, 5, 0));
    assert!(twice.is_wf());
}

fn restored(world: &World) -> World {
    let kept = world.save_world();
    World::restore(
        kept.seed,
        kept.savename.clone(),
        Chunk::from_entities(kept.active_chunk.get_entities().clone()),
        kept.chunk_coords,
        kept.tick,
        kept.next_entity_id,
    )
}

#[test]
fn a_new_world_is_restored_as_it_was() {
    let world = World::default();
    assert_eq!(restored(&world), world);
    assert!(restored(&world).is_wf());
}

#[test]
fn a_restored_world_holds_what_was_kept_and_nothing_else() {
    let mut world = World::from_seed(77).unwrap();
    world.set_savename("ours");
    world.active_chunk = populated();
    world.chunk_coords = Coords4D(1, -2, 0, 3);
    world.add_condition(WorldCondition::DiscoveredTimeIsles);
    assert_eq!(world.pass_time(4), Ok(()));
    let back = restored(&world);
    assert_eq!(back.seed, 77);
    assert_eq!(back.savename, Some("ours".to_string()));
    assert_eq!(back.active_chunk, world.active_chunk);
    assert_eq!(back.chunk_coords, Coords4D(1, -2, 0, 3));
    assert_eq!(back.tick, 4);
    assert_eq!(back.next_entity_id, u32::MAX / 2);
    assert_eq!(back.conditions, Vec::new());
    assert_eq!(back.rng, World::default().rng);
    assert_eq!(restored(&back), back);
}

#[test]
fn worlds_and_chunks_tell_whether_they_are_in_order() {
    let mut world = World::default();
    assert!(world.is_wf());
    assert!(world.active_chunk.is_wf());
    assert!(world.items.is_wf());
    world.active_chunk = populated();
    world.add_condition(WorldCondition::DiscoveredTimeIsles);
    world.add_condition(WorldCondition::DiscoveredTimeIsles);
    assert!(world.is_wf());
    world.conditions.push(WorldCondition::DiscoveredTimeIsles);
    assert!(!world.is_wf());
    world.conditions.pop();
    assert!(world.is_wf());
}

#[test]
fn names_have_a_least_and_a_largest_length() {
    assert_eq!(MIN_NAME_LENGTH, 1);
    assert_eq!(MAX_NAME_LENGTH, 32);
    assert_eq!(name_length(0), NameLength::TooShort);
    assert_eq!(name_length(1), NameLength::Fits);
    assert_eq!(name_length(32), NameLength::Fits);
    assert_eq!(name_length(33), NameLength::TooLong);
    assert_eq!(name_length(usize::MAX), NameLength::TooLong);
    assert_eq!(NameLength::TooShort.note(), Some("(too short)"));
    assert_eq!(NameLength::TooLong.note(), Some("(too long)"));
    assert_eq!(NameLength::Fits.note(), None);
    assert!(NameLength::Fits.is_valid());
    assert!(!NameLength::TooShort.is_valid());
    assert!(!NameLength::TooLong.is_valid());
}
