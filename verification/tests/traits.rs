use quietude::error::Error;
use quietude::ui::traits::{same_text, ChoiceAttribute, StringLookup};
use quietude::world::allegiance::Allegiance;
use quietude::world::entity::{
    EntityAttribute, EntityAttributeChoice, EntityAttributeText, EntityType, Opacity, Size,
};

#[test]
fn bool_string_lookup() {
    assert_eq!(bool::choices(), ["false", "true"]);
    assert_eq!(bool::from_str("false").unwrap(), false);
    assert_eq!(bool::from_str("true").unwrap(), true);
    assert!(bool::from_str("test").is_err());
}

#[test]
fn lookups_find_each_value_by_its_name() {
    assert_eq!(
        EntityType::choices(),
        ["Player", "Grass", "Tree", "Friendly NPC", "Void"]
    );
    assert_eq!(EntityType::from_str("Friendly NPC"), Ok(EntityType::NpcFriendly));
    assert_eq!(EntityType::from_str("Player"), Ok(EntityType::Player));
    assert_eq!(EntityType::from_str("NpcFriendly"), Err(Error::UnknownChoice));
    assert_eq!(Size::choices(), ["Small", "Medium", "Large"]);
    assert_eq!(Size::from_str("Large"), Ok(Size::Large));
    assert_eq!(Size::from_str("large"), Err(Error::UnknownChoice));
    assert_eq!(
        Opacity::choices(),
        ["Solid", "Dense", "Mostly Transparent", "Transparent"]
    );
    assert_eq!(Opacity::from_str("Mostly Transparent"), Ok(Opacity::MostlyTransparent));
    assert_eq!(Opacity::from_str(""), Err(Error::UnknownChoice));
    assert!(Allegiance::choices().is_empty());
    assert_eq!(Allegiance::from_str("None"), Err(Error::UnknownChoice));
    assert_eq!(bool::from_str("True"), Err(Error::UnknownChoice));
    let dictionary = bool::dictionary();
    assert_eq!(dictionary.dict, vec![(false, "false"), (true, "true")]);
}

#[test]
fn attribute_choices_follow_the_dictionaries() {
    assert_eq!(EntityAttributeChoice::Type.choices(), EntityType::choices());
    assert_eq!(EntityAttributeChoice::IsRooted.choices(), ["false", "true"]);
    assert_eq!(EntityAttributeChoice::HasAgency.choices(), ["false", "true"]);
    assert!(EntityAttributeChoice::Allegiance.choices().is_empty());
    assert_eq!(EntityAttributeChoice::Opacity.choices(), Opacity::choices());
    assert_eq!(EntityAttributeChoice::Size.choices(), Size::choices());
}

#[test]
fn attributes_have_names_and_an_order() {
    let order = EntityAttribute::attribute_order();
    let names: Vec<&str> = order.iter().map(|attr| attr.name()).collect();
    assert_eq!(
        names,
        vec![
            "Type",
            "Name",
            "Description",
            "Is rooted",
            "Has agency",
            "Allegiance",
            "Opacity",
            "Size"
        ]
    );
    assert_eq!(order[0], EntityAttribute::Choice(EntityAttributeChoice::Type));
    assert_eq!(order[1], EntityAttribute::Text(EntityAttributeText::Name));
    assert_eq!(EntityAttributeText::default(), EntityAttributeText::Name);
    assert_eq!(EntityAttributeChoice::default(), EntityAttributeChoice::Type);
    assert_eq!(EntityType::default(), EntityType::Void);
    assert_eq!(Size::default(), Size::Medium);
    assert_eq!(Opacity::default(), Opacity::Solid);
}

#[test]
fn same_text_compares_characters() {
    assert!(same_text("", ""));
    assert!(same_text("start", "start"));
    assert!(!same_text("start", "Start"));
    assert!(!same_text("start", "start "));
}
