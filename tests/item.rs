use cygnus::item::{self, ArmorClass, ConstructionError, Items};

fn named(name: &str, weight: usize) -> item::Item {
    item::Builder::new().name(name).unwrap().weight(weight).unwrap().build().unwrap()
}

#[test]
fn item__empty_items_should_have_no_weight() {
    let items = Items::default();
    assert_eq!(items.get_total_weight(), 0);
}

#[test]
fn item__should_accumulate_total_weight() {
    let mut items = Items::default();
    items.add_item(named("one", 1));
    items.add_item(named("two", 2));
    items.add_item(named("three", 3));
    assert_eq!(items.get_total_weight(), 6);
}

#[test]
fn item_builder_defaults_and_errors() {
    assert_eq!(item::Builder::new().build().err(), Some(ConstructionError::MissingName));
    assert_eq!(item::Builder::new().name("").err(), Some(ConstructionError::MissingName));
    let plain = item::Builder::new().name("Rope").unwrap().build().unwrap();
    assert_eq!(plain.get_name(), "Rope");
    assert_eq!(plain.get_weight(), 0);
    assert_eq!(plain.get_armor_class(), None);
    assert!(!plain.has_type("armor"));
    let shield = item::Builder::new()
        .name("Shield")
        .unwrap()
        .add_type("hand")
        .unwrap()
        .add_type("armor")
        .unwrap()
        .armor_class(ArmorClass::Heavy(2))
        .unwrap()
        .build()
        .unwrap();
    assert!(shield.has_type("armor"));
    assert!(shield.has_type("hand"));
    assert!(!shield.has_type("arm"));
    assert_eq!(shield.get_armor_class(), Some(ArmorClass::Heavy(2)));
}
