use cygnus::item::{self, ArmorClass, Item};
use cygnus::slot::{ItemCriteria, ItemSlots, Slot, SlotError, SlotsError};

fn armor_slot() -> Slot {
    Slot::new(ItemCriteria::HasType(String::from("armor")))
}

fn weapon_slot() -> Slot {
    Slot::new(ItemCriteria::HasType(String::from("weapon")))
}

fn chain_mail() -> Item {
    item::Builder::new()
        .name("Chain Mail")
        .unwrap()
        .weight(55)
        .unwrap()
        .add_type("armor")
        .unwrap()
        .armor_class(ArmorClass::Heavy(16))
        .unwrap()
        .build()
        .unwrap()
}

fn rapier() -> Item {
    item::Builder::new()
        .name("Rapier")
        .unwrap()
        .weight(2)
        .unwrap()
        .add_type("weapon")
        .unwrap()
        .build()
        .unwrap()
}

#[test]
fn slot__should_equip_if_valid() {
    let mut vc = armor_slot();
    let item = item::Builder::new().name("one").unwrap().add_type("armor").unwrap().build().unwrap();
    vc.equip(item.clone()).unwrap();
    assert_eq!(vc.get_value(), &Some(item));
}

#[test]
fn slot__should_return_err_if_equip_not_valid() {
    let mut vc = armor_slot();
    let not_armor = item::Builder::new().name("not armor").unwrap().build().unwrap();
    let result = vc.equip(not_armor);
    assert!(matches!(result, Err(SlotError::Invalid)), "Should return Err");
}

#[test]
fn slot__should_prevent_equipping_multiple_things_to_same_slot() {
    let mut vc = Slot::new(ItemCriteria::Any);
    let item1 = item::Builder::new().name("item 1").unwrap().build().unwrap();
    let _ = vc.equip(item1.clone());
    let item2 = item::Builder::new().name("item 2").unwrap().build().unwrap();
    let result = vc.equip(item2);
    assert!(matches!(result, Err(SlotError::Full)));
}

#[test]
fn slot__should_prevent_removing_from_empty_slot() {
    let mut vc = Slot::new(ItemCriteria::Nothing);
    assert!(matches!(vc.unequip(), Err(SlotError::Empty)));
}

#[test]
fn slot__should_return_stored_thing_on_unequip() {
    let mut vc = Slot::new(ItemCriteria::Any);
    let item = item::Builder::new().name("dummy").unwrap().build().unwrap();
    let _ = vc.equip(item.clone());
    assert_eq!(vc.unequip().unwrap(), item);
}

#[test]
fn slot__should_remove_value_from_slot_on_unequip() {
    let mut vc = Slot::new(ItemCriteria::Any);
    let item = item::Builder::new().name("dummy").unwrap().build().unwrap();
    vc.equip(item).unwrap();
    let _ = vc.unequip().unwrap();
    assert_eq!(vc.get_value(), &None);
}

#[test]
fn slot__should_allow_equipping_to_multiple_slots() {
    let mut equipment = ItemSlots::default();
    equipment.add_slot("armor", armor_slot());
    equipment.add_slot("right hand", weapon_slot());
    equipment.equip(chain_mail(), "armor").unwrap();
    equipment.equip(rapier(), "right hand").unwrap();
}

#[test]
fn slot__should_return_whether_contains_thing_of_given_type() {
    let mut equipment = ItemSlots::default();
    equipment.add_slot("armor", armor_slot());
    equipment.add_slot("right hand", weapon_slot());
    let armor_criteria = ItemCriteria::HasType(String::from("armor"));
    equipment.equip(rapier(), "right hand").unwrap();
    assert!(!equipment.has_item_equipped_matching_criteria(&armor_criteria));
    equipment.equip(chain_mail(), "armor").unwrap();
    assert!(equipment.has_item_equipped_matching_criteria(&armor_criteria));
}

#[test]
fn slot__should_return_the_total_weight_of_equipped_items() {
    let mut equipment = ItemSlots::default();
    equipment.add_slot("armor", Slot::new(ItemCriteria::Any));
    equipment.add_slot("right hand", Slot::new(ItemCriteria::Any));
    equipment.equip(chain_mail(), "armor").unwrap();
    equipment.equip(rapier(), "right hand").unwrap();
    assert_eq!(equipment.get_total_weight(), 57);
}

#[test]
fn equip_unequip_round_trip_leaves_slot_empty() {
    let mut slot = Slot::new(ItemCriteria::Any);
    slot.equip(rapier()).unwrap();
    assert_eq!(slot.equip(chain_mail()), Err(SlotError::Full));
    assert_eq!(slot.unequip(), Ok(rapier()));
    assert_eq!(slot.get_value(), &None);
    assert_eq!(slot.unequip(), Err(SlotError::Empty));
}

#[test]
fn slots_report_unknown_names_and_list_items() {
    let mut equipment = ItemSlots::default();
    assert_eq!(
        equipment.equip(rapier(), "belt"),
        Err(SlotsError::NotExists { slot: String::from("belt") })
    );
    assert_eq!(
        equipment.unequip("belt"),
        Err(SlotsError::NotExists { slot: String::from("belt") })
    );
    equipment.add_slot("hand", weapon_slot());
    assert_eq!(
        equipment.equip(chain_mail(), "hand"),
        Err(SlotsError::SlotProblem(SlotError::Invalid))
    );
    assert_eq!(equipment.unequip("hand"), Err(SlotsError::SlotProblem(SlotError::Empty)));
    equipment.equip(rapier(), "hand").unwrap();
    assert_eq!(equipment.get_equipped_items(), vec![&rapier()]);
    assert_eq!(equipment.unequip("hand"), Ok(rapier()));
    assert!(equipment.get_equipped_items().is_empty());
    assert_eq!(equipment.get_total_weight(), 0);
}

#[test]
fn adding_a_slot_under_a_used_name_replaces_it() {
    let mut equipment = ItemSlots::default();
    equipment.add_slot("hand", Slot::new(ItemCriteria::Nothing));
    equipment.add_slot("hand", Slot::new(ItemCriteria::Any));
    equipment.equip(rapier(), "hand").unwrap();
    assert_eq!(equipment.get_total_weight(), 2);
}
