use cygnus::ability::{Abilities, AbilitiesTemplate, Ability, Identifier};

#[test]
fn ability__ability_score_of_10_should_have_modifier_of_0() {
    let strength = Ability::from(10);
    assert_eq!(strength.get_modifier(), 0);
    assert_eq!(Identifier::calculate_modifier(10), 0);
}

#[test]
fn ability__ability_scores_less_than_10_should_have_negative_modifier() {
    let strength = Ability::from(9);
    let dexterity = Ability::from(7);
    let constitution = Ability::from(5);
    let intelligence = Ability::from(3);
    let wisdom = Ability::from(1);
    assert_eq!(strength.get_modifier(), -1);
    assert_eq!(dexterity.get_modifier(), -2);
    assert_eq!(constitution.get_modifier(), -3);
    assert_eq!(intelligence.get_modifier(), -4);
    assert_eq!(wisdom.get_modifier(), -5);

    assert_eq!(Identifier::calculate_modifier(8), -1);
    assert_eq!(Identifier::calculate_modifier(6), -2);
    assert_eq!(Identifier::calculate_modifier(4), -3);
    assert_eq!(Identifier::calculate_modifier(2), -4);
    assert_eq!(Identifier::calculate_modifier(0), -5);
}

#[test]
fn _ability_scores_greater_than_11_should_have_positive_modifiers() {
    let strength = Ability::from(12);
    let dexterity = Ability::from(14);
    let constitution = Ability::from(16);
    let intelligence = Ability::from(18);
    let wisdom = Ability::from(20);
    assert_eq!(strength.get_modifier(), 1);
    assert_eq!(dexterity.get_modifier(), 2);
    assert_eq!(constitution.get_modifier(), 3);
    assert_eq!(intelligence.get_modifier(), 4);
    assert_eq!(wisdom.get_modifier(), 5);
}

#[test]
fn _ability_scores_greater_than_10_should_have_positive_modifiers() {
    assert_eq!(Identifier::calculate_modifier(12), 1);
    assert_eq!(Identifier::calculate_modifier(14), 2);
    assert_eq!(Identifier::calculate_modifier(16), 3);
    assert_eq!(Identifier::calculate_modifier(18), 4);
    assert_eq!(Identifier::calculate_modifier(20), 5);
}

#[test]
fn modifier_formula_on_odd_and_large_scores() {
    assert_eq!(Identifier::calculate_modifier(11), 0);
    assert_eq!(Identifier::calculate_modifier(1), -5);
    assert_eq!(Identifier::calculate_modifier(30), 10);
    assert_eq!(Ability::from(usize::MAX).get_modifier(), (usize::MAX / 2) as isize - 5);
}

#[test]
fn abilities_set_and_get_scores() {
    let mut abilities = Abilities::empty();
    assert_eq!(abilities.get_score(Identifier::Strength), None);
    assert_eq!(abilities.get_modifier(Identifier::Strength), None);
    assert_eq!(abilities.count_abilities(), 0);
    abilities.set_score(Identifier::Strength, 15);
    assert_eq!(abilities.get_score(Identifier::Strength), Some(15));
    assert_eq!(abilities.get_modifier(Identifier::Strength), Some(2));
    assert_eq!(abilities.get_base_score(&Identifier::Wisdom), 0);
    assert_eq!(abilities.count_abilities(), 1);
    let listed = abilities.get_abilities();
    assert_eq!(listed.len(), 1);
    assert_eq!(listed[0].0, Identifier::Strength);
    assert_eq!(listed[0].1.get_score(), 15);
}

#[test]
fn combining_abilities_adds_present_scores_and_keeps_single_ones() {
    let base = Abilities::from(AbilitiesTemplate {
        strength: 8,
        dexterity: 14,
        constitution: 12,
        intelligence: 10,
        wisdom: 13,
        charisma: 9,
    });
    let mut bonus = Abilities::empty();
    bonus.set_score(Identifier::Intelligence, 2);
    bonus.set_score(Identifier::Dexterity, 1);
    let combined = base.combine(&bonus);
    assert_eq!(combined.get_score(Identifier::Intelligence), Some(12));
    assert_eq!(combined.get_score(Identifier::Dexterity), Some(15));
    assert_eq!(combined.get_score(Identifier::Strength), Some(8));
    let other_way = bonus.combine(&base);
    for id in Identifier::all() {
        assert_eq!(combined.get_score(id), other_way.get_score(id));
    }
    let neither = Abilities::empty().combine(&Abilities::empty());
    assert_eq!(neither.get_score(Identifier::Charisma), None);
}

#[test]
fn ability_identifiers_have_abbreviations() {
    assert_eq!(Identifier::all().len(), 6);
    assert_eq!(Identifier::Strength.abbr(), "Str");
    assert_eq!(Identifier::Charisma.abbr(), "Cha");
    assert_eq!(Identifier::Wisdom.name(), "Wisdom");
}
