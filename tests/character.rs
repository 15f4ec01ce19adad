use cygnus::ability::{Abilities, AbilitiesTemplate, Identifier as Ability};
use cygnus::character::{self, Alignment, Character, Conformity, ConstructionError, Morality};
use cygnus::class::{self, Class, HPIncreases};
use cygnus::feat::Feat;
use cygnus::item::{self, ArmorClass};
use cygnus::modifiers::Encumbrance;
use cygnus::race::{self, Condition, CreatureType, DamageType, Language, Race, Size};
use cygnus::skill::Identifier as Skill;
use cygnus::slot::{ItemCriteria, Slot};

fn human() -> Race {
    race::Builder::new()
        .name("Human")
        .creature_type(CreatureType::Humanoid)
        .size(Size::Medium)
        .walking_speed(30)
        .add_ability(Ability::Strength, 1)
        .add_ability(Ability::Dexterity, 1)
        .add_ability(Ability::Constitution, 1)
        .add_ability(Ability::Intelligence, 1)
        .add_ability(Ability::Wisdom, 1)
        .add_ability(Ability::Charisma, 1)
        .add_language(Language::Common)
        .build()
        .unwrap()
}

fn shadar_kai() -> Race {
    race::Builder::new()
        .name("Shadar-kai")
        .creature_type(CreatureType::Humanoid)
        .size(Size::Medium)
        .walking_speed(30)
        .add_ability(Ability::Intelligence, 2)
        .add_ability(Ability::Dexterity, 1)
        .add_damage_resistance(DamageType::Necrotic)
        .add_condition_immunity(Condition::MagicalSleep)
        .add_language(Language::Common)
        .add_language(Language::Undercommon)
        .build()
        .unwrap()
}

fn class_with(name: &str, saves: [Ability; 2], hit_die: usize) -> Class {
    class::Builder::new()
        .name(name)
        .unwrap()
        .level(1)
        .unwrap()
        .add_saving_throw_proficiency(saves[0])
        .unwrap()
        .add_saving_throw_proficiency(saves[1])
        .unwrap()
        .hp_increases(HPIncreases::new(hit_die))
        .unwrap()
        .build()
        .unwrap()
}

fn wizard() -> Class {
    class_with("Wizard", [Ability::Intelligence, Ability::Wisdom], 6)
}

fn artificer() -> Class {
    class_with("Artificer", [Ability::Intelligence, Ability::Constitution], 8)
}

fn eights() -> Abilities {
    Abilities::from(AbilitiesTemplate {
        strength: 8,
        dexterity: 8,
        constitution: 8,
        intelligence: 8,
        wisdom: 8,
        charisma: 8,
    })
}

fn dummy_with(race: Race) -> Character {
    Character::new("Dummy", Alignment(Conformity::Neutral, Morality::Neutral), race, eights())
}

fn dummy() -> Character {
    dummy_with(human())
}

/// The dummy character, built with the wizard class and a trained skill.
fn wizard_dummy(skill: Option<(Skill, bool)>) -> Character {
    let mut b = character::Builder::new()
        .name("Dummy")
        .unwrap()
        .alignment(Conformity::Neutral, Morality::Neutral)
        .unwrap()
        .race(human())
        .unwrap()
        .base_ability_scores(eights())
        .unwrap()
        .add_class(wizard())
        .unwrap();
    if let Some((s, expert)) = skill {
        b = if expert {
            b.add_skill_expertise(s).unwrap()
        } else {
            b.add_skill_proficiency(s).unwrap()
        };
    }
    b.build().unwrap()
}

fn weighing(name: &str, weight: usize) -> item::Item {
    item::Builder::new().name(name).unwrap().weight(weight).unwrap().build().unwrap()
}

#[test]
fn character__should_default_character_creature_type_to_race_creature_type() {
    let character = dummy();
    assert_eq!(character.get_creature_type(), &CreatureType::Humanoid);
}

#[test]
fn character__should_get_saving_throw_mod_without_proficiency() {
    let character = dummy();
    assert_eq!(character.get_saving_throw_mod(Ability::Strength), -1);
}

#[test]
fn character__should_get_saving_throw_mod_including_proficiency_bonus() {
    let mut character = dummy();
    character.add_class(artificer());
    assert_eq!(character.get_saving_throw_mod(Ability::Constitution), 1);
}

#[test]
fn character__should_get_initial_size_from_race() {
    let character = dummy();
    assert_eq!(character.get_size(), &Size::Medium);
}

#[test]
fn character__should_get_initial_walking_speed_from_race() {
    let character = dummy();
    assert_eq!(character.get_walking_speed(), 30);
}

#[test]
fn character__characters_with_strength_and_no_items_should_not_be_encumbered() {
    let character = dummy();
    assert_eq!(character.get_variant_encumbrance(), None);
}

#[test]
fn character__characters_with_more_than_5_times_strength_score_in_item_weight_should_be_encumbered() {
    let mut character = dummy();
    character.add_item(weighing("test", 46));
    assert_eq!(character.get_variant_encumbrance(), Some(Encumbrance::Encumbered));
}

#[test]
fn character__characters_with_more_than_10_times_str_score_in_item_weight_should_be_heavily_encumbered() {
    let mut character = dummy();
    character.add_item(weighing("test", 91));
    assert_eq!(character.get_variant_encumbrance(), Some(Encumbrance::HeavilyEncumbered));
}

#[test]
fn character__should_include_inventory_and_equipment_in_total_carried_weight() {
    let mut character = dummy();
    let rapier = item::Builder::new()
        .name("Rapier")
        .unwrap()
        .weight(2)
        .unwrap()
        .add_type("weapon")
        .unwrap()
        .build()
        .unwrap();
    character.add_item(rapier);
    character.add_equipment_slot("armor", Slot::new(ItemCriteria::Any));
    let chain_mail = item::Builder::new()
        .name("Chain Mail")
        .unwrap()
        .weight(55)
        .unwrap()
        .add_type("armor")
        .unwrap()
        .armor_class(ArmorClass::Heavy(16))
        .unwrap()
        .build()
        .unwrap();
    let _ = character.equip_item(chain_mail, "armor");
    assert_eq!(character.get_total_weight_carried(), 57);
}

#[test]
fn character__encumbered_characters_should_reduce_their_speed_by_10() {
    let mut character = dummy();
    character.add_item(weighing("test", 46));
    assert_eq!(character.get_walking_speed(), 20);
}

#[test]
fn character__heavily_encumbered_characters_should_reduce_their_speed_by_20() {
    let mut character = dummy();
    character.add_item(weighing("test", 91));
    assert_eq!(character.get_walking_speed(), 10);
}

#[test]
fn character__characters_with_2_or_more_exhaustion_should_half_their_movement_speed() {
    let mut character = dummy();
    character.set_exhaustion_level(2);
    assert_eq!(character.get_walking_speed(), 15);
    character.set_exhaustion_level(3);
    assert_eq!(character.get_walking_speed(), 15);
    character.set_exhaustion_level(4);
    assert_eq!(character.get_walking_speed(), 15);
}

#[test]
fn character__characters_with_5_levels_of_exhaustion_should_have_0_movement_speed() {
    let mut character = dummy();
    character.set_exhaustion_level(5);
    assert_eq!(character.get_walking_speed(), 0);
}

#[test]
fn character__skill_modifier_should_default_to_related_ability_modifier() {
    let character = dummy();
    assert_eq!(character.get_skill_modifier(Skill::Arcana), -1);
}

#[test]
fn character__proficiency_should_affect_skill_modifier() {
    let character = wizard_dummy(Some((Skill::Arcana, false)));
    assert_eq!(character.get_skill_modifier(Skill::Arcana), 1);
}

#[test]
fn character__expertise_should_affect_skill_modifier() {
    let character = wizard_dummy(Some((Skill::Arcana, true)));
    assert_eq!(character.get_skill_modifier(Skill::Arcana), 3);
}

#[test]
fn character__passive_perception_should_be_10_plus_perception_modifier() {
    let character = wizard_dummy(None);
    assert_eq!(character.get_passive_perception(), 9);
    let character = wizard_dummy(Some((Skill::Perception, false)));
    assert_eq!(character.get_passive_perception(), 11);
}

#[test]
fn character__passive_investigation_should_be_10_plus_investigation_modifier() {
    let character = wizard_dummy(None);
    assert_eq!(character.get_passive_investigation(), 9);
    let character = wizard_dummy(Some((Skill::Investigation, false)));
    assert_eq!(character.get_passive_investigation(), 11);
}

#[test]
fn character__passive_insight_should_be_10_plus_insight_modifier() {
    let character = wizard_dummy(None);
    assert_eq!(character.get_passive_insight(), 9);
    let character = wizard_dummy(Some((Skill::Insight, false)));
    assert_eq!(character.get_passive_insight(), 11);
}

#[test]
fn character__should_obtain_feats_from_classes_and_race() {
    let spell_sniper = Feat::new("Spell Sniper", "Doubles casting distance and ignores half cover.");
    let mut wizard = wizard();
    wizard.add_feat(spell_sniper.clone());
    let elven_accuracy = Feat::new(
        "Elven Accuracy",
        "When rolling advantage on ranged checks, roll a third die.",
    );
    let mut shadar_kai = shadar_kai();
    shadar_kai.add_feat(elven_accuracy.clone());
    let mut character = dummy_with(shadar_kai);
    character.add_class(wizard);
    assert_eq!(character.get_feats(), vec![&spell_sniper, &elven_accuracy]);
}

#[test]
fn character__should_derive_armor_class_from_equipment_and_con_mod() {
    let mut character = dummy();
    character.add_equipment_slot("chestplate", Slot::new(ItemCriteria::Any));
    character.add_equipment_slot("helmet", Slot::new(ItemCriteria::Any));
    let breastplate = item::Builder::new()
        .name("Breastplate")
        .unwrap()
        .weight(25)
        .unwrap()
        .add_type("armor")
        .unwrap()
        .armor_class(ArmorClass::Medium(14))
        .unwrap()
        .build()
        .unwrap();
    character.equip_item(breastplate, "chestplate").unwrap();
    let pickelbonnet = item::Builder::new()
        .name("Pickelbonnet")
        .unwrap()
        .weight(2)
        .unwrap()
        .add_type("armor")
        .unwrap()
        .armor_class(ArmorClass::Heavy(3))
        .unwrap()
        .build()
        .unwrap();
    character.equip_item(pickelbonnet, "helmet").unwrap();
    assert_eq!(character.get_armor_class(), 16);
}

fn strength_8_without_bonus() -> Character {
    let race = race::Builder::new().name("Plain").build().unwrap();
    Character::new("Plain", Alignment(Conformity::Lawful, Morality::Good), race, eights())
}

#[test]
fn encumbrance_boundaries_are_strict() {
    let cases = [(40, None), (41, Some(Encumbrance::Encumbered)), (80, Some(Encumbrance::Encumbered)), (81, Some(Encumbrance::HeavilyEncumbered))];
    for (weight, expected) in cases {
        let mut character = strength_8_without_bonus();
        assert_eq!(character.get_ability_score(Ability::Strength), 8);
        character.add_item(weighing("load", weight));
        assert_eq!(character.get_variant_encumbrance(), expected);
    }
}

#[test]
fn walking_speed_applies_encumbrance_before_exhaustion() {
    let mut character = strength_8_without_bonus();
    character.add_item(weighing("load", 41));
    assert_eq!(character.get_walking_speed(), 20);
    let mut heavy = strength_8_without_bonus();
    heavy.add_item(weighing("load", 81));
    heavy.set_exhaustion_level(3);
    assert_eq!(heavy.get_walking_speed(), 5);
    heavy.set_exhaustion_level(5);
    assert_eq!(heavy.get_walking_speed(), 0);
    let mut slow = strength_8_without_bonus();
    slow.set_exhaustion_level(5);
    assert_eq!(slow.get_walking_speed(), 0);
}

#[test]
fn medium_armor_caps_dexterity_and_pieces_sum() {
    let scores = Abilities::from(AbilitiesTemplate {
        strength: 10,
        dexterity: 16,
        constitution: 10,
        intelligence: 10,
        wisdom: 10,
        charisma: 10,
    });
    let race = race::Builder::new().name("Plain").build().unwrap();
    let mut character = Character::new("Nimble", Alignment(Conformity::Chaotic, Morality::Good), race, scores);
    assert_eq!(character.get_ability_modifier(Ability::Dexterity), 3);
    character.add_equipment_slot("armor", Slot::new(ItemCriteria::HasArmorClass));
    character.add_equipment_slot("cloak", Slot::new(ItemCriteria::HasArmorClass));
    let piece = |name: &str| {
        item::Builder::new().name(name).unwrap().armor_class(ArmorClass::Medium(14)).unwrap().build().unwrap()
    };
    character.equip_item(piece("Breastplate"), "armor").unwrap();
    assert_eq!(character.get_armor_class(), 16);
    character.equip_item(piece("Second"), "cloak").unwrap();
    assert_eq!(character.get_armor_class(), 32);
    let light = item::Builder::new().name("Leather").unwrap().armor_class(ArmorClass::Light(11)).unwrap().build().unwrap();
    character.add_equipment_slot("extra", Slot::new(ItemCriteria::Any));
    character.equip_item(light, "extra").unwrap();
    assert_eq!(character.get_armor_class(), 32 + 14);
}

#[test]
fn hit_points_use_the_constitution_modifier() {
    let mut character = dummy();
    character.add_class(artificer());
    assert_eq!(character.get_ability_modifier(Ability::Constitution), -1);
    assert_eq!(character.get_hit_points_max(), 7);
    assert_eq!(character.get_current_hit_points(), 7);
    assert_eq!(character.get_level(), 1);
    assert_eq!(character.get_proficiency_bonus(), 2);
    assert_eq!(character.get_initiative(), -1);
    assert_eq!(character.get_class_details(), " Artificer 1");
}

#[test]
fn equipping_into_a_missing_or_full_slot_fails() {
    let mut character = dummy();
    assert!(matches!(
        character.equip_item(weighing("x", 1), "nowhere"),
        Err(character::Error::Equipment(cygnus::slot::SlotsError::NotExists { .. }))
    ));
    character.add_equipment_slot("hand", Slot::new(ItemCriteria::Any));
    character.equip_item(weighing("x", 1), "hand").unwrap();
    assert_eq!(
        character.equip_item(weighing("y", 1), "hand"),
        Err(character::Error::Equipment(cygnus::slot::SlotsError::SlotProblem(cygnus::slot::SlotError::Full)))
    );
    assert!(character.has_item_equipped_matching_criteria(&ItemCriteria::Any));
    assert!(!character.has_item_equipped_matching_criteria(&ItemCriteria::HasArmorClass));
}

#[test]
fn builder_reports_every_missing_field() {
    let err = character::Builder::new().build().err().unwrap();
    let ConstructionError::MissingField(fields) = err;
    assert_eq!(fields, vec!["name", "alignment", "race", "ability scores", "class(es)"]);
    let err = character::Builder::new()
        .name("Someone")
        .unwrap()
        .race(human())
        .unwrap()
        .build()
        .err()
        .unwrap();
    let ConstructionError::MissingField(fields) = err;
    assert_eq!(fields, vec!["alignment", "ability scores", "class(es)"]);
    assert!(character::Builder::new().name("").is_err());
}

#[test]
fn proficiency_and_language_strings() {
    let character = character::Builder::new()
        .name("Linguist")
        .unwrap()
        .alignment(Conformity::Lawful, Morality::Evil)
        .unwrap()
        .race(shadar_kai())
        .unwrap()
        .base_ability_scores(eights())
        .unwrap()
        .add_class(wizard())
        .unwrap()
        .add_armor_proficiency("Light Armor")
        .unwrap()
        .add_armor_proficiency("Shields")
        .unwrap()
        .add_weapon_proficiency("Rapier")
        .unwrap()
        .add_tool_proficiency("Smith's Tools")
        .unwrap()
        .build()
        .unwrap();
    assert_eq!(character.get_armor_proficiencies_string(), "Light Armor, Shields");
    assert_eq!(character.get_weapon_proficiencies_string(), "Rapier");
    assert_eq!(character.get_tool_proficiencies_string(), "Smith's Tools");
    assert_eq!(character.get_languages_string(), "Common, Undercommon");
    assert_eq!(character.get_alignment().text(), "Lawful Evil");
    assert_eq!(character.get_race_name(), "Shadar-kai");
    assert_eq!(character.get_ability_score(Ability::Intelligence), 10);
}
