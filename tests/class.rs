use cygnus::ability::Identifier as Ability;
use cygnus::class::{self, Class, ClassConstructionError, Classes, HPIncreases, Template, TryFromError};
use cygnus::feat::Feat;
use cygnus::modifiers::Proficiency;

fn wizard() -> Class {
    class::Builder::new()
        .name("Wizard")
        .unwrap()
        .level(1)
        .unwrap()
        .add_saving_throw_proficiency(Ability::Intelligence)
        .unwrap()
        .add_saving_throw_proficiency(Ability::Wisdom)
        .unwrap()
        .hp_increases(HPIncreases::new(6))
        .unwrap()
        .build()
        .unwrap()
}

fn artificer() -> Class {
    class::Builder::new()
        .name("Artificer")
        .unwrap()
        .level(1)
        .unwrap()
        .add_saving_throw_proficiency(Ability::Intelligence)
        .unwrap()
        .add_saving_throw_proficiency(Ability::Constitution)
        .unwrap()
        .hp_increases(HPIncreases::new(8))
        .unwrap()
        .build()
        .unwrap()
}

fn leveled(name: &str, level: usize) -> Class {
    class::Builder::new()
        .name(name)
        .unwrap()
        .level(level)
        .unwrap()
        .build()
        .unwrap()
}

fn classes_of(list: Vec<Class>) -> Classes {
    let mut classes = Classes::default();
    for c in list {
        classes.add_class(c);
    }
    classes
}

#[test]
fn _default_should_be_empty() {
    let hpi = HPIncreases::default();
    assert!(hpi.as_slice().is_empty(), "should be empty");
}

#[test]
fn _new_should_contain_the_single_starting_hp() {
    let hpi = HPIncreases::new(10);
    assert_eq!(hpi.as_slice(), &[10]);
}

#[test]
fn _creating_from_vec_with_20_or_less_increases_should_be_successful() {
    let hpi = HPIncreases::try_from(vec![1, 2, 3, 4]).unwrap();
    assert_eq!(hpi.as_slice(), &[1, 2, 3, 4]);
}

#[test]
fn _create_from_vec_with_over_20_increases_should_result_in_error() {
    let hpi = HPIncreases::try_from(vec![
        1, 2, 3, 4, 5, 6, 7, 8, 9, 10, 11, 12, 13, 14, 15, 16, 17, 18, 19, 20, 21,
    ]);
    assert!(hpi.is_err(), "should result in error");
}

#[test]
fn _should_return_0_on_empty_hp_increases_without_con_mod() {
    let hpi = HPIncreases::default();
    assert_eq!(hpi.get_hit_points(0), 0);
}

#[test]
fn _should_return_0_on_empty_hp_increases_with_con_mod() {
    let hpi = HPIncreases::default();
    assert_eq!(hpi.get_hit_points(3), 0);
}

#[test]
fn _should_sum_increases_without_con_mod() {
    let hpi = HPIncreases::try_from(vec![8, 5, 5, 5, 5]).unwrap();
    assert_eq!(hpi.get_hit_points(0), 28);
}

#[test]
fn _should_add_con_mod_to_each_increase_before_summing() {
    let hpi = HPIncreases::try_from(vec![8, 5, 5, 5, 5]).unwrap();
    assert_eq!(hpi.get_hit_points(3), 43);
}

#[test]
fn _should_add_new_increase_to_collection() {
    let mut hpi = HPIncreases::default();
    hpi.add_increase(3).unwrap();
    assert_eq!(hpi.as_slice(), &[3]);
}

#[test]
fn _should_add_increase_to_end() {
    let mut hpi = HPIncreases::try_from(vec![1, 2, 3]).unwrap();
    hpi.add_increase(4).unwrap();
    assert_eq!(hpi.as_slice(), &[1, 2, 3, 4]);
}

#[test]
fn _should_result_in_error_when_trying_to_add_more_than_20_increases() {
    let mut hpi = HPIncreases::try_from(vec![
        1, 2, 3, 4, 5, 6, 7, 8, 9, 10, 11, 12, 13, 14, 15, 16, 17, 18, 19, 20,
    ])
    .unwrap();
    let result = hpi.add_increase(21);
    assert!(result.is_err(), "should result in error");
}

#[test]
fn class__level_0_should_not_have_proficiency_bonus() {
    let lvl0 = Classes::default();
    assert_eq!(lvl0.get_proficiency_bonus(), 0);
}

#[test]
fn class__level_1_character_should_have_proficiency_bonus_of_2() {
    let lvl1 = classes_of(vec![artificer()]);
    assert_eq!(lvl1.get_proficiency_bonus(), 2);
}

#[test]
fn class__proficiency_bonus_should_go_up_by_1_every_4_level_ups() {
    let lvl4 = classes_of(vec![leveled("lvl4", 4)]);
    assert_eq!(lvl4.get_proficiency_bonus(), 2);
    let lvl5 = classes_of(vec![leveled("lvl5", 5)]);
    assert_eq!(lvl5.get_proficiency_bonus(), 3);
    let lvl9 = classes_of(vec![leveled("lvl9", 9)]);
    assert_eq!(lvl9.get_proficiency_bonus(), 4);
    let lvl13 = classes_of(vec![leveled("lvl13", 13)]);
    assert_eq!(lvl13.get_proficiency_bonus(), 5);
    let lvl17 = classes_of(vec![leveled("lvl17", 17)]);
    assert_eq!(lvl17.get_proficiency_bonus(), 6);
}

#[test]
fn class__classless_should_have_no_saving_throw_proficiencies() {
    let classless = Classes::default();
    for ability in Ability::all() {
        assert_eq!(classless.get_saving_throw_proficiency(ability), None);
    }
}

#[test]
fn class__monoclasses_should_derive_their_saving_throw_proficiencies_from_it() {
    let monoclass = classes_of(vec![artificer()]);
    assert_eq!(monoclass.get_saving_throw_proficiency(Ability::Strength), None);
    assert_eq!(monoclass.get_saving_throw_proficiency(Ability::Dexterity), None);
    assert_eq!(
        monoclass.get_saving_throw_proficiency(Ability::Constitution),
        Some(Proficiency::Proficiency)
    );
    assert_eq!(
        monoclass.get_saving_throw_proficiency(Ability::Intelligence),
        Some(Proficiency::Proficiency)
    );
    assert_eq!(monoclass.get_saving_throw_proficiency(Ability::Wisdom), None);
    assert_eq!(monoclass.get_saving_throw_proficiency(Ability::Charisma), None);
}

#[test]
fn class__multiclasses_should_only_inherit_proficiencies_from_first_class() {
    let multiclass = classes_of(vec![wizard(), artificer()]);
    assert_eq!(multiclass.get_saving_throw_proficiency(Ability::Strength), None);
    assert_eq!(multiclass.get_saving_throw_proficiency(Ability::Dexterity), None);
    assert_eq!(multiclass.get_saving_throw_proficiency(Ability::Constitution), None);
    assert_eq!(
        multiclass.get_saving_throw_proficiency(Ability::Intelligence),
        Some(Proficiency::Proficiency)
    );
    assert_eq!(
        multiclass.get_saving_throw_proficiency(Ability::Wisdom),
        Some(Proficiency::Proficiency)
    );
    assert_eq!(multiclass.get_saving_throw_proficiency(Ability::Charisma), None);
}

#[test]
fn class__classless_should_be_level_0() {
    let classless = Classes::default();
    assert_eq!(classless.get_level(), 0);
}

#[test]
fn class__monoclasses_should_be_the_class_level() {
    let mut monoclass = classes_of(vec![artificer()]);
    assert_eq!(monoclass.get_level(), 1);
    let mut artificer = artificer();
    artificer.set_level(20).unwrap();
    monoclass = classes_of(vec![artificer]);
    assert_eq!(monoclass.get_level(), 20);
}

#[test]
fn class__multiclasses_should_sum_classes_levels() {
    let multiclass = classes_of(vec![artificer(), wizard()]);
    assert_eq!(multiclass.get_level(), 2);
}

#[test]
fn _should_return_feats_of_all_classes() {
    let sharpshooter = Feat::new("Sharpshooter", "Double range distance and ignore half cover.");
    let mut artificer = artificer();
    artificer.add_feat(sharpshooter.clone());
    let war_caster = Feat::new("War Caster", "Can cast cantrip as attack of opportunity. Advantate on CON saving throws when concentrating.");
    let mut wizard = wizard();
    wizard.add_feat(war_caster.clone());
    let multiclass = classes_of(vec![artificer, wizard]);
    assert_eq!(multiclass.get_feats(), vec![&sharpshooter, &war_caster]);
}

#[test]
fn proficiency_bonus_at_every_breakpoint() {
    let expected = [(1, 2), (4, 2), (5, 3), (8, 3), (9, 4), (12, 4), (13, 5), (16, 5), (17, 6), (20, 6)];
    for (level, bonus) in expected {
        assert_eq!(classes_of(vec![leveled("any", level)]).get_proficiency_bonus(), bonus);
    }
    let split = classes_of(vec![leveled("a", 3), leveled("b", 2)]);
    assert_eq!(split.get_level(), 5);
    assert_eq!(split.get_proficiency_bonus(), 3);
}

#[test]
fn class_level_bounds_are_enforced() {
    assert_eq!(class::Builder::new().level(21).err(), Some(ClassConstructionError::LevelOutOfBounds));
    assert_eq!(class::Builder::new().name("").err(), Some(ClassConstructionError::MissingName));
    assert_eq!(class::Builder::new().level(20).unwrap().build().err(), Some(ClassConstructionError::MissingName));
    assert_eq!(class::Builder::new().name("X").unwrap().build().err(), Some(ClassConstructionError::LevelOutOfBounds));
    let mut c = wizard();
    assert_eq!(c.set_level(21), Err(TryFromError::LevelOutOfBounds));
    assert_eq!(c.get_level(), 1);
    assert_eq!(c.set_level(0), Ok(()));
    assert_eq!(c.get_level(), 0);
    let template = Template {
        name: String::from("Rogue"),
        level: 25,
        saving_throw_proficiencies: vec![],
        spell_list: None,
        hp_increases: HPIncreases::default(),
        feats: vec![],
    };
    assert!(matches!(Class::try_from(template), Err(TryFromError::LevelOutOfBounds)));
}

#[test]
fn class_hit_points_can_go_negative_and_sum_over_classes() {
    let hpi = HPIncreases::try_from(vec![1, 1]).unwrap();
    assert_eq!(hpi.get_hit_points(-3), -4);
    let fighter = class::Builder::new()
        .name("Fighter")
        .unwrap()
        .level(2)
        .unwrap()
        .hp_increases(HPIncreases::try_from(vec![10, 6]).unwrap())
        .unwrap()
        .build()
        .unwrap();
    let classes = classes_of(vec![fighter, wizard()]);
    assert_eq!(classes.get_hit_points(2), 10 + 6 + 6 + 3 * 2);
    assert_eq!(classes.summary(), " Fighter 2 Wizard 1");
}

#[test]
fn class_keeps_its_spell_list() {
    let mut list = cygnus::spell::SpellList::new();
    assert!(list.get_spells().is_empty());
    list.add_spell(cygnus::spell::Spell::new(
        "light",
        0,
        cygnus::spell::CastingTime::Action(1),
        cygnus::spell::Range::Feet(0),
        vec![cygnus::spell::Component::Verbal],
        cygnus::spell::Duration::Minutes(60),
        false,
        cygnus::spell::School::Evocation,
        None,
        cygnus::spell::Effect::Buff,
        "Sheds light.",
        vec![],
    ));
    let caster = class::Builder::new()
        .name("Cleric")
        .unwrap()
        .level(1)
        .unwrap()
        .spell_list(list)
        .unwrap()
        .build()
        .unwrap();
    assert_eq!(caster.get_spell_list().unwrap().get_spells().len(), 1);
    assert_eq!(caster.get_spell_list().unwrap().get_spells()[0].get_name(), "light");
    assert!(wizard().get_spell_list().is_none());
}
