use cygnus::background::{self, BuildError, Feature, Proficiencies};
use cygnus::character::{Alignment, Conformity, Gender, Morality};
use cygnus::characteristics::{self, BuildError as CharacteristicsError, Characteristics};
use cygnus::modifiers::Resistance;
use cygnus::personality::Personality;
use cygnus::proficiencies::Proficiencies as Trained;
use cygnus::race::{self, Condition, CreatureType, DamageType, Language, Size};
use cygnus::senses;
use cygnus::skill::Identifier as Skill;
use cygnus::units::{Distance, Duration, Weight};

#[test]
fn background_builds_with_all_fields_and_names_missing_ones() {
    let built = background::Builder::new()
        .name("Test Background")
        .description("This is a Background used for testing")
        .feature(Feature::new("Test Feature", "This is a Feature used for testing."))
        .proficiencies(Proficiencies::two_skills_two_tools(
            Skill::Acrobatics,
            Skill::AnimalHandling,
            "Land Vehicles",
            "Smith Tools",
        ))
        .build()
        .unwrap();
    assert_eq!(built.get_name(), "Test Background");
    assert_eq!(built.get_description(), "This is a Background used for testing");
    assert_eq!(built.get_feature().get_name(), "Test Feature");
    assert_eq!(built.get_feature().get_description(), "This is a Feature used for testing.");
    assert_eq!(
        built.get_proficiencies(),
        &Proficiencies::TwoSkillsTwoTools {
            skills: vec![Skill::Acrobatics, Skill::AnimalHandling],
            tools: vec![String::from("Land Vehicles"), String::from("Smith Tools")],
        }
    );
    let missing = background::Builder::new().name("Only a name").build();
    assert_eq!(
        missing,
        Err(BuildError::MissingField(vec![
            String::from("description"),
            String::from("feature"),
            String::from("proficiencies"),
        ]))
    );
    assert!(matches!(
        Proficiencies::two_skills_one_tool_one_language(Skill::Stealth, Skill::Insight, "Dice", "Elvish"),
        Proficiencies::TwoSkillsOneLanguageOneTool { .. }
    ));
    assert!(matches!(
        Proficiencies::two_skills_two_languages(Skill::Stealth, Skill::Insight, "Elvish", "Dwarvish"),
        Proficiencies::TwoSkillsTwoLanguages { .. }
    ));
}

#[test]
fn characteristics_require_their_fields() {
    let empty = Characteristics::try_from(characteristics::Builder::new());
    let expected: Vec<String> = ["alignment", "size", "eye_color", "height", "hair_color", "skin_tone", "age", "weight"]
        .iter()
        .map(|s| s.to_string())
        .collect();
    assert!(matches!(empty, Err(CharacteristicsError::MissingFields(ref f)) if *f == expected));
    let full = characteristics::Builder::new()
        .alignment(Alignment(Conformity::Chaotic, Morality::Good))
        .gender(Gender::Female)
        .size(Size::Small)
        .eye_color("green")
        .height(vec![Distance::Feet(3), Distance::Inches(4)])
        .hair_color("red")
        .skin_tone("pale")
        .age(Duration::Years(40))
        .weight(Weight::Pounds(40))
        .build()
        .unwrap();
    assert_eq!(full.get_alignment(), Alignment(Conformity::Chaotic, Morality::Good));
    assert_eq!(full.get_gender(), Some(Gender::Female));
    assert_eq!(full.get_size(), Size::Small);
    assert_eq!(full.get_eye_color(), "green");
    assert_eq!(full.get_height(), &[Distance::Feet(3), Distance::Inches(4)]);
    assert_eq!(full.get_faith(), None);
    assert_eq!(full.get_hair_color(), "red");
    assert_eq!(full.get_skin_tone(), "pale");
    assert_eq!(full.get_age(), Duration::Years(40));
    assert_eq!(full.weight(), Weight::Pounds(40));
}

#[test]
fn race_defaults_and_latest_resistance_wins() {
    let plain = race::Builder::new().name("Plain").build().unwrap();
    assert_eq!(plain.get_creature_type(), &CreatureType::Humanoid);
    assert_eq!(plain.get_size(), &Size::Medium);
    assert_eq!(plain.get_walking_speed(), 30);
    assert!(race::Builder::new().build().is_err());
    let tough = race::Builder::new()
        .name("Tough")
        .add_damage_resistance(DamageType::Poison)
        .add_damage_immunity(DamageType::Poison)
        .add_condition_resistance(Condition::Constrained)
        .add_language(Language::Undercommon)
        .build()
        .unwrap();
    assert_eq!(tough.get_damage_resistance(&DamageType::Poison), Some(Resistance::Immune));
    assert_eq!(tough.get_damage_resistance(&DamageType::Force), None);
    assert_eq!(tough.get_condition_resistance(&Condition::Constrained), Some(Resistance::Resistant));
    assert!(tough.can_speak(&Language::Undercommon));
    assert!(!tough.can_speak(&Language::Common));
    assert_eq!(Resistance::Resistant.get_damage_multiplier(), (1, 2));
    assert_eq!(Resistance::Vulnerable.get_damage_multiplier(), (2, 1));
    assert_eq!(Resistance::Immune.get_damage_multiplier(), (0, 1));
}

#[test]
fn senses_and_passive_scores() {
    let s = senses::Builder::new().darkvision(60).truesight(10).build();
    assert_eq!(s.get_darkvision(), Some(60));
    assert_eq!(s.get_truesight(), Some(10));
    assert_eq!(s.get_blindsight(), None);
    assert_eq!(s.get_tremorsense(), None);
    assert_eq!(s.get_passive_perception(3), 13);
    assert_eq!(s.get_passive_investigation(-4), 6);
    assert_eq!(s.get_passive_insight(-10), 0);
}

#[test]
fn personality_and_proficiency_lists_keep_their_order() {
    let p = Personality::default().add_trait("calm").add_trait("careful").add_ideal("people").add_bond("kin").add_flaw("greed");
    assert_eq!(p.traits, vec!["calm", "careful"]);
    assert_eq!(p.ideals, vec!["people"]);
    assert_eq!(p.bonds, vec!["kin"]);
    assert_eq!(p.flaws, vec!["greed"]);
    let mut t = Trained::new();
    assert_eq!(t.get_armor_proficiencies_string(), "");
    t.add_armor_proficiency("Light Armor");
    t.add_armor_proficiency("Shields");
    t.add_weapon_proficiency("Whip");
    t.add_tool_proficiency("Tinker's Tools");
    t.add_language(Language::Common);
    assert_eq!(t.get_armor_proficiencies_string(), "Light Armor, Shields");
    assert_eq!(t.get_armor_proficiencies(), &[String::from("Light Armor"), String::from("Shields")]);
    assert_eq!(t.get_weapon_proficiencies(), &[String::from("Whip")]);
    assert_eq!(t.get_tool_proficiencies_string(), "Tinker's Tools");
    assert_eq!(t.get_languages(), &[Language::Common]);
}
