use cygnus::ability::Identifier as Ability;
use cygnus::modifiers::Proficiency;
use cygnus::skill::{Identifier, Skill, Skills};

#[test]
fn _should_calculate_mod_with_no_proficiency() {
    let performance = Skill::new(None, None);
    assert_eq!(performance.get_modifier(5, 4), 5);
}

#[test]
fn _should_calculate_mod_with_proficiency() {
    let history = Skill::new(Some(Proficiency::Proficiency), None);
    assert_eq!(history.get_modifier(-1, 4), 3);
}

#[test]
fn _should_calculate_mod_with_expertise() {
    let history = Skill::new(Some(Proficiency::Expertise), None);
    assert_eq!(history.get_modifier(-1, 4), 7);
}

#[test]
fn skill_modifier_by_proficiency_tier() {
    let mut skills = Skills::default();
    assert_eq!(skills.get_modifier(Identifier::Arcana, -1, 2), -1);
    skills.set_proficiency(Identifier::Arcana, Some(Proficiency::Proficiency));
    assert_eq!(skills.get_modifier(Identifier::Arcana, -1, 2), 1);
    skills.set_proficiency(Identifier::Arcana, Some(Proficiency::Expertise));
    assert_eq!(skills.get_modifier(Identifier::Arcana, -1, 2), 3);
    assert_eq!(skills.get_proficiency(Identifier::Arcana), Some(Proficiency::Expertise));
    assert_eq!(skills.get_proficiency(Identifier::History), None);
    skills.set_proficiency(Identifier::Arcana, None);
    assert_eq!(skills.get_proficiency(Identifier::Arcana), None);
}

#[test]
fn skills_map_to_their_default_abilities() {
    assert_eq!(Identifier::all().len(), 18);
    assert_eq!(Identifier::Acrobatics.get_default_ability(), Ability::Dexterity);
    assert_eq!(Identifier::Arcana.get_default_ability(), Ability::Intelligence);
    assert_eq!(Identifier::Athletics.get_default_ability(), Ability::Strength);
    assert_eq!(Identifier::Perception.get_default_ability(), Ability::Wisdom);
    assert_eq!(Identifier::Persuasion.get_default_ability(), Ability::Charisma);
    assert_eq!(Identifier::SlightOfHand.name(), "Slight of Hand");
}
