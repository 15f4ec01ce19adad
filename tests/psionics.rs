use cygnus::psionics::discipline::{Act, BuildError, Builder, Discipline};
use cygnus::psionics::Talent;

const FIGMENT: &str = "As an action, choose one creature you can see within 60 feet of you. The target must make an Intelligence saving throw. On a failed save, it takes 1d10 psychic damage per psi point spent and thinks it perceives a threatening creature just out of its sight; until the end of your next turn, it can’t use reactions, and melee attack rolls against it have advantage. On a successful save, it takes half as much damage.";

#[test]
fn _should_succeed_when_all_fields_filled() {
    let act = Act::new("Distracting Figment", FIGMENT, 1..8, None);
    let builder = Builder::new()
        .name("Psychic Phantoms")
        .order("Awakened")
        .description("Your power reaches into the creature's mind and creates false perceptions.")
        .focus("While focused on this discipline, you have advantage on all Charisma (Deception) checks.")
        .add_act(&act);
    let built_discipline: Discipline = builder.try_into().unwrap();
    assert_eq!(built_discipline.get_name(), "Psychic Phantoms");
    assert_eq!(built_discipline.get_order(), "Awakened");
    assert_eq!(
        built_discipline.get_description(),
        "Your power reaches into the creature's mind and creates false perceptions."
    );
    assert_eq!(
        built_discipline.get_focus(),
        "While focused on this discipline, you have advantage on all Charisma (Deception) checks."
    );
    assert_eq!(built_discipline.get_acts().len(), 1);
    let built_act = &built_discipline.get_acts()[0];
    assert_eq!(built_act.get_name(), "Distracting Figment");
    assert_eq!(built_act.get_description(), FIGMENT);
    assert_eq!(built_act.get_cost(), 1..8);
    assert_eq!(built_act.get_duration(), &None);
    assert!(built_discipline.has_act(&act));
}

#[test]
fn _should_return_error_when_missing_field() {
    let empty_buider = Builder::new();
    assert_eq!(
        Discipline::try_from(empty_buider),
        Err(BuildError::new_missing_fields_error(&["name", "order", "description", "focus"]))
    );
    let named_builder = Builder::new().name("Test");
    assert_eq!(
        Discipline::try_from(named_builder),
        Err(BuildError::new_missing_fields_error(&["order", "description", "focus"]))
    );
    let named_ordered_builder = Builder::new().name("Test").order("Test");
    assert_eq!(
        Discipline::try_from(named_ordered_builder),
        Err(BuildError::new_missing_fields_error(&["description", "focus"]))
    );
}

#[test]
fn _should_handle_multiple_missing_fields() {
    let build_error = BuildError::new_missing_fields_error(&["name", "order", "description"]);
    assert_eq!(
        build_error.to_string(),
        "Unable to build Discipline:\n\tmissing field(s): `name`, `order`, `description`"
    );
}

#[test]
fn discipline_knows_only_its_own_acts() {
    let act = Act::new("Ego Whip", "Psychic lash.", 1..6, None);
    let other = Act::new("Ego Whip", "Psychic lash.", 1..7, None);
    let discipline = Builder::new()
        .name("Intellect Fortress")
        .order("Awakened")
        .description("Guards the mind.")
        .focus("Resistance to psychic damage.")
        .add_act(&act)
        .build()
        .unwrap();
    assert!(discipline.has_act(&act));
    assert!(!discipline.has_act(&other));
    let talent = Talent::new("Mind Thrust", "A quick strike.");
    assert_eq!(talent.get_name(), "Mind Thrust");
    assert_eq!(talent.get_description(), "A quick strike.");
}
