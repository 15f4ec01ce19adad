use cygnus::class::HPIncreaseConstructionError;
use cygnus::psionics::ActError;
use cygnus::race::RaceConstructionError;
use cygnus::units::{Distance, Duration, Weight};
use cygnus::background;
use cygnus::character::{self, ConstructionError, Error};
use cygnus::characteristics;
use cygnus::class::ClassConstructionError;
use cygnus::item::ConstructionError as ItemError;
use cygnus::slot::{SlotError, SlotsError};

#[test]
fn error_messages_describe_the_problem() {
    assert_eq!(SlotError::Full.message(), "Slot already contains something.");
    assert_eq!(SlotError::Empty.message(), "Cannot remove something from empty Slot.");
    assert_eq!(SlotError::Invalid.message(), "Attempted to equip invalid value.");
    assert_eq!(
        SlotsError::NotExists { slot: String::from("belt") }.message(),
        "belt slot does not exist."
    );
    assert_eq!(
        Error::Equipment(SlotsError::SlotProblem(SlotError::Full)).message(),
        "Equipment: Slot already contains something."
    );
    assert_eq!(
        Error::Inventory(ItemError::MissingName).message(),
        "Inventory: Cannot create an Item without a name."
    );
    assert_eq!(ClassConstructionError::LevelOutOfBounds.message(), "Level must be between 1 and 20.");
    let ConstructionError::MissingField(_) = character::Builder::new().build().err().unwrap();
    assert_eq!(
        character::Builder::new().build().err().unwrap().message(),
        "Unable to create Character without name, alignment, race, ability scores, class(es)."
    );
    assert_eq!(
        background::Builder::new().name("x").description("y").build().err().unwrap().message(),
        "Build Error: missing field(s): `feature`, `proficiencies`"
    );
    assert_eq!(
        characteristics::Builder::new().build().err().unwrap().message(),
        "Unable to build Characteristics:\n\t`alignment`, `size`, `eye_color`, `height`, `hair_color`, `skin_tone`, `age`, `weight`"
    );
}

#[test]
fn unit_and_construction_texts() {
    assert_eq!(Duration::Instantaneous.text(), "inst");
    assert_eq!(Duration::Rounds(3).text(), "3 rnds.");
    assert_eq!(Duration::Minutes(10).text(), "10 mins.");
    assert_eq!(Duration::Hours(1).text(), "1 hrs.");
    assert_eq!(Duration::Years(40).text(), "40 yrs.");
    assert_eq!(Distance::Inches(4).text(), "4\"");
    assert_eq!(Distance::Feet(30).text(), "30'");
    assert_eq!(Weight::Pounds(105).text(), "105 lbs.");
    assert_eq!(
        HPIncreaseConstructionError::IncorrectNumberOfIncreases.message(),
        "Cannot have more increases than maximum level."
    );
    assert_eq!(RaceConstructionError::MissingName.message(), "Cannot construct race without a name.");
    assert_eq!(ActError::Overcharged.message(), "Cannot perform Act: act unable to handle psi points");
}
