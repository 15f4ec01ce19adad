use vstd::prelude::*;
use crate::ability::{self, Abilities, AbilitiesTemplate};
use crate::character::{self, Character, Conformity, Gender, Morality};
use crate::class::{self, HPIncreases};
use crate::item::{self, ArmorClass};
use crate::personality::Personality;
use crate::race::{self, Language};
use crate::senses;
use crate::skill;
use crate::slot::{ItemCriteria, Slot};

verus! {

/// The number of entries of the navigation menu.
pub const NAV_MENU_LEN: usize = 10;

/// Whether the navigation menu is open, and which entry is selected.
#[derive(Clone, Debug, Default)]
pub struct NavMenuState {
    pub is_open: bool,
    pub selected: usize,
}

/// The state of the character sheet application.
#[derive(Debug)]
pub struct App {
    /// Whether the application keeps running.
    pub running: bool,
    pub character: Option<Character>,
    pub nav_menu_state: NavMenuState,
}

fn slot_for(tag: &str) -> (r: Slot)
    ensures
        r.spec_value() is None,
        r.spec_validator() matches ItemCriteria::HasType(t) && t@ == tag@,
{
    Slot::new(ItemCriteria::HasType(tag.to_owned()))
}

/// The sample character the sheet shows.
fn create_character() -> Option<Character> {
    let personality = Personality::new().add_trait(
        "I always have a plan for what to do when things go wrong.",
    ).add_trait(
        "I am always calm, no matter what the situation. I never raise my voice or let my emotions control me.",
    ).add_ideal(
        "People. I'm loyal to my friends, not to any ideals, and everyone else can take a trip down the Styx for all I care.",
    ).add_bond(
        "Someone I loved died because of a mistake I made. That will never happen again.",
    ).add_flaw("I turn tail and run when things look bad.");
    let race = match race::Builder::new().name("Haskellian").add_ability(
        ability::Identifier::Intelligence,
        2,
    ).add_ability(ability::Identifier::Dexterity, 1).add_language(Language::Common).add_language(
        Language::Undercommon,
    ).build() {
        Ok(r) => r,
        Err(_) => return None,
    };
    let hp_increases = match HPIncreases::try_from(vec![8, 5, 5, 5, 5, 5, 5, 5, 5, 5, 5, 5]) {
        Ok(h) => h,
        Err(_) => return None,
    };
    let artificer = match class::Builder::new().name("Artificer") {
        Ok(b) => b,
        Err(_) => return None,
    };
    let artificer = match artificer.level(12) {
        Ok(b) => b,
        Err(_) => return None,
    };
    let artificer = match artificer.hp_increases(hp_increases) {
        Ok(b) => b,
        Err(_) => return None,
    };
    let artificer = match artificer.add_saving_throw_proficiency(ability::Identifier::Intelligence) {
        Ok(b) => b,
        Err(_) => return None,
    };
    let artificer = match artificer.add_saving_throw_proficiency(ability::Identifier::Constitution) {
        Ok(b) => b,
        Err(_) => return None,
    };
    let artificer = match artificer.build() {
        Ok(c) => c,
        Err(_) => return None,
    };
    let senses = senses::Builder::new().darkvision(60).build();
    let b = match character::Builder::new().name("\u{1d6f4}\u{1d704}\u{1d6fe}\u{1d708}\u{1d710}\u{1d70d}") {
        Ok(b) => b,
        Err(_) => return None,
    };
    let scores = Abilities::from(
        AbilitiesTemplate {
            strength: 10,
            dexterity: 15,
            constitution: 10,
            intelligence: 15,
            wisdom: 10,
            charisma: 10,
        },
    );
    let b = match b.alignment(Conformity::Lawful, Morality::Neutral) {
        Ok(b) => b,
        Err(_) => return None,
    };
    let b = match b.gender(Gender::Male) {
        Ok(b) => b,
        Err(_) => return None,
    };
    let b = match b.personality(personality) {
        Ok(b) => b,
        Err(_) => return None,
    };
    let b = match b.race(race) {
        Ok(b) => b,
        Err(_) => return None,
    };
    let b = match b.base_ability_scores(scores) {
        Ok(b) => b,
        Err(_) => return None,
    };
    let b = match b.add_class(artificer) {
        Ok(b) => b,
        Err(_) => return None,
    };
    let skills = vec![
        skill::Identifier::Arcana,
        skill::Identifier::Insight,
        skill::Identifier::Investigation,
        skill::Identifier::Perception,
        skill::Identifier::Stealth,
    ];
    let mut b = b;
    let mut i: usize = 0;
    while i < skills.len()
        decreases skills@.len() - i,
    {
        b = match b.add_skill_proficiency(skills[i]) {
            Ok(b) => b,
            Err(_) => return None,
        };
        i = i + 1;
    }
    let b = match b.add_equipment_slot("armor", slot_for("armor")) {
        Ok(b) => b,
        Err(_) => return None,
    };
    let b = match b.add_equipment_slot("cloak", slot_for("cloak")) {
        Ok(b) => b,
        Err(_) => return None,
    };
    let b = match b.add_equipment_slot("left hand", slot_for("hand")) {
        Ok(b) => b,
        Err(_) => return None,
    };
    let b = match b.senses(senses) {
        Ok(b) => b,
        Err(_) => return None,
    };
    let armor = ["Heavy Armor", "Light Armor", "Medium Armor", "Shields"];
    let weapons = ["Firearms", "Rapier", "Simple Weapons", "Whip"];
    let tools = [
        "Alchemist's Supplies",
        "Playing Card Set",
        "Smith's Tools",
        "Thieves' Tools",
        "Three-Dragon Ante Set",
        "Tinker's Tools",
    ];
    let mut b = b;
    let mut i: usize = 0;
    while i < armor.len()
        decreases armor@.len() - i,
    {
        b = match b.add_armor_proficiency(armor[i]) {
            Ok(b) => b,
            Err(_) => return None,
        };
        i = i + 1;
    }
    let mut i: usize = 0;
    while i < weapons.len()
        decreases weapons@.len() - i,
    {
        b = match b.add_weapon_proficiency(weapons[i]) {
            Ok(b) => b,
            Err(_) => return None,
        };
        i = i + 1;
    }
    let mut i: usize = 0;
    while i < tools.len()
        decreases tools@.len() - i,
    {
        b = match b.add_tool_proficiency(tools[i]) {
            Ok(b) => b,
            Err(_) => return None,
        };
        i = i + 1;
    }
    let mut character = match b.build() {
        Ok(c) => c,
        Err(_) => return None,
    };
    let mithral_plate = match equipment_piece("Mithral Plate", 65, ArmorClass::Heavy(18), "armor") {
        Some(item) => item,
        None => return None,
    };
    if character.equip_item(mithral_plate, "armor").is_err() {
        return None;
    }
    let cloak_of_protection = match equipment_piece(
        "Cloak of Protection",
        0,
        ArmorClass::Heavy(1),
        "cloak",
    ) {
        Some(item) => item,
        None => return None,
    };
    if character.equip_item(cloak_of_protection, "cloak").is_err() {
        return None;
    }
    let shield = match equipment_piece("Shield", 6, ArmorClass::Heavy(2), "hand") {
        Some(item) => item,
        None => return None,
    };
    if character.equip_item(shield, "left hand").is_err() {
        return None;
    }
    Some(character)
}

/// An item with a name, a weight, an armor rating and one type tag.
fn equipment_piece(name: &str, weight: usize, armor_class: ArmorClass, tag: &str) -> Option<
    item::Item,
> {
    let b = match item::Builder::new().name(name) {
        Ok(b) => b,
        Err(_) => return None,
    };
    let b = match b.weight(weight) {
        Ok(b) => b,
        Err(_) => return None,
    };
    let b = match b.armor_class(armor_class) {
        Ok(b) => b,
        Err(_) => return None,
    };
    let b = match b.add_type(tag) {
        Ok(b) => b,
        Err(_) => return None,
    };
    match b.build() {
        Ok(item) => Some(item),
        Err(_) => None,
    }
}

impl App {
    /// A running application showing the sample character, with the
    /// navigation menu closed on its first entry.
    pub fn new() -> (r: App)
        ensures
            r.running,
            !r.nav_menu_state.is_open,
            r.nav_menu_state.selected == 0,
    {
        App {
            running: true,
            character: create_character(),
            nav_menu_state: NavMenuState { is_open: false, selected: 0 },
        }
    }

    /// Handles a tick of the terminal: nothing changes.
    pub fn tick(&self) {
    }

    /// Stops the application.
    pub fn quit(&mut self)
        ensures
            !final(self).running,
            final(self).nav_menu_state == old(self).nav_menu_state,
            final(self).character == old(self).character,
    {
        self.running = false;
    }

    pub fn toggle_nav_menu(&mut self)
        ensures
            final(self).nav_menu_state.is_open == !old(self).nav_menu_state.is_open,
            final(self).nav_menu_state.selected == old(self).nav_menu_state.selected,
            final(self).running == old(self).running,
            final(self).character == old(self).character,
    {
        self.nav_menu_state.is_open = !self.nav_menu_state.is_open;
    }

    /// Selects the next entry, wrapping from the last to the first.
    pub fn nav_down(&mut self)
        ensures
            old(self).nav_menu_state.selected < usize::MAX ==> final(self).nav_menu_state.selected
                == (old(self).nav_menu_state.selected + 1) % (NAV_MENU_LEN as int),
            old(self).nav_menu_state.selected == usize::MAX ==> final(self).nav_menu_state.selected
                == old(self).nav_menu_state.selected,
            final(self).nav_menu_state.is_open == old(self).nav_menu_state.is_open,
            final(self).running == old(self).running,
            final(self).character == old(self).character,
    {
        if self.nav_menu_state.selected < usize::MAX {
            self.nav_menu_state.selected = (self.nav_menu_state.selected + 1) % NAV_MENU_LEN;
        }
    }

    /// Selects the previous entry, wrapping from the first to the last.
    pub fn nav_up(&mut self)
        ensures
            old(self).nav_menu_state.selected <= usize::MAX - NAV_MENU_LEN ==> final(self).nav_menu_state.selected == (old(self).nav_menu_state.selected + NAV_MENU_LEN - 1) % (
            NAV_MENU_LEN as int),
            old(self).nav_menu_state.selected > usize::MAX - NAV_MENU_LEN ==> final(self).nav_menu_state.selected == old(self).nav_menu_state.selected,
            final(self).nav_menu_state.is_open == old(self).nav_menu_state.is_open,
            final(self).running == old(self).running,
            final(self).character == old(self).character,
    {
        if self.nav_menu_state.selected <= usize::MAX - NAV_MENU_LEN {
            self.nav_menu_state.selected = (self.nav_menu_state.selected + NAV_MENU_LEN - 1)
                % NAV_MENU_LEN;
        }
    }
}

} // verus!
