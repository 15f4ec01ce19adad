use vstd::prelude::*;
use vstd::string::StringExecFns;
use crate::ability::{self, Abilities, combine_scores, modifier_of};
use crate::class::{
    Class,
    Classes,
    classes_feats,
    classes_hit_points,
    classes_hit_points_fit,
    classes_summary,
    level_sum,
    primary_saving_throw,
    proficiency_bonus_of,
};
use crate::feat::Feat;
use crate::item::{ArmorClass, Item, Items, weight_sum};
use crate::modifiers::{Encumbrance, Proficiency, proficiency_factor};
use crate::personality::Personality;
use crate::proficiencies::Proficiencies;
use crate::race::{CreatureType, Language, Race, Size};
use crate::senses::{Senses, passive_score};
use crate::skill::{self, Skills, skill_modifier};
use crate::slot::{ItemCriteria, ItemSlots, Slot, SlotsError, equipped, equipped_weight, has_named, is_first_named, lift_err};
use crate::text::{join, joined, push_text, text_if, texts};

verus! {

#[derive(Clone, Copy, Debug, PartialEq, Eq, Structural)]
pub enum Conformity {
    Lawful,
    Neutral,
    Chaotic,
}

impl Conformity {
    pub open spec fn spec_name(self) -> Seq<char> {
        match self {
            Conformity::Lawful => "Lawful"@,
            Conformity::Neutral => "Neutral"@,
            Conformity::Chaotic => "Chaotic"@,
        }
    }

    pub fn name(&self) -> (r: &'static str)
        ensures
            r@ == self.spec_name(),
    {
        match self {
            Conformity::Lawful => "Lawful",
            Conformity::Neutral => "Neutral",
            Conformity::Chaotic => "Chaotic",
        }
    }
}

#[derive(Clone, Copy, Debug, PartialEq, Eq, Structural)]
pub enum Morality {
    Good,
    Neutral,
    Evil,
}

impl Morality {
    pub open spec fn spec_name(self) -> Seq<char> {
        match self {
            Morality::Good => "Good"@,
            Morality::Neutral => "Neutral"@,
            Morality::Evil => "Evil"@,
        }
    }

    pub fn name(&self) -> (r: &'static str)
        ensures
            r@ == self.spec_name(),
    {
        match self {
            Morality::Good => "Good",
            Morality::Neutral => "Neutral",
            Morality::Evil => "Evil",
        }
    }
}

#[derive(Clone, Copy, Debug, PartialEq, Eq, Structural)]
pub struct Alignment(pub Conformity, pub Morality);

impl Alignment {
    /// The alignment as its two words, "Lawful Neutral" for instance.
    pub fn text(&self) -> (r: String)
        ensures
            r@ == self.0.spec_name() + " "@ + self.1.spec_name(),
    {
        let mut r = String::from_str(self.0.name());
        r.append(" ");
        r.append(self.1.name());
        r
    }
}

#[derive(Clone, Copy, Debug, PartialEq, Eq, Structural)]
pub enum Gender {
    Male,
    Female,
}

impl Gender {
    pub open spec fn spec_name(self) -> Seq<char> {
        match self {
            Gender::Male => "Male"@,
            Gender::Female => "Female"@,
        }
    }

    pub fn name(&self) -> (r: &'static str)
        ensures
            r@ == self.spec_name(),
    {
        match self {
            Gender::Male => "Male",
            Gender::Female => "Female",
        }
    }
}

/// The armor class one armor rating gives at a dexterity modifier: light armor
/// adds the modifier, medium armor adds it up to 2, heavy armor ignores it.
pub open spec fn armor_value(armor: ArmorClass, dex_modifier: int) -> int {
    match armor {
        ArmorClass::Light(ac) => ac + dex_modifier,
        ArmorClass::Medium(ac) => ac + if dex_modifier > 2 {
            2
        } else {
            dex_modifier
        },
        ArmorClass::Heavy(ac) => ac as int,
    }
}

/// The armor class of a sequence of items: the sum over the items with an armor rating.
pub open spec fn armor_total(items: Seq<Item>, dex_modifier: int) -> int
    decreases items.len(),
{
    if items.len() == 0 {
        0
    } else {
        armor_total(items.drop_last(), dex_modifier) + match items.last().spec_armor_class() {
            Some(a) => armor_value(a, dex_modifier),
            None => 0,
        }
    }
}

/// Whether the armor classes of the items, summed one after the other, stay
/// within machine integers.
pub open spec fn armor_fits(items: Seq<Item>, dex_modifier: int) -> bool
    decreases items.len(),
{
    if items.len() == 0 {
        true
    } else {
        &&& armor_fits(items.drop_last(), dex_modifier)
        &&& isize::MIN <= armor_total(items, dex_modifier) <= isize::MAX
        &&& match items.last().spec_armor_class() {
            Some(ArmorClass::Light(ac)) => ac <= isize::MAX && ac + dex_modifier <= isize::MAX,
            Some(ArmorClass::Medium(ac)) => ac <= isize::MAX - 2,
            Some(ArmorClass::Heavy(ac)) => ac <= isize::MAX,
            None => true,
        }
    }
}

/// The encumbrance tier of a carried weight at a strength score: none up to
/// five times the score, encumbered up to ten times, heavily encumbered above.
pub open spec fn encumbrance_of(weight: int, strength: int) -> Option<Encumbrance> {
    if weight > 10 * strength {
        Some(Encumbrance::HeavilyEncumbered)
    } else if weight > 5 * strength {
        Some(Encumbrance::Encumbered)
    } else {
        None
    }
}

/// The walking speed from a base speed: less 10 feet when encumbered or 20
/// when heavily encumbered (never below 0), then halved from exhaustion level
/// 2 on, then 0 from exhaustion level 5 on.
pub open spec fn walking_speed_of(
    base: int,
    encumbrance: Option<Encumbrance>,
    exhaustion: int,
) -> int {
    let penalty: int = match encumbrance {
        Some(Encumbrance::Encumbered) => 10,
        Some(Encumbrance::HeavilyEncumbered) => 20,
        None => 0,
    };
    let slowed: int = if base >= penalty {
        base - penalty
    } else {
        0
    };
    let halved: int = if exhaustion >= 2 {
        slowed / 2
    } else {
        slowed
    };
    if exhaustion >= 5 {
        0
    } else {
        halved
    }
}

/// The names of a sequence of languages.
pub open spec fn language_names(s: Seq<Language>) -> Seq<Seq<char>> {
    s.map_values(|l: Language| l.spec_name())
}

/// A player character and every component it owns.
#[derive(Debug)]
pub struct Character {
    name: String,
    alignment: Alignment,
    gender: Option<Gender>,
    personality: Personality,
    race: Race,
    base_ability_scores: Abilities,
    classes: Classes,
    skills: Skills,
    inventory: Items,
    equipment: ItemSlots,
    exhaustion_level: usize,
    damage: usize,
    senses: Senses,
    proficiencies: Proficiencies,
}

#[derive(Debug, PartialEq, Eq)]
pub enum Error {
    Equipment(SlotsError),
    Inventory(crate::item::ConstructionError),
}

impl Error {
    /// A sentence that describes the error, after the part it comes from.
    pub fn message(&self) -> (r: String)
        ensures
            match self {
                Error::Equipment(SlotsError::NotExists { slot }) => r@ == "Equipment: "@ + slot@
                    + " slot does not exist."@,
                Error::Equipment(SlotsError::SlotProblem(e)) => r@ == "Equipment: "@
                    + e.spec_message(),
                Error::Inventory(_) => r@ == "Inventory: "@ + "Cannot create an Item without a name."@,
            },
    {
        match self {
            Error::Equipment(e) => {
                let mut r = String::from_str("Equipment: ");
                let m = e.message();
                r.append(m.as_str());
                r
            },
            Error::Inventory(e) => {
                let mut r = String::from_str("Inventory: ");
                r.append(e.message());
                r
            },
        }
    }
}

impl Character {
    pub closed spec fn spec_name(self) -> Seq<char> {
        self.name@
    }

    pub closed spec fn spec_alignment(self) -> Alignment {
        self.alignment
    }

    pub closed spec fn spec_gender(self) -> Option<Gender> {
        self.gender
    }

    pub closed spec fn spec_race(self) -> Race {
        self.race
    }

    pub closed spec fn spec_personality(self) -> Personality {
        self.personality
    }

    pub closed spec fn spec_base_abilities(self) -> Abilities {
        self.base_ability_scores
    }

    pub closed spec fn spec_classes(self) -> Seq<Class> {
        self.classes.spec_classes()
    }

    pub closed spec fn spec_skills(self) -> Skills {
        self.skills
    }

    pub closed spec fn spec_inventory(self) -> Seq<Item> {
        self.inventory.spec_items()
    }

    pub closed spec fn spec_equipment(self) -> Seq<(String, Slot)> {
        self.equipment.spec_entries()
    }

    pub closed spec fn spec_exhaustion(self) -> usize {
        self.exhaustion_level
    }

    pub closed spec fn spec_damage(self) -> usize {
        self.damage
    }

    pub closed spec fn spec_senses(self) -> Senses {
        self.senses
    }

    pub closed spec fn spec_proficiencies(self) -> Proficiencies {
        self.proficiencies
    }

    /// Whether `self` and `o` agree on every component but those flagged.
    pub open spec fn agrees_except(
        self,
        o: Character,
        inventory: bool,
        equipment: bool,
        classes: bool,
        exhaustion: bool,
    ) -> bool {
        &&& self.spec_name() == o.spec_name()
        &&& self.spec_alignment() == o.spec_alignment()
        &&& self.spec_gender() == o.spec_gender()
        &&& self.spec_personality() == o.spec_personality()
        &&& self.spec_race() == o.spec_race()
        &&& self.spec_base_abilities() == o.spec_base_abilities()
        &&& self.spec_skills() == o.spec_skills()
        &&& self.spec_damage() == o.spec_damage()
        &&& self.spec_senses() == o.spec_senses()
        &&& self.spec_proficiencies() == o.spec_proficiencies()
        &&& (inventory || self.spec_inventory() == o.spec_inventory())
        &&& (equipment || self.spec_equipment() == o.spec_equipment())
        &&& (classes || self.spec_classes() == o.spec_classes())
        &&& (exhaustion || self.spec_exhaustion() == o.spec_exhaustion())
    }

    /// The effective score of an ability: own score combined with the ancestry bonus.
    pub open spec fn effective_score(self, id: ability::Identifier) -> Option<int> {
        combine_scores(
            self.spec_base_abilities().score_of(id),
            self.spec_race().spec_abilities().score_of(id),
        )
    }

    /// The effective score, 0 where neither set holds one.
    pub open spec fn ability_score(self, id: ability::Identifier) -> int {
        match self.effective_score(id) {
            Some(s) => s,
            None => 0,
        }
    }

    /// The modifier of the effective score, 0 where there is none.
    pub open spec fn ability_modifier(self, id: ability::Identifier) -> int {
        match self.effective_score(id) {
            Some(s) => modifier_of(s),
            None => 0,
        }
    }

    /// Every effective score fits a machine integer.
    pub open spec fn scores_fit(self) -> bool {
        forall|id: ability::Identifier| #[trigger]
            self.effective_score(id) matches Some(s) ==> s <= usize::MAX
    }

    pub open spec fn level(self) -> int {
        level_sum(self.spec_classes())
    }

    pub open spec fn proficiency_bonus(self) -> int {
        proficiency_bonus_of(self.level())
    }

    pub open spec fn saving_throw_modifier(self, id: ability::Identifier) -> int {
        self.proficiency_bonus() * proficiency_factor(primary_saving_throw(self.spec_classes(), id))
            + self.ability_modifier(id)
    }

    pub open spec fn carried_weight(self) -> int {
        weight_sum(self.spec_inventory()) + equipped_weight(self.spec_equipment())
    }

    pub open spec fn encumbrance(self) -> Option<Encumbrance> {
        encumbrance_of(self.carried_weight(), self.ability_score(ability::Identifier::Strength))
    }

    pub open spec fn walking_speed(self) -> int {
        walking_speed_of(
            self.spec_race().spec_walking_speed() as int,
            self.encumbrance(),
            self.spec_exhaustion() as int,
        )
    }

    pub open spec fn armor_class(self) -> int {
        armor_total(
            equipped(self.spec_equipment()),
            self.ability_modifier(ability::Identifier::Dexterity),
        )
    }

    pub open spec fn skill_modifier(self, s: skill::Identifier) -> int {
        skill_modifier(
            self.ability_modifier(s.spec_default_ability()),
            self.proficiency_bonus(),
            self.spec_skills().spec_proficiency(s),
        )
    }

    pub open spec fn hit_points_max(self) -> int {
        classes_hit_points(
            self.spec_classes(),
            self.ability_modifier(ability::Identifier::Constitution),
        )
    }

    pub open spec fn feats(self) -> Seq<Feat> {
        classes_feats(self.spec_classes()) + self.spec_race().spec_feats()
    }

    /// The sums behind the weight queries fit a machine integer.
    pub open spec fn weight_fits(self) -> bool {
        self.carried_weight() <= usize::MAX
    }

    /// The sums behind the level queries fit a machine integer.
    pub open spec fn level_fits(self) -> bool {
        self.level() <= usize::MAX
    }

    /// The sums behind a skill modifier fit a machine integer.
    pub open spec fn skill_fits(self, s: skill::Identifier) -> bool {
        &&& self.scores_fit()
        &&& self.level_fits()
        &&& self.skill_modifier(s) <= isize::MAX
    }

    /// The sums behind the hit points fit a machine integer.
    pub open spec fn hit_points_fit(self) -> bool {
        &&& self.scores_fit()
        &&& classes_hit_points_fit(
            self.spec_classes(),
            self.ability_modifier(ability::Identifier::Constitution),
        )
        &&& self.spec_damage() <= isize::MAX
        &&& self.hit_points_max() - self.spec_damage() >= isize::MIN
    }

    /// A character with the given name, alignment, ancestry and scores, and
    /// nothing else: no class, no trained skill, no item, no slot.
    pub fn new(name: &str, alignment: Alignment, race: Race, base_ability_scores: Abilities) -> (r:
        Character)
        ensures
            r.spec_name() == name@,
            r.spec_alignment() == alignment,
            r.spec_gender() is None,
            r.spec_race() == race,
            r.spec_base_abilities() == base_ability_scores,
            r.spec_classes().len() == 0,
            forall|s: skill::Identifier| #[trigger] r.spec_skills().spec_proficiency(s) is None,
            r.spec_inventory().len() == 0,
            r.spec_equipment().len() == 0,
            r.spec_exhaustion() == 0,
            r.spec_damage() == 0,
            r.spec_senses() == Senses::spec_none(),
            r.spec_proficiencies().spec_armor().len() == 0,
            r.spec_proficiencies().spec_weapons().len() == 0,
            r.spec_proficiencies().spec_tools().len() == 0,
            r.spec_proficiencies().spec_languages().len() == 0,
    {
        Character {
            name: name.to_owned(),
            alignment,
            gender: None,
            personality: Personality::new(),
            race,
            base_ability_scores,
            classes: Classes::new(),
            skills: Skills::default(),
            inventory: Items::new(),
            equipment: ItemSlots::new(),
            exhaustion_level: 0,
            damage: 0,
            senses: Senses::new(),
            proficiencies: Proficiencies::new(),
        }
    }

    #[must_use]
    pub fn get_name(&self) -> (r: &str)
        ensures
            r@ == self.spec_name(),
    {
        self.name.as_str()
    }

    #[must_use]
    pub fn get_alignment(&self) -> (r: Alignment)
        ensures
            r == self.spec_alignment(),
    {
        self.alignment
    }

    #[must_use]
    pub fn get_gender(&self) -> (r: Option<Gender>)
        ensures
            r == self.spec_gender(),
    {
        self.gender
    }

    #[must_use]
    pub fn get_personality(&self) -> (r: &Personality)
        ensures
            *r == self.spec_personality(),
    {
        &self.personality
    }

    #[must_use]
    pub fn get_race_name(&self) -> (r: &str)
        ensures
            r@ == self.spec_race().spec_name(),
    {
        self.race.get_name()
    }

    /// Each class as its name and level.
    #[must_use]
    pub fn get_class_details(&self) -> (r: String)
        ensures
            r@ == classes_summary(self.spec_classes()),
    {
        self.classes.summary()
    }

    /// The effective scores: own scores combined with the ancestry bonuses.
    pub fn get_abilities(&self) -> (r: Abilities)
        requires
            self.scores_fit(),
        ensures
            forall|id: ability::Identifier| #[trigger] r.score_of(id) == self.effective_score(id),
    {
        proof {
            assert forall|id: ability::Identifier| #[trigger]
                combine_scores(
                    self.base_ability_scores.score_of(id),
                    self.race.spec_abilities().score_of(id),
                ) matches Some(s) ==> s <= usize::MAX by {
                assert(self.effective_score(id) == combine_scores(
                    self.base_ability_scores.score_of(id),
                    self.race.spec_abilities().score_of(id),
                ));
            }
        }
        self.base_ability_scores.combine(self.race.get_abilities())
    }

    #[must_use]
    pub fn get_ability_score(&self, ability: ability::Identifier) -> (r: usize)
        requires
            self.scores_fit(),
        ensures
            r == self.ability_score(ability),
    {
        let abilities = self.get_abilities();
        match abilities.get_score(ability) {
            Some(s) => s,
            None => 0,
        }
    }

    #[must_use]
    pub fn get_ability_modifier(&self, ability: ability::Identifier) -> (r: isize)
        requires
            self.scores_fit(),
        ensures
            r == self.ability_modifier(ability),
            r >= -5,
    {
        let abilities = self.get_abilities();
        proof {
            self.base_ability_scores.lemma_score_range(ability);
            self.race.spec_abilities().lemma_score_range(ability);
        }
        match abilities.get_modifier(ability) {
            Some(m) => m,
            None => 0,
        }
    }

    /// The dexterity modifier.
    #[must_use]
    pub fn get_initiative(&self) -> (r: isize)
        requires
            self.scores_fit(),
        ensures
            r == self.ability_modifier(ability::Identifier::Dexterity),
    {
        self.get_ability_modifier(ability::Identifier::Dexterity)
    }

    #[must_use]
    pub fn get_creature_type(&self) -> (r: &CreatureType)
        ensures
            *r == self.spec_race().spec_creature_type(),
    {
        self.race.get_creature_type()
    }

    #[must_use]
    pub fn get_size(&self) -> (r: &Size)
        ensures
            *r == self.spec_race().spec_size(),
    {
        self.race.get_size()
    }

    #[must_use]
    pub fn get_level(&self) -> (r: usize)
        requires
            self.level_fits(),
        ensures
            r == self.level(),
    {
        self.classes.get_level()
    }

    #[must_use]
    pub fn get_proficiency_bonus(&self) -> (r: usize)
        requires
            self.level_fits(),
        ensures
            r == self.proficiency_bonus(),
    {
        self.classes.get_proficiency_bonus()
    }

    /// Read from the primary class only.
    #[must_use]
    pub fn get_saving_throw_proficiency(&self, ability: ability::Identifier) -> (r: Option<
        Proficiency,
    >)
        ensures
            r == primary_saving_throw(self.spec_classes(), ability),
    {
        self.classes.get_saving_throw_proficiency(ability)
    }

    /// The proficiency bonus if the primary class is proficient in the saving
    /// throw, plus the ability modifier.
    #[must_use]
    pub fn get_saving_throw_mod(&self, ability: ability::Identifier) -> (r: isize)
        requires
            self.scores_fit(),
            self.level_fits(),
            self.saving_throw_modifier(ability) <= isize::MAX,
        ensures
            r == self.saving_throw_modifier(ability),
    {
        let bonus = self.get_proficiency_bonus();
        let modifier = self.get_ability_modifier(ability);
        match self.get_saving_throw_proficiency(ability) {
            Some(p) => {
                assert(p.spec_multiplier() == 1) by {
                    assert(primary_saving_throw(self.spec_classes(), ability) == Some(
                        Proficiency::Proficiency,
                    ));
                }
                bonus as isize + modifier
            },
            None => modifier,
        }
    }

    /// The weight of the inventory plus that of the equipped items.
    pub fn get_total_weight_carried(&self) -> (r: usize)
        requires
            self.weight_fits(),
        ensures
            r == self.carried_weight(),
    {
        proof {
            crate::item::lemma_weight_sum_nonneg(self.spec_inventory());
            crate::item::lemma_weight_sum_nonneg(equipped(self.spec_equipment()));
        }
        self.inventory.get_total_weight() + self.equipment.get_total_weight()
    }

    /// None up to five times the strength score, encumbered up to ten times,
    /// heavily encumbered above.
    #[must_use]
    pub fn get_variant_encumbrance(&self) -> (r: Option<Encumbrance>)
        requires
            self.scores_fit(),
            self.weight_fits(),
        ensures
            r == self.encumbrance(),
    {
        let weight = self.get_total_weight_carried();
        let strength = self.get_ability_score(ability::Identifier::Strength);
        if strength <= usize::MAX / 10 && weight > 10 * strength {
            Some(Encumbrance::HeavilyEncumbered)
        } else if strength <= usize::MAX / 5 && weight > 5 * strength {
            Some(Encumbrance::Encumbered)
        } else {
            None
        }
    }

    /// The ancestry's speed, less the encumbrance penalty, then reduced by exhaustion.
    #[must_use]
    pub fn get_walking_speed(&self) -> (r: usize)
        requires
            self.scores_fit(),
            self.weight_fits(),
        ensures
            r == self.walking_speed(),
    {
        let base_speed = self.race.get_walking_speed();
        let penalty: usize = match self.get_variant_encumbrance() {
            Some(Encumbrance::Encumbered) => 10,
            Some(Encumbrance::HeavilyEncumbered) => 20,
            None => 0,
        };
        let mut walking_speed = if base_speed >= penalty {
            base_speed - penalty
        } else {
            0
        };
        let exhaustion_level = self.get_exhaustion_level();
        if exhaustion_level >= 2 {
            walking_speed = walking_speed / 2;
        }
        if exhaustion_level >= 5 {
            walking_speed = 0;
        }
        walking_speed
    }

    /// The sum, over every equipped item with an armor rating, of its value at
    /// the dexterity modifier.
    #[must_use]
    pub fn get_armor_class(&self) -> (r: isize)
        requires
            self.scores_fit(),
            armor_fits(
                equipped(self.spec_equipment()),
                self.ability_modifier(ability::Identifier::Dexterity),
            ),
        ensures
            r == self.armor_class(),
    {
        let dex_mod = self.get_ability_modifier(ability::Identifier::Dexterity);
        let items = self.equipment.get_equipped_items();
        let ghost all = equipped(self.spec_equipment());
        let mut total: isize = 0;
        let mut i: usize = 0;
        while i < items.len()
            invariant
                0 <= i <= items@.len(),
                items@.len() == all.len(),
                forall|k: int| 0 <= k < items@.len() ==> *items@[k] == all[k],
                armor_fits(all, dex_mod as int),
                dex_mod >= -5,
                total == armor_total(all.subrange(0, i as int), dex_mod as int),
            decreases items@.len() - i,
        {
            proof {
                lemma_armor_fits_prefix(all, i as int + 1, dex_mod as int);
                assert(all.subrange(0, i as int + 1).drop_last() =~= all.subrange(0, i as int));
                let p = all.subrange(0, i as int + 1);
                reveal_with_fuel(armor_fits, 1);
                assert(p.last() == all[i as int]);
            }
            let value: isize = match items[i].get_armor_class() {
                Some(ArmorClass::Light(ac)) => ac as isize + dex_mod,
                Some(ArmorClass::Medium(ac)) => ac as isize + if dex_mod > 2 {
                    2
                } else {
                    dex_mod
                },
                Some(ArmorClass::Heavy(ac)) => ac as isize,
                None => 0,
            };
            total = total + value;
            i = i + 1;
        }
        proof {
            assert(all.subrange(0, i as int) =~= all);
        }
        total
    }

    /// The hit points of all classes at the constitution modifier.
    #[must_use]
    pub fn get_hit_points_max(&self) -> (r: isize)
        requires
            self.hit_points_fit(),
        ensures
            r == self.hit_points_max(),
    {
        let constitution_modifier = self.get_ability_modifier(ability::Identifier::Constitution);
        self.classes.get_hit_points(constitution_modifier)
    }

    /// The maximum hit points less the damage taken.
    #[must_use]
    pub fn get_current_hit_points(&self) -> (r: isize)
        requires
            self.hit_points_fit(),
        ensures
            r == self.hit_points_max() - self.spec_damage(),
    {
        self.get_hit_points_max() - self.damage as isize
    }

    pub fn add_item(&mut self, item: Item)
        ensures
            final(self).spec_inventory() == old(self).spec_inventory().push(item),
            final(self).agrees_except(*old(self), true, false, false, false),
    {
        self.inventory.add_item(item);
    }

    #[must_use]
    pub fn get_exhaustion_level(&self) -> (r: usize)
        ensures
            r == self.spec_exhaustion(),
    {
        self.exhaustion_level
    }

    pub fn set_exhaustion_level(&mut self, new_level: usize)
        ensures
            final(self).spec_exhaustion() == new_level,
            final(self).agrees_except(*old(self), false, false, false, true),
    {
        self.exhaustion_level = new_level;
    }

    pub fn get_skill_proficiency(&self, skill: skill::Identifier) -> (r: Option<Proficiency>)
        ensures
            r == self.spec_skills().spec_proficiency(skill),
    {
        self.skills.get_proficiency(skill)
    }

    /// The modifier of the skill's default ability plus the proficiency bonus
    /// times the skill's multiplier.
    #[must_use]
    pub fn get_skill_modifier(&self, skill: skill::Identifier) -> (r: isize)
        requires
            self.skill_fits(skill),
        ensures
            r == self.skill_modifier(skill),
            r >= -5,
    {
        let ability_modifier = self.get_ability_modifier(skill.get_default_ability());
        let bonus = self.get_proficiency_bonus();
        proof {
            let f = proficiency_factor(self.spec_skills().spec_proficiency(skill));
            assert(0 <= f <= 2);
            assert(bonus * f >= 0) by (nonlinear_arith)
                requires
                    bonus >= 0,
                    f >= 0,
            ;
        }
        self.skills.get_modifier(skill, ability_modifier, bonus)
    }

    /// 10 plus the perception modifier.
    #[must_use]
    pub fn get_passive_perception(&self) -> (r: usize)
        requires
            self.skill_fits(skill::Identifier::Perception),
        ensures
            r == passive_score(self.skill_modifier(skill::Identifier::Perception)),
    {
        self.senses.get_passive_perception(self.get_skill_modifier(skill::Identifier::Perception))
    }

    /// 10 plus the investigation modifier.
    #[must_use]
    pub fn get_passive_investigation(&self) -> (r: usize)
        requires
            self.skill_fits(skill::Identifier::Investigation),
        ensures
            r == passive_score(self.skill_modifier(skill::Identifier::Investigation)),
    {
        self.senses.get_passive_investigation(
            self.get_skill_modifier(skill::Identifier::Investigation),
        )
    }

    /// 10 plus the insight modifier.
    #[must_use]
    pub fn get_passive_insight(&self) -> (r: usize)
        requires
            self.skill_fits(skill::Identifier::Insight),
        ensures
            r == passive_score(self.skill_modifier(skill::Identifier::Insight)),
    {
        self.senses.get_passive_insight(self.get_skill_modifier(skill::Identifier::Insight))
    }

    pub fn get_darkvision(&self) -> (r: Option<usize>)
        ensures
            r == self.spec_senses().spec_darkvision(),
    {
        self.senses.get_darkvision()
    }

    /// Takes a class after those already taken.
    pub fn add_class(&mut self, class: Class)
        ensures
            final(self).spec_classes() == old(self).spec_classes().push(class),
            final(self).agrees_except(*old(self), false, false, true, false),
    {
        self.classes.add_class(class);
    }

    pub fn add_equipment_slot(&mut self, slot_name: &str, slot: Slot)
        ensures
            forall|i: int|
                is_first_named(old(self).spec_equipment(), slot_name@, i) ==> final(self).spec_equipment()
                    == old(self).spec_equipment().update(i, (old(self).spec_equipment()[i].0, slot)),
            !has_named(old(self).spec_equipment(), slot_name@) ==> final(self).spec_equipment().len()
                == old(self).spec_equipment().len() + 1 && final(self).spec_equipment().drop_last()
                == old(self).spec_equipment() && final(self).spec_equipment().last().0@
                == slot_name@ && final(self).spec_equipment().last().1 == slot,
            final(self).agrees_except(*old(self), false, true, false, false),
    {
        self.equipment.add_slot(slot_name, slot);
    }

    /// Puts an item into the named slot, passing on the slot's error.
    pub fn equip_item(&mut self, item: Item, slot_name: &str) -> (r: Result<(), Error>)
        ensures
            !has_named(old(self).spec_equipment(), slot_name@) ==> (*final(self) == *old(self) && (
            r matches Err(Error::Equipment(SlotsError::NotExists { slot })) && slot@ == slot_name@)),
            forall|i: int|
                is_first_named(old(self).spec_equipment(), slot_name@, i) ==> final(self).spec_equipment()
                    == old(self).spec_equipment().update(
                    i,
                    (
                        old(self).spec_equipment()[i].0,
                        old(self).spec_equipment()[i].1.spec_equip(item).0,
                    ),
                ) && r == (match lift_err(old(self).spec_equipment()[i].1.spec_equip(item).1) {
                    Ok(v) => Ok(v),
                    Err(e) => Err(Error::Equipment(e)),
                }),
            final(self).agrees_except(*old(self), false, true, false, false),
    {
        match self.equipment.equip(item, slot_name) {
            Ok(()) => Ok(()),
            Err(e) => Err(Error::Equipment(e)),
        }
    }

    pub fn has_item_equipped_matching_criteria(&self, item_criteria: &ItemCriteria) -> (r: bool)
        ensures
            r == exists|i: int|
                0 <= i < self.spec_equipment().len() && (#[trigger] self.spec_equipment()[i].1.spec_value()
                    matches Some(item) && item_criteria.accepts(item)),
    {
        self.equipment.has_item_equipped_matching_criteria(item_criteria)
    }

    /// The feats of every class, class by class, then those of the ancestry.
    pub fn get_feats(&self) -> (r: Vec<&Feat>)
        ensures
            r@.len() == self.feats().len(),
            forall|i: int| 0 <= i < r@.len() ==> *r@[i] == self.feats()[i],
    {
        let mut r = self.classes.get_feats();
        let race_feats = self.race.get_feats();
        let ghost first = classes_feats(self.spec_classes());
        let ghost second = self.spec_race().spec_feats();
        let mut i: usize = 0;
        while i < race_feats.len()
            invariant
                0 <= i <= race_feats@.len(),
                race_feats@.len() == second.len(),
                forall|k: int| 0 <= k < race_feats@.len() ==> *race_feats@[k] == second[k],
                r@.len() == first.len() + i,
                forall|k: int| 0 <= k < r@.len() ==> *r@[k] == (first + second)[k],
            decreases race_feats@.len() - i,
        {
            r.push(race_feats[i]);
            i = i + 1;
        }
        r
    }

    pub fn get_armor_proficiencies_string(&self) -> (r: String)
        ensures
            r@ == joined(texts(self.spec_proficiencies().spec_armor()), ", "@),
    {
        self.proficiencies.get_armor_proficiencies_string()
    }

    pub fn get_weapon_proficiencies_string(&self) -> (r: String)
        ensures
            r@ == joined(texts(self.spec_proficiencies().spec_weapons()), ", "@),
    {
        self.proficiencies.get_weapon_proficiencies_string()
    }

    pub fn get_tool_proficiencies_string(&self) -> (r: String)
        ensures
            r@ == joined(texts(self.spec_proficiencies().spec_tools()), ", "@),
    {
        self.proficiencies.get_tool_proficiencies_string()
    }

    /// The languages learned, then those of the ancestry, separated by commas.
    pub fn get_languages_string(&self) -> (r: String)
        ensures
            r@ == joined(
                language_names(
                    self.spec_proficiencies().spec_languages() + self.spec_race().spec_languages(),
                ),
                ", "@,
            ),
    {
        let learned = self.proficiencies.get_languages();
        let inherited = self.race.get_languages();
        let mut names: Vec<String> = Vec::new();
        let mut i: usize = 0;
        while i < learned.len()
            invariant
                0 <= i <= learned@.len(),
                texts(names@) == language_names(learned@.subrange(0, i as int)),
            decreases learned@.len() - i,
        {
            let ghost prev = names@;
            let name = String::from_str(learned[i].name());
            names.push(name);
            proof {
                assert(texts(names@) =~= texts(prev).push(learned@[i as int].spec_name()));
                assert(texts(names@) =~= language_names(learned@.subrange(0, i as int + 1)));
            }
            i = i + 1;
        }
        proof {
            assert(learned@.subrange(0, i as int) =~= learned@);
        }
        let mut j: usize = 0;
        while j < inherited.len()
            invariant
                0 <= j <= inherited@.len(),
                texts(names@) == language_names(learned@ + inherited@.subrange(0, j as int)),
            decreases inherited@.len() - j,
        {
            let ghost prev = names@;
            let name = String::from_str(inherited[j].name());
            names.push(name);
            proof {
                assert(texts(names@) =~= texts(prev).push(inherited@[j as int].spec_name()));
                assert(learned@ + inherited@.subrange(0, j as int + 1) =~= (learned@
                    + inherited@.subrange(0, j as int)).push(inherited@[j as int]));
                assert(texts(names@) =~= language_names(
                    learned@ + inherited@.subrange(0, j as int + 1),
                ));
            }
            j = j + 1;
        }
        proof {
            assert(inherited@.subrange(0, j as int) =~= inherited@);
        }
        join(names.as_slice(), ", ")
    }
}

/// If the armor classes of all items can be summed, so can those of a prefix.
pub proof fn lemma_armor_fits_prefix(s: Seq<Item>, n: int, dex_modifier: int)
    requires
        0 <= n <= s.len(),
        armor_fits(s, dex_modifier),
    ensures
        armor_fits(s.subrange(0, n), dex_modifier),
    decreases s.len(),
{
    if n < s.len() {
        lemma_armor_fits_prefix(s.drop_last(), n, dex_modifier);
        assert(s.drop_last().subrange(0, n) =~= s.subrange(0, n));
    } else {
        assert(s.subrange(0, n) =~= s);
    }
}

/// Collects the parts of a character before it is built.
#[derive(Debug)]
pub struct Builder {
    name: Option<String>,
    alignment: Option<Alignment>,
    gender: Option<Gender>,
    personality: Option<Personality>,
    race: Option<Race>,
    base_ability_scores: Option<Abilities>,
    classes: Option<Classes>,
    skill_proficiencies: Option<Skills>,
    inventory: Option<Items>,
    equipment: Option<ItemSlots>,
    senses: Option<Senses>,
    proficiencies: Option<Proficiencies>,
}

#[derive(Debug, PartialEq, Eq)]
pub enum ConstructionError {
    /// Names every required field that was not given.
    MissingField(Vec<String>),
}

impl ConstructionError {
    /// A sentence that names the missing fields.
    pub fn message(&self) -> (r: String)
        ensures
            self matches ConstructionError::MissingField(f) && r@ == "Unable to create Character without "@
                + joined(texts(f@), ", "@) + "."@,
    {
        match self {
            ConstructionError::MissingField(fields) => {
                let mut r = String::from_str("Unable to create Character without ");
                let listed = join(fields.as_slice(), ", ");
                r.append(listed.as_str());
                r.append(".");
                r
            },
        }
    }
}

impl Builder {
    pub closed spec fn spec_name(self) -> Option<Seq<char>> {
        match self.name {
            Some(n) => Some(n@),
            None => None,
        }
    }

    pub closed spec fn spec_alignment(self) -> Option<Alignment> {
        self.alignment
    }

    pub closed spec fn spec_gender(self) -> Option<Gender> {
        self.gender
    }

    pub closed spec fn spec_race(self) -> Option<Race> {
        self.race
    }

    pub closed spec fn spec_personality(self) -> Option<Personality> {
        self.personality
    }

    pub closed spec fn spec_abilities(self) -> Option<Abilities> {
        self.base_ability_scores
    }

    pub closed spec fn spec_classes(self) -> Option<Seq<Class>> {
        match self.classes {
            Some(c) => Some(c.spec_classes()),
            None => None,
        }
    }

    pub closed spec fn spec_skills(self) -> Option<Skills> {
        self.skill_proficiencies
    }

    pub closed spec fn spec_inventory(self) -> Option<Seq<Item>> {
        match self.inventory {
            Some(i) => Some(i.spec_items()),
            None => None,
        }
    }

    pub closed spec fn spec_equipment(self) -> Option<Seq<(String, Slot)>> {
        match self.equipment {
            Some(e) => Some(e.spec_entries()),
            None => None,
        }
    }

    pub closed spec fn spec_senses(self) -> Option<Senses> {
        self.senses
    }

    pub closed spec fn spec_proficiencies(self) -> Option<Proficiencies> {
        self.proficiencies
    }

    /// Whether `self` and `o` agree on every field but the one `field` names:
    /// 0 name, 1 alignment, 2 gender, 3 personality, 4 ancestry, 5 scores,
    /// 6 classes, 7 skills, 8 inventory, 9 equipment, 10 senses, 11 proficiencies.
    pub open spec fn agrees_except(self, o: Builder, field: int) -> bool {
        &&& (field == 0 || self.spec_name() == o.spec_name())
        &&& (field == 1 || self.spec_alignment() == o.spec_alignment())
        &&& (field == 2 || self.spec_gender() == o.spec_gender())
        &&& (field == 3 || self.spec_personality() == o.spec_personality())
        &&& (field == 4 || self.spec_race() == o.spec_race())
        &&& (field == 5 || self.spec_abilities() == o.spec_abilities())
        &&& (field == 6 || self.spec_classes() == o.spec_classes())
        &&& (field == 7 || self.spec_skills() == o.spec_skills())
        &&& (field == 8 || self.spec_inventory() == o.spec_inventory())
        &&& (field == 9 || self.spec_equipment() == o.spec_equipment())
        &&& (field == 10 || self.spec_senses() == o.spec_senses())
        &&& (field == 11 || self.spec_proficiencies() == o.spec_proficiencies())
    }

    /// The required fields not given, in this order: name, alignment, race,
    /// ability scores, class(es).
    pub open spec fn missing(self) -> Seq<Seq<char>> {
        text_if(self.spec_name() is None, "name"@) + text_if(
            self.spec_alignment() is None,
            "alignment"@,
        ) + text_if(self.spec_race() is None, "race"@) + text_if(
            self.spec_abilities() is None,
            "ability scores"@,
        ) + text_if(self.spec_classes() is None, "class(es)"@)
    }

    pub fn new() -> (r: Builder)
        ensures
            r.spec_name() is None,
            r.spec_alignment() is None,
            r.spec_gender() is None,
            r.spec_race() is None,
            r.spec_abilities() is None,
            r.spec_classes() is None,
            r.spec_skills() is None,
            r.spec_inventory() is None,
            r.spec_equipment() is None,
            r.spec_senses() is None,
            r.spec_proficiencies() is None,
    {
        Builder {
            name: None,
            alignment: None,
            gender: None,
            personality: None,
            race: None,
            base_ability_scores: None,
            classes: None,
            skill_proficiencies: None,
            inventory: None,
            equipment: None,
            senses: None,
            proficiencies: None,
        }
    }

    /// Sets the name; an empty name is refused as missing.
    pub fn name(self, name: &str) -> (r: Result<Builder, ConstructionError>)
        ensures
            name@.len() == 0 ==> (r matches Err(ConstructionError::MissingField(f)) && texts(f@)
                == seq!["name"@]),
            name@.len() > 0 ==> (r matches Ok(b) && b.spec_name() == Some(name@) && b.agrees_except(self, 0)),
    {
        if name.is_empty() {
            let mut fields: Vec<String> = Vec::new();
            push_text(&mut fields, "name");
            proof {
                assert(texts(fields@) =~= seq!["name"@]);
            }
            return Err(ConstructionError::MissingField(fields));
        }
        let mut b = self;
        b.name = Some(name.to_owned());
        Ok(b)
    }

    pub fn alignment(self, conformity: Conformity, morality: Morality) -> (r: Result<
        Builder,
        ConstructionError,
    >)
        ensures
            r matches Ok(b) && b.spec_alignment() == Some(Alignment(conformity, morality)) && b.agrees_except(self, 1),
    {
        let mut b = self;
        b.alignment = Some(Alignment(conformity, morality));
        Ok(b)
    }

    pub fn gender(self, gender: Gender) -> (r: Result<Builder, ConstructionError>)
        ensures
            r matches Ok(b) && b.spec_gender() == Some(gender) && b.agrees_except(self, 2),
    {
        let mut b = self;
        b.gender = Some(gender);
        Ok(b)
    }

    pub fn personality(self, personality: Personality) -> (r: Result<Builder, ConstructionError>)
        ensures
            r matches Ok(b) && b.spec_personality() == Some(personality) && b.agrees_except(self, 3),
    {
        let mut b = self;
        b.personality = Some(personality);
        Ok(b)
    }

    pub fn race(self, race: Race) -> (r: Result<Builder, ConstructionError>)
        ensures
            r matches Ok(b) && b.spec_race() == Some(race) && b.agrees_except(self, 4),
    {
        let mut b = self;
        b.race = Some(race);
        Ok(b)
    }

    pub fn base_ability_scores(self, ability_scores: Abilities) -> (r: Result<
        Builder,
        ConstructionError,
    >)
        ensures
            r matches Ok(b) && b.spec_abilities() == Some(ability_scores) && b.agrees_except(self, 5),
    {
        let mut b = self;
        b.base_ability_scores = Some(ability_scores);
        Ok(b)
    }

    /// Takes a class after those already given.
    pub fn add_class(self, class: Class) -> (r: Result<Builder, ConstructionError>)
        ensures
            r matches Ok(b) && b.spec_classes() == Some(
                match self.spec_classes() {
                    Some(s) => s,
                    None => Seq::<Class>::empty(),
                }.push(class),
            ) && b.agrees_except(self, 6),
    {
        let mut b = self;
        let mut classes = match b.classes {
            Some(c) => c,
            None => Classes::new(),
        };
        classes.add_class(class);
        b.classes = Some(classes);
        Ok(b)
    }

    fn with_skill(self, skill: skill::Identifier, proficiency: Proficiency) -> (r: Builder)
        ensures
            r.spec_skills() matches Some(s) && s.spec_proficiency(skill) == Some(proficiency)
                && forall|other: skill::Identifier|
                other != skill ==> #[trigger] s.spec_proficiency(other) == match self.spec_skills() {
                    Some(t) => t.spec_proficiency(other),
                    None => None,
                },
            r.agrees_except(self, 7),
    {
        let mut b = self;
        let mut skills = match b.skill_proficiencies {
            Some(s) => s,
            None => Skills::default(),
        };
        skills.set_proficiency(skill, Some(proficiency));
        b.skill_proficiencies = Some(skills);
        b
    }

    pub fn add_skill_proficiency(self, skill: skill::Identifier) -> (r: Result<
        Builder,
        ConstructionError,
    >)
        ensures
            r matches Ok(b) && (b.spec_skills() matches Some(s) && s.spec_proficiency(skill) == Some(
                Proficiency::Proficiency,
            ) && forall|other: skill::Identifier|
                other != skill ==> #[trigger] s.spec_proficiency(other) == match self.spec_skills() {
                    Some(t) => t.spec_proficiency(other),
                    None => None,
                }) && b.agrees_except(self, 7),
    {
        Ok(self.with_skill(skill, Proficiency::Proficiency))
    }

    pub fn add_skill_expertise(self, skill: skill::Identifier) -> (r: Result<
        Builder,
        ConstructionError,
    >)
        ensures
            r matches Ok(b) && (b.spec_skills() matches Some(s) && s.spec_proficiency(skill) == Some(
                Proficiency::Expertise,
            ) && forall|other: skill::Identifier|
                other != skill ==> #[trigger] s.spec_proficiency(other) == match self.spec_skills() {
                    Some(t) => t.spec_proficiency(other),
                    None => None,
                }) && b.agrees_except(self, 7),
    {
        Ok(self.with_skill(skill, Proficiency::Expertise))
    }

    pub fn inventory(self, inventory: Items) -> (r: Result<Builder, ConstructionError>)
        ensures
            r matches Ok(b) && b.spec_inventory() == Some(inventory.spec_items()) && b.agrees_except(self, 8),
    {
        let mut b = self;
        b.inventory = Some(inventory);
        Ok(b)
    }

    pub fn add_item_to_inventory(self, item: Item) -> (r: Result<Builder, ConstructionError>)
        ensures
            r matches Ok(b) && b.spec_inventory() == Some(
                match self.spec_inventory() {
                    Some(s) => s,
                    None => Seq::<Item>::empty(),
                }.push(item),
            ) && b.agrees_except(self, 8),
    {
        let mut b = self;
        let mut inventory = match b.inventory {
            Some(i) => i,
            None => Items::new(),
        };
        inventory.add_item(item);
        b.inventory = Some(inventory);
        Ok(b)
    }

    pub fn equipment(self, equipment: ItemSlots) -> (r: Result<Builder, ConstructionError>)
        ensures
            r matches Ok(b) && b.spec_equipment() == Some(equipment.spec_entries()) && b.agrees_except(self, 9),
    {
        let mut b = self;
        b.equipment = Some(equipment);
        Ok(b)
    }

    /// Registers a slot, as `ItemSlots::add_slot` does.
    pub fn add_equipment_slot(self, slot_name: &str, slot: Slot) -> (r: Result<
        Builder,
        ConstructionError,
    >)
        ensures
            r matches Ok(b) && (b.spec_equipment() matches Some(after) && ({
                let before = match self.spec_equipment() {
                    Some(e) => e,
                    None => Seq::<(String, Slot)>::empty(),
                };
                &&& forall|i: int|
                    is_first_named(before, slot_name@, i) ==> after == before.update(
                        i,
                        (before[i].0, slot),
                    )
                &&& !has_named(before, slot_name@) ==> after.len() == before.len() + 1
                    && after.drop_last() == before && after.last().0@ == slot_name@
                    && after.last().1 == slot
            })) && b.agrees_except(self, 9),
    {
        let mut b = self;
        let mut equipment = match b.equipment {
            Some(e) => e,
            None => ItemSlots::new(),
        };
        equipment.add_slot(slot_name, slot);
        b.equipment = Some(equipment);
        Ok(b)
    }

    pub fn senses(self, senses: Senses) -> (r: Result<Builder, ConstructionError>)
        ensures
            r matches Ok(b) && b.spec_senses() == Some(senses) && b.agrees_except(self, 10),
    {
        let mut b = self;
        b.senses = Some(senses);
        Ok(b)
    }

    pub fn add_armor_proficiency(self, armor_class: &str) -> (r: Result<
        Builder,
        ConstructionError,
    >)
        ensures
            r matches Ok(b) && (b.spec_proficiencies() matches Some(p) && texts(p.spec_armor())
                == texts(
                match self.spec_proficiencies() {
                    Some(q) => q.spec_armor(),
                    None => Seq::<String>::empty(),
                },
            ).push(armor_class@)) && b.agrees_except(self, 11),
    {
        let mut b = self;
        let mut proficiencies = match b.proficiencies {
            Some(p) => p,
            None => Proficiencies::new(),
        };
        proficiencies.add_armor_proficiency(armor_class);
        b.proficiencies = Some(proficiencies);
        Ok(b)
    }

    pub fn add_weapon_proficiency(self, weapon: &str) -> (r: Result<Builder, ConstructionError>)
        ensures
            r matches Ok(b) && (b.spec_proficiencies() matches Some(p) && texts(p.spec_weapons())
                == texts(
                match self.spec_proficiencies() {
                    Some(q) => q.spec_weapons(),
                    None => Seq::<String>::empty(),
                },
            ).push(weapon@)) && b.agrees_except(self, 11),
    {
        let mut b = self;
        let mut proficiencies = match b.proficiencies {
            Some(p) => p,
            None => Proficiencies::new(),
        };
        proficiencies.add_weapon_proficiency(weapon);
        b.proficiencies = Some(proficiencies);
        Ok(b)
    }

    pub fn add_tool_proficiency(self, tool: &str) -> (r: Result<Builder, ConstructionError>)
        ensures
            r matches Ok(b) && (b.spec_proficiencies() matches Some(p) && texts(p.spec_tools())
                == texts(
                match self.spec_proficiencies() {
                    Some(q) => q.spec_tools(),
                    None => Seq::<String>::empty(),
                },
            ).push(tool@)) && b.agrees_except(self, 11),
    {
        let mut b = self;
        let mut proficiencies = match b.proficiencies {
            Some(p) => p,
            None => Proficiencies::new(),
        };
        proficiencies.add_tool_proficiency(tool);
        b.proficiencies = Some(proficiencies);
        Ok(b)
    }

    /// Builds the character; fails naming every required field not given.
    pub fn build(self) -> (r: Result<Character, ConstructionError>)
        ensures
            self.missing().len() > 0 ==> (r matches Err(ConstructionError::MissingField(f))
                && texts(f@) == self.missing()),
            self.missing().len() == 0 ==> (r matches Ok(c) && Some(c.spec_name())
                == self.spec_name() && Some(c.spec_alignment()) == self.spec_alignment()
                && c.spec_gender() == self.spec_gender() && Some(c.spec_race())
                == self.spec_race() && Some(c.spec_base_abilities()) == self.spec_abilities()
                && Some(c.spec_classes()) == self.spec_classes() && c.spec_inventory() == (
            match self.spec_inventory() {
                Some(i) => i,
                None => Seq::<Item>::empty(),
            }) && c.spec_equipment() == (match self.spec_equipment() {
                Some(e) => e,
                None => Seq::<(String, Slot)>::empty(),
            }) && (forall|s: skill::Identifier| #[trigger] c.spec_skills().spec_proficiency(s)
                == match self.spec_skills() {
                Some(t) => t.spec_proficiency(s),
                None => None,
            }) && (self.spec_senses() matches Some(s) ==> c.spec_senses() == s) && (
            self.spec_senses() is None ==> c.spec_senses() == Senses::spec_none()) && (
            self.spec_personality() matches Some(p) ==> c.spec_personality() == p) && (
            self.spec_proficiencies() matches Some(p) ==> c.spec_proficiencies() == p)
                && c.spec_exhaustion() == 0 && c.spec_damage() == 0),
    {
        let mut fields: Vec<String> = Vec::new();
        proof {
            assert(texts(fields@) =~= Seq::<Seq<char>>::empty());
        }
        if self.name.is_none() {
            push_text(&mut fields, "name");
        }
        proof {
            assert(texts(fields@) =~= text_if(self.spec_name() is None, "name"@));
        }
        if self.alignment.is_none() {
            push_text(&mut fields, "alignment");
        }
        proof {
            assert(texts(fields@) =~= text_if(self.spec_name() is None, "name"@) + text_if(
                self.spec_alignment() is None,
                "alignment"@,
            ));
        }
        if self.race.is_none() {
            push_text(&mut fields, "race");
        }
        proof {
            assert(texts(fields@) =~= text_if(self.spec_name() is None, "name"@) + text_if(
                self.spec_alignment() is None,
                "alignment"@,
            ) + text_if(self.spec_race() is None, "race"@));
        }
        if self.base_ability_scores.is_none() {
            push_text(&mut fields, "ability scores");
        }
        proof {
            assert(texts(fields@) =~= text_if(self.spec_name() is None, "name"@) + text_if(
                self.spec_alignment() is None,
                "alignment"@,
            ) + text_if(self.spec_race() is None, "race"@) + text_if(
                self.spec_abilities() is None,
                "ability scores"@,
            ));
        }
        if self.classes.is_none() {
            push_text(&mut fields, "class(es)");
        }
        proof {
            assert(texts(fields@) =~= self.missing());
        }
        if fields.len() > 0 {
            return Err(ConstructionError::MissingField(fields));
        }
        proof {
            assert(self.missing().len() == 0);
            assert(text_if(self.spec_name() is None, "name"@).len() == 0);
        }
        match (self.name, self.alignment, self.race, self.base_ability_scores, self.classes) {
            (Some(name), Some(alignment), Some(race), Some(base_ability_scores), Some(classes)) => {
                let skills = match self.skill_proficiencies {
                    Some(s) => s,
                    None => Skills::default(),
                };
                let inventory = match self.inventory {
                    Some(i) => i,
                    None => Items::new(),
                };
                let equipment = match self.equipment {
                    Some(e) => e,
                    None => ItemSlots::new(),
                };
                let personality = match self.personality {
                    Some(p) => p,
                    None => Personality::new(),
                };
                let senses = match self.senses {
                    Some(s) => s,
                    None => Senses::new(),
                };
                let proficiencies = match self.proficiencies {
                    Some(p) => p,
                    None => Proficiencies::new(),
                };
                Ok(
                    Character {
                        name,
                        alignment,
                        gender: self.gender,
                        personality,
                        race,
                        base_ability_scores,
                        classes,
                        skills,
                        inventory,
                        equipment,
                        exhaustion_level: 0,
                        damage: 0,
                        senses,
                        proficiencies,
                    },
                )
            },
            _ => {
                proof {
                    assert(text_if(self.spec_alignment() is None, "alignment"@).len() == 0);
                    assert(text_if(self.spec_race() is None, "race"@).len() == 0);
                    assert(text_if(self.spec_abilities() is None, "ability scores"@).len() == 0);
                    assert(text_if(self.spec_classes() is None, "class(es)"@).len() == 0);
                }
                Err(ConstructionError::MissingField(fields))
            },
        }
    }
}

/// Encumbrance thresholds are strict: carrying exactly five times the
/// strength score is not yet encumbered, one more is; carrying exactly ten
/// times is encumbered, one more is heavily encumbered.
pub proof fn lemma_encumbrance_thresholds(strength: int)
    requires
        strength >= 0,
    ensures
        encumbrance_of(5 * strength, strength) is None,
        strength > 0 ==> encumbrance_of(5 * strength + 1, strength) == Some(
            Encumbrance::Encumbered,
        ),
        strength > 0 ==> encumbrance_of(10 * strength, strength) == Some(Encumbrance::Encumbered),
        encumbrance_of(10 * strength + 1, strength) == Some(Encumbrance::HeavilyEncumbered),
{
}

/// The encumbrance penalty comes before the exhaustion halving, and from
/// exhaustion level 5 on the speed is 0 whatever the load.
pub proof fn lemma_walking_speed_order(
    base: int,
    encumbrance: Option<Encumbrance>,
    exhaustion: int,
)
    requires
        base >= 0,
    ensures
        exhaustion >= 5 ==> walking_speed_of(base, encumbrance, exhaustion) == 0,
        2 <= exhaustion < 5 ==> walking_speed_of(base, encumbrance, exhaustion)
            == walking_speed_of(base, encumbrance, 0) / 2,
        exhaustion < 2 ==> walking_speed_of(base, encumbrance, exhaustion) == walking_speed_of(
            base,
            encumbrance,
            0,
        ),
        walking_speed_of(base, encumbrance, exhaustion) >= 0,
{
}

} // verus!
