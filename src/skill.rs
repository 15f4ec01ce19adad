use vstd::prelude::*;
use crate::ability;
use crate::modifiers::{Proficiency, proficiency_factor};

verus! {

/// The eighteen skills.
#[derive(Clone, Copy, Debug, PartialEq, Eq, Hash, Structural)]
pub enum Identifier {
    Acrobatics,
    AnimalHandling,
    Arcana,
    Athletics,
    Deception,
    History,
    Insight,
    Intimidation,
    Investigation,
    Medicine,
    Nature,
    Perception,
    Performance,
    Persuasion,
    Religion,
    SlightOfHand,
    Stealth,
    Survival,
}

pub open spec fn all_skills() -> Seq<Identifier> {
    seq![
        Identifier::Acrobatics,
        Identifier::AnimalHandling,
        Identifier::Arcana,
        Identifier::Athletics,
        Identifier::Deception,
        Identifier::History,
        Identifier::Insight,
        Identifier::Intimidation,
        Identifier::Investigation,
        Identifier::Medicine,
        Identifier::Nature,
        Identifier::Perception,
        Identifier::Performance,
        Identifier::Persuasion,
        Identifier::Religion,
        Identifier::SlightOfHand,
        Identifier::Stealth,
        Identifier::Survival,
    ]
}

/// The modifier of a skill check: the ability modifier plus the proficiency
/// bonus times 0, 1 or 2 for no proficiency, proficiency or expertise.
pub open spec fn skill_modifier(
    ability_modifier: int,
    proficiency_bonus: int,
    proficiency: Option<Proficiency>,
) -> int {
    ability_modifier + proficiency_bonus * proficiency_factor(proficiency)
}

impl Identifier {
    pub fn all() -> (r: Vec<Identifier>)
        ensures
            r@ == all_skills(),
    {
        let r = vec![
            Identifier::Acrobatics,
            Identifier::AnimalHandling,
            Identifier::Arcana,
            Identifier::Athletics,
            Identifier::Deception,
            Identifier::History,
            Identifier::Insight,
            Identifier::Intimidation,
            Identifier::Investigation,
            Identifier::Medicine,
            Identifier::Nature,
            Identifier::Perception,
            Identifier::Performance,
            Identifier::Persuasion,
            Identifier::Religion,
            Identifier::SlightOfHand,
            Identifier::Stealth,
            Identifier::Survival,
        ];
        proof {
            assert(r@ =~= all_skills());
        }
        r
    }

    /// The position of the skill in `all_skills()`.
    pub open spec fn spec_index(self) -> int {
        match self {
            Identifier::Acrobatics => 0,
            Identifier::AnimalHandling => 1,
            Identifier::Arcana => 2,
            Identifier::Athletics => 3,
            Identifier::Deception => 4,
            Identifier::History => 5,
            Identifier::Insight => 6,
            Identifier::Intimidation => 7,
            Identifier::Investigation => 8,
            Identifier::Medicine => 9,
            Identifier::Nature => 10,
            Identifier::Perception => 11,
            Identifier::Performance => 12,
            Identifier::Persuasion => 13,
            Identifier::Religion => 14,
            Identifier::SlightOfHand => 15,
            Identifier::Stealth => 16,
            Identifier::Survival => 17,
        }
    }

    fn index(&self) -> (r: usize)
        ensures
            r == self.spec_index(),
            r < 18,
    {
        match self {
            Identifier::Acrobatics => 0,
            Identifier::AnimalHandling => 1,
            Identifier::Arcana => 2,
            Identifier::Athletics => 3,
            Identifier::Deception => 4,
            Identifier::History => 5,
            Identifier::Insight => 6,
            Identifier::Intimidation => 7,
            Identifier::Investigation => 8,
            Identifier::Medicine => 9,
            Identifier::Nature => 10,
            Identifier::Perception => 11,
            Identifier::Performance => 12,
            Identifier::Persuasion => 13,
            Identifier::Religion => 14,
            Identifier::SlightOfHand => 15,
            Identifier::Stealth => 16,
            Identifier::Survival => 17,
        }
    }

    /// The ability a skill is keyed to; a fixed table.
    pub open spec fn spec_default_ability(self) -> ability::Identifier {
        match self {
            Identifier::Acrobatics | Identifier::SlightOfHand | Identifier::Stealth => {
                ability::Identifier::Dexterity
            },
            Identifier::AnimalHandling
            | Identifier::Insight
            | Identifier::Medicine
            | Identifier::Perception
            | Identifier::Survival => ability::Identifier::Wisdom,
            Identifier::Arcana
            | Identifier::History
            | Identifier::Investigation
            | Identifier::Nature
            | Identifier::Religion => ability::Identifier::Intelligence,
            Identifier::Athletics => ability::Identifier::Strength,
            Identifier::Deception
            | Identifier::Intimidation
            | Identifier::Performance
            | Identifier::Persuasion => ability::Identifier::Charisma,
        }
    }

    #[must_use]
    pub fn get_default_ability(&self) -> (r: ability::Identifier)
        ensures
            r == self.spec_default_ability(),
    {
        match self {
            Identifier::Acrobatics | Identifier::SlightOfHand | Identifier::Stealth => {
                ability::Identifier::Dexterity
            },
            Identifier::AnimalHandling
            | Identifier::Insight
            | Identifier::Medicine
            | Identifier::Perception
            | Identifier::Survival => ability::Identifier::Wisdom,
            Identifier::Arcana
            | Identifier::History
            | Identifier::Investigation
            | Identifier::Nature
            | Identifier::Religion => ability::Identifier::Intelligence,
            Identifier::Athletics => ability::Identifier::Strength,
            Identifier::Deception
            | Identifier::Intimidation
            | Identifier::Performance
            | Identifier::Persuasion => ability::Identifier::Charisma,
        }
    }

    pub open spec fn spec_name(self) -> Seq<char> {
        match self {
            Identifier::Acrobatics => "Acrobatics"@,
            Identifier::AnimalHandling => "Animal Handling"@,
            Identifier::Arcana => "Arcana"@,
            Identifier::Athletics => "Athletics"@,
            Identifier::Deception => "Deception"@,
            Identifier::History => "History"@,
            Identifier::Insight => "Insight"@,
            Identifier::Intimidation => "Intimidation"@,
            Identifier::Investigation => "Investigation"@,
            Identifier::Medicine => "Medicine"@,
            Identifier::Nature => "Nature"@,
            Identifier::Perception => "Perception"@,
            Identifier::Performance => "Performance"@,
            Identifier::Persuasion => "Persuasion"@,
            Identifier::Religion => "Religion"@,
            Identifier::SlightOfHand => "Slight of Hand"@,
            Identifier::Stealth => "Stealth"@,
            Identifier::Survival => "Survival"@,
        }
    }

    /// The display name of the skill.
    pub fn name(&self) -> (r: &'static str)
        ensures
            r@ == self.spec_name(),
    {
        match self {
            Identifier::Acrobatics => "Acrobatics",
            Identifier::AnimalHandling => "Animal Handling",
            Identifier::Arcana => "Arcana",
            Identifier::Athletics => "Athletics",
            Identifier::Deception => "Deception",
            Identifier::History => "History",
            Identifier::Insight => "Insight",
            Identifier::Intimidation => "Intimidation",
            Identifier::Investigation => "Investigation",
            Identifier::Medicine => "Medicine",
            Identifier::Nature => "Nature",
            Identifier::Perception => "Perception",
            Identifier::Performance => "Performance",
            Identifier::Persuasion => "Persuasion",
            Identifier::Religion => "Religion",
            Identifier::SlightOfHand => "Slight of Hand",
            Identifier::Stealth => "Stealth",
            Identifier::Survival => "Survival",
        }
    }
}

#[derive(Clone, Copy, Debug, PartialEq, Eq, Structural)]
pub enum Advantage {
    Advantage,
    Disadvantage,
}

/// The training state of one skill.
#[derive(Clone, Copy, Debug, Default, PartialEq, Eq, Structural)]
pub struct Skill {
    proficiency: Option<Proficiency>,
    advantage: Option<Advantage>,
}

impl Skill {
    pub closed spec fn spec_proficiency(self) -> Option<Proficiency> {
        self.proficiency
    }

    pub closed spec fn spec_advantage(self) -> Option<Advantage> {
        self.advantage
    }

    pub fn new(proficiency: Option<Proficiency>, advantage: Option<Advantage>) -> (r: Skill)
        ensures
            r.spec_proficiency() == proficiency,
            r.spec_advantage() == advantage,
    {
        Skill { proficiency, advantage }
    }

    pub fn get_proficiency(&self) -> (r: Option<Proficiency>)
        ensures
            r == self.spec_proficiency(),
    {
        self.proficiency
    }

    pub fn get_advantage(&self) -> (r: Option<Advantage>)
        ensures
            r == self.spec_advantage(),
    {
        self.advantage
    }

    /// `ability_modifier + proficiency_bonus * multiplier(proficiency)`.
    pub fn get_modifier(&self, ability_modifier: isize, proficiency_bonus: usize) -> (r: isize)
        requires
            isize::MIN <= skill_modifier(
                ability_modifier as int,
                proficiency_bonus as int,
                self.spec_proficiency(),
            ) <= isize::MAX,
        ensures
            r == skill_modifier(
                ability_modifier as int,
                proficiency_bonus as int,
                self.spec_proficiency(),
            ),
    {
        let multiplier: i128 = match self.proficiency {
            Some(p) => p.multiplier() as i128,
            None => 0,
        };
        let bonus = (proficiency_bonus as i128) * multiplier;
        (bonus + ability_modifier as i128) as isize
    }
}

/// The state of every skill of a character.
#[derive(Clone, Debug)]
pub struct Skills(Vec<Skill>);

impl Skills {
    /// The proficiency recorded for a skill.
    pub closed spec fn spec_proficiency(self, skill: Identifier) -> Option<Proficiency> {
        if skill.spec_index() < self.0@.len() {
            self.0@[skill.spec_index()].spec_proficiency()
        } else {
            None
        }
    }

    #[must_use]
    pub fn get_proficiency(&self, skill: Identifier) -> (r: Option<Proficiency>)
        ensures
            r == self.spec_proficiency(skill),
    {
        let i = skill.index();
        if i < self.0.len() {
            self.0[i].get_proficiency()
        } else {
            None
        }
    }

    pub fn set_proficiency(&mut self, skill: Identifier, proficiency: Option<Proficiency>)
        ensures
            final(self).spec_proficiency(skill) == proficiency,
            forall|other: Identifier|
                other != skill ==> #[trigger] final(self).spec_proficiency(other) == old(
                    self,
                ).spec_proficiency(other),
    {
        let i = skill.index();
        if i < self.0.len() {
            let advantage = self.0[i].get_advantage();
            self.0.set(i, Skill { proficiency, advantage });
        } else {
            // a table shorter than the list of skills grows to reach this one
            while self.0.len() < i
                invariant
                    i < 18,
                    old(self).0@.len() <= self.0@.len() <= i,
                    forall|j: int| 0 <= j < old(self).0@.len() ==> self.0@[j] == old(self).0@[j],
                    forall|j: int|
                        old(self).0@.len() <= j < self.0@.len() ==> self.0@[j].spec_proficiency()
                            is None,
                decreases i - self.0@.len(),
            {
                self.0.push(Skill { proficiency: None, advantage: None });
            }
            self.0.push(Skill { proficiency, advantage: None });
        }
        proof {
            assert forall|other: Identifier| other != skill implies #[trigger] self.spec_proficiency(
                other,
            ) == old(self).spec_proficiency(other) by {
                assert(other.spec_index() != skill.spec_index());
            }
        }
    }

    /// The modifier of a skill check with the given ability modifier and
    /// proficiency bonus.
    pub fn get_modifier(&self, skill: Identifier, ability_modifier: isize, proficiency_bonus: usize) -> (r: isize)
        requires
            isize::MIN <= skill_modifier(
                ability_modifier as int,
                proficiency_bonus as int,
                self.spec_proficiency(skill),
            ) <= isize::MAX,
        ensures
            r == skill_modifier(
                ability_modifier as int,
                proficiency_bonus as int,
                self.spec_proficiency(skill),
            ),
    {
        let i = skill.index();
        if i < self.0.len() {
            self.0[i].get_modifier(ability_modifier, proficiency_bonus)
        } else {
            ability_modifier
        }
    }
}

impl Default for Skills {
    fn default() -> (r: Skills)
        ensures
            forall|s: Identifier| #[trigger] r.spec_proficiency(s) is None,
    {
        let mut v: Vec<Skill> = Vec::new();
        let mut i: usize = 0;
        while i < 18
            invariant
                i <= 18,
                v@.len() == i,
                forall|j: int| 0 <= j < i ==> (#[trigger] v@[j]).spec_proficiency() is None,
            decreases 18 - i,
        {
            v.push(Skill { proficiency: None, advantage: None });
            i = i + 1;
        }
        Skills(v)
    }
}

} // verus!
