use vstd::prelude::*;
use crate::ability::{Abilities, Identifier};
use crate::feat::Feat;
use crate::modifiers::Resistance;

verus! {

/// The walking speed of an ancestry built without one, in feet.
pub const DEFAULT_WALKING_SPEED: usize = 30;

#[derive(Clone, Copy, Debug, PartialEq, Eq, Structural)]
pub enum CreatureType {
    Aberration,
    Beast,
    Celestial,
    Construct,
    Dragon,
    Elemental,
    Fey,
    Fiend,
    Giant,
    Humanoid,
    Monstrosity,
    Ooze,
    Plant,
    Undead,
}

#[derive(Clone, Copy, Debug, PartialEq, Eq, Hash, Structural)]
pub enum DamageType {
    Necrotic,
    Radiant,
    Poison,
    Force,
}

#[derive(Clone, Copy, Debug, PartialEq, Eq, Hash, Structural)]
pub enum Condition {
    MagicalSleep,
    Constrained,
    Unconscience,
}

#[derive(Clone, Copy, Debug, PartialEq, Eq, Structural)]
pub enum Size {
    Tiny,
    Small,
    Medium,
    Large,
    Huge,
    Gargantuan,
}

#[derive(Clone, Copy, Debug, PartialEq, Eq, Structural)]
pub enum Language {
    Common,
    Undercommon,
}

impl Language {
    pub open spec fn spec_name(self) -> Seq<char> {
        match self {
            Language::Common => "Common"@,
            Language::Undercommon => "Undercommon"@,
        }
    }

    /// The name of the language.
    pub fn name(&self) -> (r: &'static str)
        ensures
            r@ == self.spec_name(),
    {
        match self {
            Language::Common => "Common",
            Language::Undercommon => "Undercommon",
        }
    }
}

/// The resistance recorded last for a key; a later entry overrides an earlier one.
pub open spec fn latest_resistance<K>(s: Seq<(K, Resistance)>, key: K) -> Option<Resistance>
    decreases s.len(),
{
    if s.len() == 0 {
        None
    } else if s.last().0 == key {
        Some(s.last().1)
    } else {
        latest_resistance(s.drop_last(), key)
    }
}

fn find_damage_resistance(s: &Vec<(DamageType, Resistance)>, key: DamageType) -> (r: Option<
    Resistance,
>)
    ensures
        r == latest_resistance(s@, key),
{
    let mut i: usize = s.len();
    proof {
        assert(s@.subrange(0, i as int) =~= s@);
    }
    while i > 0
        invariant
            0 <= i <= s@.len(),
            latest_resistance(s@, key) == latest_resistance(s@.subrange(0, i as int), key),
        decreases i,
    {
        proof {
            assert(s@.subrange(0, i as int).drop_last() =~= s@.subrange(0, i as int - 1));
        }
        if s[i - 1].0 == key {
            return Some(s[i - 1].1);
        }
        i = i - 1;
    }
    None
}

fn find_condition_resistance(s: &Vec<(Condition, Resistance)>, key: Condition) -> (r: Option<
    Resistance,
>)
    ensures
        r == latest_resistance(s@, key),
{
    let mut i: usize = s.len();
    proof {
        assert(s@.subrange(0, i as int) =~= s@);
    }
    while i > 0
        invariant
            0 <= i <= s@.len(),
            latest_resistance(s@, key) == latest_resistance(s@.subrange(0, i as int), key),
        decreases i,
    {
        proof {
            assert(s@.subrange(0, i as int).drop_last() =~= s@.subrange(0, i as int - 1));
        }
        if s[i - 1].0 == key {
            return Some(s[i - 1].1);
        }
        i = i - 1;
    }
    None
}

/// Collects the fields of an ancestry before it is built.
#[derive(Debug)]
pub struct Builder {
    name: Option<String>,
    creature_type: Option<CreatureType>,
    size: Option<Size>,
    walking_speed: Option<usize>,
    abilities: Abilities,
    damage_resistances: Vec<(DamageType, Resistance)>,
    condition_resistances: Vec<(Condition, Resistance)>,
    languages: Vec<Language>,
    feats: Vec<Feat>,
}

#[derive(Debug, PartialEq, Eq, Structural)]
pub enum RaceConstructionError {
    MissingName,
}

impl RaceConstructionError {
    /// A sentence that describes the error.
    pub fn message(&self) -> (r: &'static str)
        ensures
            r@ == "Cannot construct race without a name."@,
    {
        "Cannot construct race without a name."
    }
}

impl Builder {
    pub closed spec fn spec_name(self) -> Option<Seq<char>> {
        match self.name {
            Some(n) => Some(n@),
            None => None,
        }
    }

    pub closed spec fn spec_creature_type(self) -> Option<CreatureType> {
        self.creature_type
    }

    pub closed spec fn spec_size(self) -> Option<Size> {
        self.size
    }

    pub closed spec fn spec_walking_speed(self) -> Option<usize> {
        self.walking_speed
    }

    pub closed spec fn spec_abilities(self) -> Abilities {
        self.abilities
    }

    pub closed spec fn spec_damage(self) -> Seq<(DamageType, Resistance)> {
        self.damage_resistances@
    }

    pub closed spec fn spec_conditions(self) -> Seq<(Condition, Resistance)> {
        self.condition_resistances@
    }

    pub closed spec fn spec_languages(self) -> Seq<Language> {
        self.languages@
    }

    pub closed spec fn spec_feats(self) -> Seq<Feat> {
        self.feats@
    }

    /// Whether the two builders agree on every field but those flagged.
    pub open spec fn same_except(
        self,
        o: Builder,
        name: bool,
        kind: bool,
        speed: bool,
        abilities: bool,
        resist: bool,
        languages: bool,
        feats: bool,
    ) -> bool {
        &&& (name || self.spec_name() == o.spec_name())
        &&& (kind || (self.spec_creature_type() == o.spec_creature_type() && self.spec_size()
            == o.spec_size()))
        &&& (speed || self.spec_walking_speed() == o.spec_walking_speed())
        &&& (abilities || self.spec_abilities() == o.spec_abilities())
        &&& (resist || (self.spec_damage() == o.spec_damage() && self.spec_conditions()
            == o.spec_conditions()))
        &&& (languages || self.spec_languages() == o.spec_languages())
        &&& (feats || self.spec_feats() == o.spec_feats())
    }

    pub fn new() -> (r: Builder)
        ensures
            r.spec_name() is None,
            r.spec_creature_type() is None,
            r.spec_size() is None,
            r.spec_walking_speed() is None,
            forall|id: Identifier| #[trigger] r.spec_abilities().score_of(id) is None,
            r.spec_damage().len() == 0,
            r.spec_conditions().len() == 0,
            r.spec_languages().len() == 0,
            r.spec_feats().len() == 0,
    {
        Builder {
            name: None,
            creature_type: None,
            size: None,
            walking_speed: None,
            abilities: Abilities::empty(),
            damage_resistances: Vec::new(),
            condition_resistances: Vec::new(),
            languages: Vec::new(),
            feats: Vec::new(),
        }
    }

    pub fn name(self, name: &str) -> (r: Builder)
        ensures
            r.spec_name() == Some(name@),
            r.same_except(self, true, false, false, false, false, false, false),
    {
        let mut b = self;
        b.name = Some(name.to_owned());
        b
    }

    pub fn creature_type(self, creature_type: CreatureType) -> (r: Builder)
        ensures
            r.spec_creature_type() == Some(creature_type),
            r.spec_size() == self.spec_size(),
            r.same_except(self, false, true, false, false, false, false, false),
    {
        let mut b = self;
        b.creature_type = Some(creature_type);
        b
    }

    pub fn size(self, size: Size) -> (r: Builder)
        ensures
            r.spec_size() == Some(size),
            r.spec_creature_type() == self.spec_creature_type(),
            r.same_except(self, false, true, false, false, false, false, false),
    {
        let mut b = self;
        b.size = Some(size);
        b
    }

    pub fn walking_speed(self, walking_speed: usize) -> (r: Builder)
        ensures
            r.spec_walking_speed() == Some(walking_speed),
            r.same_except(self, false, false, true, false, false, false, false),
    {
        let mut b = self;
        b.walking_speed = Some(walking_speed);
        b
    }

    /// Sets the ancestry's bonus to one ability.
    pub fn add_ability(self, ability: Identifier, score: usize) -> (r: Builder)
        ensures
            r.spec_abilities().score_of(ability) == Some(score as int),
            forall|id: Identifier|
                id != ability ==> #[trigger] r.spec_abilities().score_of(id)
                    == self.spec_abilities().score_of(id),
            r.same_except(self, false, false, false, true, false, false, false),
    {
        let mut b = self;
        b.abilities.set_score(ability, score);
        b
    }

    pub fn add_damage_resistance(self, damage_type: DamageType) -> (r: Builder)
        ensures
            r.spec_damage() == self.spec_damage().push((damage_type, Resistance::Resistant)),
            r.spec_conditions() == self.spec_conditions(),
            r.same_except(self, false, false, false, false, true, false, false),
    {
        let mut b = self;
        b.damage_resistances.push((damage_type, Resistance::Resistant));
        b
    }

    pub fn add_damage_immunity(self, damage_type: DamageType) -> (r: Builder)
        ensures
            r.spec_damage() == self.spec_damage().push((damage_type, Resistance::Immune)),
            r.spec_conditions() == self.spec_conditions(),
            r.same_except(self, false, false, false, false, true, false, false),
    {
        let mut b = self;
        b.damage_resistances.push((damage_type, Resistance::Immune));
        b
    }

    pub fn add_condition_resistance(self, condition: Condition) -> (r: Builder)
        ensures
            r.spec_conditions() == self.spec_conditions().push((condition, Resistance::Resistant)),
            r.spec_damage() == self.spec_damage(),
            r.same_except(self, false, false, false, false, true, false, false),
    {
        let mut b = self;
        b.condition_resistances.push((condition, Resistance::Resistant));
        b
    }

    pub fn add_condition_immunity(self, condition: Condition) -> (r: Builder)
        ensures
            r.spec_conditions() == self.spec_conditions().push((condition, Resistance::Immune)),
            r.spec_damage() == self.spec_damage(),
            r.same_except(self, false, false, false, false, true, false, false),
    {
        let mut b = self;
        b.condition_resistances.push((condition, Resistance::Immune));
        b
    }

    pub fn add_language(self, language: Language) -> (r: Builder)
        ensures
            r.spec_languages() == self.spec_languages().push(language),
            r.same_except(self, false, false, false, false, false, true, false),
    {
        let mut b = self;
        b.languages.push(language);
        b
    }

    pub fn add_feat(self, feat: Feat) -> (r: Builder)
        ensures
            r.spec_feats() == self.spec_feats().push(feat),
            r.same_except(self, false, false, false, false, false, false, true),
    {
        let mut b = self;
        b.feats.push(feat);
        b
    }

    /// Builds the ancestry: the name is required; the creature type defaults to
    /// humanoid, the size to medium and the walking speed to 30 feet.
    pub fn build(self) -> (r: Result<Race, RaceConstructionError>)
        ensures
            r is Err <==> self.spec_name() is None,
            r matches Ok(race) ==> Some(race.spec_name()) == self.spec_name()
                && race.spec_creature_type() == (match self.spec_creature_type() {
                Some(c) => c,
                None => CreatureType::Humanoid,
            }) && race.spec_size() == (match self.spec_size() {
                Some(s) => s,
                None => Size::Medium,
            }) && race.spec_walking_speed() == (match self.spec_walking_speed() {
                Some(w) => w,
                None => DEFAULT_WALKING_SPEED,
            }) && race.spec_abilities() == self.spec_abilities() && race.spec_damage()
                == self.spec_damage() && race.spec_conditions() == self.spec_conditions()
                && race.spec_languages() == self.spec_languages() && race.spec_feats()
                == self.spec_feats(),
    {
        let name = match self.name {
            Some(n) => n,
            None => return Err(RaceConstructionError::MissingName),
        };
        let creature_type = match self.creature_type {
            Some(c) => c,
            None => CreatureType::Humanoid,
        };
        let size = match self.size {
            Some(s) => s,
            None => Size::Medium,
        };
        let walking_speed = match self.walking_speed {
            Some(w) => w,
            None => DEFAULT_WALKING_SPEED,
        };
        Ok(
            Race {
                name,
                creature_type,
                size,
                walking_speed,
                abilities: self.abilities,
                damage_resistances: self.damage_resistances,
                condition_resistances: self.condition_resistances,
                languages: self.languages,
                feats: self.feats,
            },
        )
    }
}

/// The fields of an ancestry written out.
pub struct Template {
    pub name: String,
    pub creature_type: CreatureType,
    pub size: Size,
    pub walking_speed: usize,
    pub abilities: Abilities,
    pub damage_resistances: Vec<(DamageType, Resistance)>,
    pub condition_resistances: Vec<(Condition, Resistance)>,
    pub languages: Vec<Language>,
}

/// An ancestry: fixed ability bonuses, creature type, size, speed,
/// resistances, languages and feats.
#[derive(Clone, Debug)]
pub struct Race {
    name: String,
    creature_type: CreatureType,
    size: Size,
    walking_speed: usize,
    abilities: Abilities,
    damage_resistances: Vec<(DamageType, Resistance)>,
    condition_resistances: Vec<(Condition, Resistance)>,
    languages: Vec<Language>,
    feats: Vec<Feat>,
}

impl Template {
    /// The ancestry with these fields and no feats.
    pub fn into_race(self) -> (r: Race)
        ensures
            r.spec_name() == self.name@,
            r.spec_creature_type() == self.creature_type,
            r.spec_size() == self.size,
            r.spec_walking_speed() == self.walking_speed,
            r.spec_abilities() == self.abilities,
            r.spec_damage() == self.damage_resistances@,
            r.spec_conditions() == self.condition_resistances@,
            r.spec_languages() == self.languages@,
            r.spec_feats().len() == 0,
    {
        Race {
            name: self.name,
            creature_type: self.creature_type,
            size: self.size,
            walking_speed: self.walking_speed,
            abilities: self.abilities,
            damage_resistances: self.damage_resistances,
            condition_resistances: self.condition_resistances,
            languages: self.languages,
            feats: Vec::new(),
        }
    }
}

impl Race {
    pub closed spec fn spec_name(self) -> Seq<char> {
        self.name@
    }

    pub closed spec fn spec_creature_type(self) -> CreatureType {
        self.creature_type
    }

    pub closed spec fn spec_size(self) -> Size {
        self.size
    }

    pub closed spec fn spec_walking_speed(self) -> usize {
        self.walking_speed
    }

    pub closed spec fn spec_abilities(self) -> Abilities {
        self.abilities
    }

    pub closed spec fn spec_damage(self) -> Seq<(DamageType, Resistance)> {
        self.damage_resistances@
    }

    pub closed spec fn spec_conditions(self) -> Seq<(Condition, Resistance)> {
        self.condition_resistances@
    }

    pub closed spec fn spec_languages(self) -> Seq<Language> {
        self.languages@
    }

    pub closed spec fn spec_feats(self) -> Seq<Feat> {
        self.feats@
    }

    #[must_use]
    pub fn get_name(&self) -> (r: &str)
        ensures
            r@ == self.spec_name(),
    {
        self.name.as_str()
    }

    #[must_use]
    pub fn get_creature_type(&self) -> (r: &CreatureType)
        ensures
            *r == self.spec_creature_type(),
    {
        &self.creature_type
    }

    #[must_use]
    pub fn get_size(&self) -> (r: &Size)
        ensures
            *r == self.spec_size(),
    {
        &self.size
    }

    #[must_use]
    pub fn get_walking_speed(&self) -> (r: usize)
        ensures
            r == self.spec_walking_speed(),
    {
        self.walking_speed
    }

    #[must_use]
    pub fn get_abilities(&self) -> (r: &Abilities)
        ensures
            *r == self.spec_abilities(),
    {
        &self.abilities
    }

    /// The resistance to a damage type, the one recorded last.
    #[must_use]
    pub fn get_damage_resistance(&self, damage_type: &DamageType) -> (r: Option<Resistance>)
        ensures
            r == latest_resistance(self.spec_damage(), *damage_type),
    {
        find_damage_resistance(&self.damage_resistances, *damage_type)
    }

    /// The resistance to a condition, the one recorded last.
    #[must_use]
    pub fn get_condition_resistance(&self, condition: &Condition) -> (r: Option<Resistance>)
        ensures
            r == latest_resistance(self.spec_conditions(), *condition),
    {
        find_condition_resistance(&self.condition_resistances, *condition)
    }

    #[must_use]
    pub fn get_languages(&self) -> (r: &[Language])
        ensures
            r@ == self.spec_languages(),
    {
        self.languages.as_slice()
    }

    #[must_use]
    pub fn can_speak(&self, language: &Language) -> (r: bool)
        ensures
            r == self.spec_languages().contains(*language),
    {
        let mut i: usize = 0;
        while i < self.languages.len()
            invariant
                0 <= i <= self.languages@.len(),
                forall|j: int| 0 <= j < i ==> self.languages@[j] != *language,
            decreases self.languages@.len() - i,
        {
            if self.languages[i] == *language {
                return true;
            }
            i = i + 1;
        }
        false
    }

    pub fn get_feats(&self) -> (r: Vec<&Feat>)
        ensures
            r@.len() == self.spec_feats().len(),
            forall|i: int| 0 <= i < r@.len() ==> *r@[i] == self.spec_feats()[i],
    {
        let mut r: Vec<&Feat> = Vec::new();
        let mut i: usize = 0;
        while i < self.feats.len()
            invariant
                0 <= i <= self.feats@.len(),
                r@.len() == i,
                forall|k: int| 0 <= k < i ==> *r@[k] == self.feats@[k],
            decreases self.feats@.len() - i,
        {
            r.push(&self.feats[i]);
            i = i + 1;
        }
        r
    }

    pub fn add_feat(&mut self, feat: Feat)
        ensures
            final(self).spec_feats() == old(self).spec_feats().push(feat),
            final(self).spec_name() == old(self).spec_name(),
            final(self).spec_creature_type() == old(self).spec_creature_type(),
            final(self).spec_size() == old(self).spec_size(),
            final(self).spec_walking_speed() == old(self).spec_walking_speed(),
            final(self).spec_abilities() == old(self).spec_abilities(),
            final(self).spec_damage() == old(self).spec_damage(),
            final(self).spec_conditions() == old(self).spec_conditions(),
            final(self).spec_languages() == old(self).spec_languages(),
    {
        self.feats.push(feat);
    }
}

} // verus!
