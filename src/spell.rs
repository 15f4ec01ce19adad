use vstd::prelude::*;
use crate::ability;
use crate::dice::Roll;

verus! {

#[derive(Clone, Copy, Debug, PartialEq, Eq, Structural)]
pub enum CastingTime {
    Action(usize),
    Reaction(usize),
}

#[derive(Clone, Copy, Debug, PartialEq, Eq, Structural)]
pub enum Range {
    Cone,
    Cube,
    Cylinder,
    Feet(usize),
    Line,
    Sphere { distance: usize, radius: usize },
}

#[derive(Clone, Copy, Debug, PartialEq, Eq, Structural)]
pub enum Component {
    Verbal,
    Somatic,
    Material,
}

#[derive(Clone, Copy, Debug, PartialEq, Eq, Structural)]
pub enum Duration {
    Instantaneous,
    Rounds(usize),
    Minutes(usize),
}

#[derive(Clone, Copy, Debug, PartialEq, Eq, Structural)]
pub enum School {
    Abjuration,
    Conjuration,
    Divination,
    Enchantment,
    Evocation,
    Illusion,
    Necromancy,
    Transmutation,
}

#[derive(Clone, Copy, Debug, PartialEq, Eq, Structural)]
pub enum AttackType {
    Ranged,
}

#[derive(Clone, Copy, Debug, PartialEq, Eq, Structural)]
pub enum Attack {
    Save(ability::Identifier),
    Attack(AttackType),
}

#[derive(Clone, Copy, Debug, PartialEq, Eq, Structural)]
pub enum Effect {
    Acid,
    Buff,
    Cold,
    Combat,
    Detection,
    Fire,
}

/// The roll recorded last for a key.
pub open spec fn roll_at(s: Seq<(usize, Roll)>, key: int) -> Option<Roll>
    decreases s.len(),
{
    if s.len() == 0 {
        None
    } else if s.last().0 == key {
        Some(s.last().1)
    } else {
        roll_at(s.drop_last(), key)
    }
}

/// The key of the damage roll of a spell of level `level` cast at
/// `cast_level`: a cantrip improves at caster levels 5, 11 and 17; a leveled
/// spell cannot be cast below its level and improves with each level above it,
/// cycling through its `count` rolls.
pub open spec fn damage_key(level: int, cast_level: int, count: int) -> Option<int> {
    if level == 0 {
        Some((cast_level + 1) / 6)
    } else if cast_level < level {
        None
    } else {
        Some((cast_level - level) % count)
    }
}

/// A spell and its damage by casting level.
#[derive(Clone, Debug)]
pub struct Spell {
    name: String,
    level: usize,
    casting_time: CastingTime,
    range: Range,
    components: Vec<Component>,
    duration: Duration,
    concentration: bool,
    school: School,
    attack: Option<Attack>,
    effect: Effect,
    description: String,
    damages: Vec<(usize, Roll)>,
}

fn find_roll(s: &Vec<(usize, Roll)>, key: usize) -> (r: Option<&Roll>)
    ensures
        r matches Some(x) ==> roll_at(s@, key as int) == Some(*x),
        r is None ==> roll_at(s@, key as int) is None,
{
    let mut i: usize = s.len();
    proof {
        assert(s@.subrange(0, i as int) =~= s@);
    }
    while i > 0
        invariant
            0 <= i <= s@.len(),
            roll_at(s@, key as int) == roll_at(s@.subrange(0, i as int), key as int),
        decreases i,
    {
        proof {
            assert(s@.subrange(0, i as int).drop_last() =~= s@.subrange(0, i as int - 1));
        }
        if s[i - 1].0 == key {
            return Some(&s[i - 1].1);
        }
        i = i - 1;
    }
    None
}

impl Spell {
    pub closed spec fn spec_name(self) -> Seq<char> {
        self.name@
    }

    pub closed spec fn spec_level(self) -> usize {
        self.level
    }

    pub closed spec fn spec_casting_time(self) -> CastingTime {
        self.casting_time
    }

    pub closed spec fn spec_range(self) -> Range {
        self.range
    }

    pub closed spec fn spec_components(self) -> Seq<Component> {
        self.components@
    }

    pub closed spec fn spec_duration(self) -> Duration {
        self.duration
    }

    pub closed spec fn spec_concentration(self) -> bool {
        self.concentration
    }

    pub closed spec fn spec_school(self) -> School {
        self.school
    }

    pub closed spec fn spec_attack(self) -> Option<Attack> {
        self.attack
    }

    pub closed spec fn spec_effect(self) -> Effect {
        self.effect
    }

    pub closed spec fn spec_description(self) -> Seq<char> {
        self.description@
    }

    pub closed spec fn spec_damages(self) -> Seq<(usize, Roll)> {
        self.damages@
    }

    /// A spell with every field given.
    pub fn new(
        name: &str,
        level: usize,
        casting_time: CastingTime,
        range: Range,
        components: Vec<Component>,
        duration: Duration,
        concentration: bool,
        school: School,
        attack: Option<Attack>,
        effect: Effect,
        description: &str,
        damages: Vec<(usize, Roll)>,
    ) -> (r: Spell)
        ensures
            r.spec_name() == name@,
            r.spec_level() == level,
            r.spec_casting_time() == casting_time,
            r.spec_range() == range,
            r.spec_components() == components@,
            r.spec_duration() == duration,
            r.spec_concentration() == concentration,
            r.spec_school() == school,
            r.spec_attack() == attack,
            r.spec_effect() == effect,
            r.spec_description() == description@,
            r.spec_damages() == damages@,
    {
        Spell {
            name: name.to_owned(),
            level,
            casting_time,
            range,
            components,
            duration,
            concentration,
            school,
            attack,
            effect,
            description: description.to_owned(),
            damages,
        }
    }

    #[must_use]
    pub fn get_name(&self) -> (r: &str)
        ensures
            r@ == self.spec_name(),
    {
        self.name.as_str()
    }

    #[must_use]
    pub fn get_level(&self) -> (r: usize)
        ensures
            r == self.spec_level(),
    {
        self.level
    }

    #[must_use]
    pub fn get_casting_time(&self) -> (r: CastingTime)
        ensures
            r == self.spec_casting_time(),
    {
        self.casting_time
    }

    #[must_use]
    pub fn get_range(&self) -> (r: Range)
        ensures
            r == self.spec_range(),
    {
        self.range
    }

    #[must_use]
    pub fn get_components(&self) -> (r: &[Component])
        ensures
            r@ == self.spec_components(),
    {
        self.components.as_slice()
    }

    #[must_use]
    pub fn get_duration(&self) -> (r: Duration)
        ensures
            r == self.spec_duration(),
    {
        self.duration
    }

    #[must_use]
    pub fn get_school(&self) -> (r: School)
        ensures
            r == self.spec_school(),
    {
        self.school
    }

    #[must_use]
    pub fn get_attack(&self) -> (r: Option<Attack>)
        ensures
            r == self.spec_attack(),
    {
        self.attack
    }

    #[must_use]
    pub fn get_effect(&self) -> (r: Effect)
        ensures
            r == self.spec_effect(),
    {
        self.effect
    }

    #[must_use]
    pub fn is_concentration(&self) -> (r: bool)
        ensures
            r == self.spec_concentration(),
    {
        self.concentration
    }

    #[must_use]
    pub fn get_description(&self) -> (r: &str)
        ensures
            r@ == self.spec_description(),
    {
        self.description.as_str()
    }

    /// The damage roll when cast at `cast_level` (see `damage_key`).
    #[must_use]
    pub fn get_damage(&self, cast_level: usize) -> (r: Option<&Roll>)
        requires
            self.spec_level() > 0 && cast_level >= self.spec_level() ==> self.spec_damages().len()
                > 0,
        ensures
            r matches Some(x) ==> damage_key(
                self.spec_level() as int,
                cast_level as int,
                self.spec_damages().len() as int,
            ) matches Some(k) && roll_at(self.spec_damages(), k) == Some(*x),
            r is None ==> match damage_key(
                self.spec_level() as int,
                cast_level as int,
                self.spec_damages().len() as int,
            ) {
                Some(k) => roll_at(self.spec_damages(), k) is None,
                None => true,
            },
    {
        if self.level == 0 {
            let key: usize = cast_level / 6 + if cast_level % 6 == 5 {
                1
            } else {
                0
            };
            assert(key == (cast_level + 1) / 6);
            find_roll(&self.damages, key)
        } else if cast_level < self.level {
            None
        } else {
            let key = (cast_level - self.level) % self.damages.len();
            find_roll(&self.damages, key)
        }
    }
}

/// The spells a class can cast.
#[derive(Clone, Debug, Default)]
pub struct SpellList(Vec<Spell>);

impl SpellList {
    pub closed spec fn spec_spells(self) -> Seq<Spell> {
        self.0@
    }

    pub fn new() -> (r: SpellList)
        ensures
            r.spec_spells().len() == 0,
    {
        SpellList(Vec::new())
    }

    pub fn add_spell(&mut self, spell: Spell)
        ensures
            final(self).spec_spells() == old(self).spec_spells().push(spell),
    {
        self.0.push(spell);
    }

    pub fn get_spells(&self) -> (r: &[Spell])
        ensures
            r@ == self.spec_spells(),
    {
        self.0.as_slice()
    }
}

} // verus!
