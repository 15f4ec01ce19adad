use vstd::prelude::*;
use crate::ability::Identifier;
use crate::feat::Feat;
use crate::modifiers::Proficiency;
use crate::spell::SpellList;
use crate::text::{decimal, decimal_string};
use vstd::string::StringExecFns;

verus! {

/// The highest level a class can reach.
pub const MAX_LEVEL: usize = 20;

/// The sum of a sequence of hit-die increases.
pub open spec fn increase_sum(s: Seq<usize>) -> int
    decreases s.len(),
{
    if s.len() == 0 {
        0
    } else {
        increase_sum(s.drop_last()) + s.last()
    }
}

/// Hit points from a progression: the sum of the increases plus the
/// constitution modifier once per increase.
pub open spec fn progression_hit_points(s: Seq<usize>, constitution_modifier: int) -> int {
    increase_sum(s) + constitution_modifier * s.len()
}

/// Whether computing the hit points of a progression stays within machine integers.
pub open spec fn progression_fits(s: Seq<usize>, constitution_modifier: int) -> bool {
    &&& s.len() <= isize::MAX
    &&& increase_sum(s) <= isize::MAX
    &&& isize::MIN <= constitution_modifier * s.len() <= isize::MAX
    &&& isize::MIN <= progression_hit_points(s, constitution_modifier) <= isize::MAX
}

/// The hit-die increases of a class, one per level, at most twenty.
#[derive(Clone, Debug)]
pub struct HPIncreases(Vec<usize>);

#[derive(Debug, PartialEq, Eq, Structural)]
pub enum HPIncreaseConstructionError {
    IncorrectNumberOfIncreases,
}

impl HPIncreaseConstructionError {
    /// A sentence that describes the error.
    pub fn message(&self) -> (r: &'static str)
        ensures
            r@ == "Cannot have more increases than maximum level."@,
    {
        "Cannot have more increases than maximum level."
    }
}

impl HPIncreases {
    pub closed spec fn spec_increases(self) -> Seq<usize> {
        self.0@
    }

    /// A progression holds at most one increase per level.
    pub open spec fn wf(self) -> bool {
        self.spec_increases().len() <= MAX_LEVEL
    }

    /// A progression that starts with one increase of `hit_die_sides`.
    #[must_use]
    pub fn new(hit_die_sides: usize) -> (r: HPIncreases)
        ensures
            r.spec_increases() == seq![hit_die_sides],
            r.wf(),
    {
        let v = vec![hit_die_sides];
        HPIncreases(v)
    }

    /// The increases as a slice.
    pub fn as_slice(&self) -> (r: &[usize])
        ensures
            r@ == self.spec_increases(),
    {
        self.0.as_slice()
    }

    /// `sum(increases) + constitution_modifier * count(increases)`, not clamped.
    #[must_use]
    pub fn get_hit_points(&self, constitution_modifier: isize) -> (r: isize)
        requires
            progression_fits(self.spec_increases(), constitution_modifier as int),
        ensures
            r == progression_hit_points(self.spec_increases(), constitution_modifier as int),
    {
        let mut sum: usize = 0;
        let mut i: usize = 0;
        while i < self.0.len()
            invariant
                0 <= i <= self.0@.len(),
                increase_sum(self.0@) <= isize::MAX,
                sum == increase_sum(self.0@.subrange(0, i as int)),
            decreases self.0@.len() - i,
        {
            proof {
                lemma_increase_sum_prefix_le(self.0@, i as int + 1);
                assert(self.0@.subrange(0, i as int + 1).drop_last() =~= self.0@.subrange(
                    0,
                    i as int,
                ));
            }
            sum = sum + self.0[i];
            i = i + 1;
        }
        proof {
            assert(self.0@.subrange(0, i as int) =~= self.0@);
        }
        let count = self.0.len() as isize;
        assert(count == self.0@.len());
        let extra = constitution_modifier * count;
        sum as isize + extra
    }

    /// Appends an increase; a progression never holds more than twenty.
    pub fn add_increase(&mut self, increase: usize) -> (r: Result<(), HPIncreaseConstructionError>)
        ensures
            old(self).spec_increases().len() >= MAX_LEVEL ==> r == Err::<
                (),
                HPIncreaseConstructionError,
            >(HPIncreaseConstructionError::IncorrectNumberOfIncreases) && final(self).spec_increases()
                == old(self).spec_increases(),
            old(self).spec_increases().len() < MAX_LEVEL ==> r is Ok && final(self).spec_increases()
                == old(self).spec_increases().push(increase),
            old(self).wf() ==> final(self).wf(),
    {
        if self.0.len() >= MAX_LEVEL {
            return Err(HPIncreaseConstructionError::IncorrectNumberOfIncreases);
        }
        self.0.push(increase);
        Ok(())
    }
}

impl Default for HPIncreases {
    fn default() -> (r: HPIncreases)
        ensures
            r.spec_increases().len() == 0,
            r.wf(),
    {
        HPIncreases(Vec::new())
    }
}

impl TryFrom<Vec<usize>> for HPIncreases {
    type Error = HPIncreaseConstructionError;

    /// Accepts at most twenty increases.
    fn try_from(value: Vec<usize>) -> (r: Result<HPIncreases, HPIncreaseConstructionError>) {
        if value.len() > MAX_LEVEL {
            return Err(HPIncreaseConstructionError::IncorrectNumberOfIncreases);
        }
        Ok(HPIncreases(value))
    }
}

impl vstd::std_specs::convert::TryFromSpecImpl<Vec<usize>> for HPIncreases {
    open spec fn obeys_try_from_spec() -> bool {
        true
    }

    closed spec fn try_from_spec(v: Vec<usize>) -> Result<HPIncreases, HPIncreaseConstructionError> {
        if v@.len() > MAX_LEVEL {
            Err(HPIncreaseConstructionError::IncorrectNumberOfIncreases)
        } else {
            Ok(HPIncreases(v))
        }
    }
}

/// The sum of a prefix of the increases is at most the sum of all of them.
pub proof fn lemma_increase_sum_prefix_le(s: Seq<usize>, n: int)
    requires
        0 <= n <= s.len(),
    ensures
        increase_sum(s.subrange(0, n)) <= increase_sum(s),
    decreases s.len(),
{
    if n < s.len() {
        lemma_increase_sum_prefix_le(s.drop_last(), n);
        assert(s.drop_last().subrange(0, n) =~= s.subrange(0, n));
    } else {
        assert(s.subrange(0, n) =~= s);
    }
}

/// Collects the fields of a class before it is built.
#[derive(Clone, Debug, Default)]
pub struct Builder {
    name: Option<String>,
    level: Option<usize>,
    saving_throw_proficiencies: Vec<Identifier>,
    spell_list: Option<SpellList>,
    hp_increases: Option<HPIncreases>,
    feats: Vec<Feat>,
}

#[derive(Debug, PartialEq, Eq, Structural)]
pub enum ClassConstructionError {
    MissingName,
    LevelOutOfBounds,
}

impl ClassConstructionError {
    /// A sentence that describes the error.
    pub fn message(&self) -> (r: &'static str)
        ensures
            r@ == (match self {
                ClassConstructionError::MissingName => "Cannot create a Class without a name."@,
                ClassConstructionError::LevelOutOfBounds => "Level must be between 1 and 20."@,
            }),
    {
        match self {
            ClassConstructionError::MissingName => "Cannot create a Class without a name.",
            ClassConstructionError::LevelOutOfBounds => "Level must be between 1 and 20.",
        }
    }
}

impl Builder {
    pub closed spec fn spec_name(self) -> Option<Seq<char>> {
        match self.name {
            Some(n) => Some(n@),
            None => None,
        }
    }

    pub closed spec fn spec_level(self) -> Option<usize> {
        self.level
    }

    pub closed spec fn spec_saves(self) -> Seq<Identifier> {
        self.saving_throw_proficiencies@
    }

    pub closed spec fn spec_spell_list(self) -> Option<SpellList> {
        self.spell_list
    }

    pub closed spec fn spec_hp_increases(self) -> Option<Seq<usize>> {
        match self.hp_increases {
            Some(h) => Some(h.spec_increases()),
            None => None,
        }
    }

    pub closed spec fn spec_feats(self) -> Seq<Feat> {
        self.feats@
    }

    /// A level, once given, is at most twenty; so is the number of increases.
    pub open spec fn wf(self) -> bool {
        &&& (self.spec_level() matches Some(l) ==> l <= MAX_LEVEL)
        &&& (self.spec_hp_increases() matches Some(h) ==> h.len() <= MAX_LEVEL)
    }

    /// Whether two builders hold the same fields but for those the predicate names.
    pub open spec fn same_except(
        self,
        other: Builder,
        name: bool,
        level: bool,
        saves: bool,
        hp: bool,
        feats: bool,
    ) -> bool {
        &&& (name || self.spec_name() == other.spec_name())
        &&& (level || self.spec_level() == other.spec_level())
        &&& (saves || self.spec_saves() == other.spec_saves())
        &&& self.spec_spell_list() == other.spec_spell_list()
        &&& (hp || self.spec_hp_increases() == other.spec_hp_increases())
        &&& (feats || self.spec_feats() == other.spec_feats())
    }

    pub fn new() -> (r: Builder)
        ensures
            r.wf(),
            r.spec_name() is None,
            r.spec_level() is None,
            r.spec_saves().len() == 0,
            r.spec_spell_list() is None,
            r.spec_hp_increases() is None,
            r.spec_feats().len() == 0,
    {
        Builder {
            name: None,
            level: None,
            saving_throw_proficiencies: Vec::new(),
            spell_list: None,
            hp_increases: None,
            feats: Vec::new(),
        }
    }

    /// Sets the name; an empty name is refused.
    pub fn name(self, name: &str) -> (r: Result<Builder, ClassConstructionError>)
        ensures
            name@.len() == 0 ==> r == Err::<Builder, ClassConstructionError>(
                ClassConstructionError::MissingName,
            ),
            name@.len() > 0 ==> (r matches Ok(b) && b.spec_name() == Some(name@) && b.same_except(
                self,
                true,
                false,
                false,
                false,
                false,
            )),
    {
        if name.is_empty() {
            return Err(ClassConstructionError::MissingName);
        }
        let mut b = self;
        b.name = Some(name.to_owned());
        Ok(b)
    }

    /// Sets the level; a level above twenty is refused.
    pub fn level(self, level: usize) -> (r: Result<Builder, ClassConstructionError>)
        ensures
            level > MAX_LEVEL ==> r == Err::<Builder, ClassConstructionError>(
                ClassConstructionError::LevelOutOfBounds,
            ),
            level <= MAX_LEVEL ==> (r matches Ok(b) && b.spec_level() == Some(level)
                && b.same_except(self, false, true, false, false, false)),
            self.wf() ==> (r matches Ok(b) ==> b.wf()),
    {
        if level > MAX_LEVEL {
            return Err(ClassConstructionError::LevelOutOfBounds);
        }
        let mut b = self;
        b.level = Some(level);
        Ok(b)
    }

    /// Makes the class proficient in saving throws of `ability`.
    pub fn add_saving_throw_proficiency(self, ability: Identifier) -> (r: Result<
        Builder,
        ClassConstructionError,
    >)
        ensures
            r matches Ok(b) && b.spec_saves() == self.spec_saves().push(ability) && b.same_except(
                self,
                false,
                false,
                true,
                false,
                false,
            ),
    {
        let mut b = self;
        b.saving_throw_proficiencies.push(ability);
        Ok(b)
    }

    pub fn spell_list(self, spell_list: SpellList) -> (r: Result<Builder, ClassConstructionError>)
        ensures
            r matches Ok(b) && b.spec_spell_list() == Some(spell_list) && b.spec_name()
                == self.spec_name() && b.spec_level() == self.spec_level() && b.spec_saves()
                == self.spec_saves() && b.spec_hp_increases() == self.spec_hp_increases()
                && b.spec_feats() == self.spec_feats(),
    {
        let mut b = self;
        b.spell_list = Some(spell_list);
        Ok(b)
    }

    pub fn hp_increases(self, hp_increases: HPIncreases) -> (r: Result<
        Builder,
        ClassConstructionError,
    >)
        ensures
            r matches Ok(b) && b.spec_hp_increases() == Some(hp_increases.spec_increases())
                && b.same_except(self, false, false, false, true, false),
            self.wf() && hp_increases.wf() ==> (r matches Ok(b) && b.wf()),
    {
        let mut b = self;
        b.hp_increases = Some(hp_increases);
        Ok(b)
    }

    pub fn add_feat(self, feat: Feat) -> (r: Result<Builder, ClassConstructionError>)
        ensures
            r matches Ok(b) && b.spec_feats() == self.spec_feats().push(feat) && b.same_except(
                self,
                false,
                false,
                false,
                false,
                true,
            ),
    {
        let mut b = self;
        b.feats.push(feat);
        Ok(b)
    }

    /// Builds the class: a name and a level are required; the progression
    /// defaults to an empty one.
    pub fn build(self) -> (r: Result<Class, ClassConstructionError>)
        ensures
            self.spec_name() is None ==> r == Err::<Class, ClassConstructionError>(
                ClassConstructionError::MissingName,
            ),
            self.spec_name() is Some && self.spec_level() is None ==> r == Err::<
                Class,
                ClassConstructionError,
            >(ClassConstructionError::LevelOutOfBounds),
            r matches Ok(c) ==> Some(c.spec_name()) == self.spec_name() && Some(c.spec_level())
                == self.spec_level() && c.spec_saves() == self.spec_saves() && Some(
                c.spec_hp_increases(),
            ) == (match self.spec_hp_increases() {
                Some(h) => Some(h),
                None => Some(Seq::<usize>::empty()),
            }) && c.spec_feats() == self.spec_feats() && c.spec_spell_list()
                == self.spec_spell_list(),
            self.spec_name() is Some && self.spec_level() is Some ==> r is Ok,
            self.wf() ==> (r matches Ok(c) ==> c.wf()),
    {
        let name = match self.name {
            Some(n) => n,
            None => return Err(ClassConstructionError::MissingName),
        };
        let level = match self.level {
            Some(l) => l,
            None => return Err(ClassConstructionError::LevelOutOfBounds),
        };
        let hp_increases = match self.hp_increases {
            Some(h) => h,
            None => HPIncreases::default(),
        };
        Ok(Class {
            name,
            level,
            saving_throw_proficiencies: self.saving_throw_proficiencies,
            spell_list: self.spell_list,
            hp_increases,
            feats: self.feats,
        })
    }
}

/// The fields of a class written out; the level is checked on conversion.
pub struct Template {
    pub name: String,
    pub level: usize,
    pub saving_throw_proficiencies: Vec<Identifier>,
    pub spell_list: Option<SpellList>,
    pub hp_increases: HPIncreases,
    pub feats: Vec<Feat>,
}

/// A character class: name, level, saving-throw proficiencies, hit-point
/// progression and feats.
#[derive(Clone, Debug)]
pub struct Class {
    name: String,
    level: usize,
    saving_throw_proficiencies: Vec<Identifier>,
    spell_list: Option<SpellList>,
    hp_increases: HPIncreases,
    feats: Vec<Feat>,
}

#[derive(Debug, PartialEq, Eq, Structural)]
pub enum TryFromError {
    LevelOutOfBounds,
}

impl TryFrom<Template> for Class {
    type Error = TryFromError;

    fn try_from(value: Template) -> (r: Result<Class, TryFromError>) {
        if value.level > MAX_LEVEL {
            return Err(TryFromError::LevelOutOfBounds);
        }
        Ok(
            Class {
                name: value.name,
                level: value.level,
                saving_throw_proficiencies: value.saving_throw_proficiencies,
                spell_list: value.spell_list,
                hp_increases: value.hp_increases,
                feats: value.feats,
            },
        )
    }
}

impl vstd::std_specs::convert::TryFromSpecImpl<Template> for Class {
    open spec fn obeys_try_from_spec() -> bool {
        true
    }

    closed spec fn try_from_spec(v: Template) -> Result<Class, TryFromError> {
        if v.level > MAX_LEVEL {
            Err(TryFromError::LevelOutOfBounds)
        } else {
            Ok(
                Class {
                    name: v.name,
                    level: v.level,
                    saving_throw_proficiencies: v.saving_throw_proficiencies,
                    spell_list: v.spell_list,
                    hp_increases: v.hp_increases,
                    feats: v.feats,
                },
            )
        }
    }
}

impl Class {
    pub closed spec fn spec_name(self) -> Seq<char> {
        self.name@
    }

    pub closed spec fn spec_level(self) -> usize {
        self.level
    }

    pub closed spec fn spec_saves(self) -> Seq<Identifier> {
        self.saving_throw_proficiencies@
    }

    pub closed spec fn spec_spell_list(self) -> Option<SpellList> {
        self.spell_list
    }

    pub closed spec fn spec_hp_increases(self) -> Seq<usize> {
        self.hp_increases.spec_increases()
    }

    pub closed spec fn spec_feats(self) -> Seq<Feat> {
        self.feats@
    }

    /// The level is at most twenty, and so is the number of increases.
    pub open spec fn wf(self) -> bool {
        self.spec_level() <= MAX_LEVEL && self.spec_hp_increases().len() <= MAX_LEVEL
    }

    /// Whether the class is proficient in saving throws of `ability`.
    pub open spec fn spec_saving_throw(self, ability: Identifier) -> Option<Proficiency> {
        if self.spec_saves().contains(ability) {
            Some(Proficiency::Proficiency)
        } else {
            None
        }
    }

    #[must_use]
    pub fn get_name(&self) -> (r: &str)
        ensures
            r@ == self.spec_name(),
    {
        self.name.as_str()
    }

    #[must_use]
    pub fn get_level(&self) -> (r: usize)
        ensures
            r == self.spec_level(),
    {
        self.level
    }

    /// Sets the level; a level above twenty is refused and changes nothing.
    pub fn set_level(&mut self, level: usize) -> (r: Result<(), TryFromError>)
        ensures
            level > MAX_LEVEL ==> r == Err::<(), TryFromError>(TryFromError::LevelOutOfBounds)
                && *final(self) == *old(self),
            level <= MAX_LEVEL ==> r is Ok && final(self).spec_level() == level
                && final(self).spec_name() == old(self).spec_name() && final(self).spec_saves()
                == old(self).spec_saves() && final(self).spec_hp_increases() == old(
                self,
            ).spec_hp_increases() && final(self).spec_feats() == old(self).spec_feats(),
    {
        if level > MAX_LEVEL {
            return Err(TryFromError::LevelOutOfBounds);
        }
        self.level = level;
        Ok(())
    }

    #[must_use]
    pub fn get_saving_throw_proficiency(&self, ability: Identifier) -> (r: Option<Proficiency>)
        ensures
            r == self.spec_saving_throw(ability),
    {
        let mut i: usize = 0;
        while i < self.saving_throw_proficiencies.len()
            invariant
                0 <= i <= self.saving_throw_proficiencies@.len(),
                forall|j: int| 0 <= j < i ==> self.saving_throw_proficiencies@[j] != ability,
            decreases self.saving_throw_proficiencies@.len() - i,
        {
            if self.saving_throw_proficiencies[i] == ability {
                return Some(Proficiency::Proficiency);
            }
            i = i + 1;
        }
        None
    }

    pub fn get_spell_list(&self) -> (r: Option<&SpellList>)
        ensures
            r matches Some(l) ==> self.spec_spell_list() == Some(*l),
            r is None ==> self.spec_spell_list() is None,
    {
        match &self.spell_list {
            Some(l) => Some(l),
            None => None,
        }
    }

    /// The hit points this class contributes (see `HPIncreases::get_hit_points`).
    #[must_use]
    pub fn get_hit_points(&self, constitution_modifier: isize) -> (r: isize)
        requires
            progression_fits(self.spec_hp_increases(), constitution_modifier as int),
        ensures
            r == progression_hit_points(self.spec_hp_increases(), constitution_modifier as int),
    {
        self.hp_increases.get_hit_points(constitution_modifier)
    }

    pub fn get_feats(&self) -> (r: &[Feat])
        ensures
            r@ == self.spec_feats(),
    {
        self.feats.as_slice()
    }

    pub fn add_feat(&mut self, feat: Feat)
        ensures
            final(self).spec_feats() == old(self).spec_feats().push(feat),
            final(self).spec_name() == old(self).spec_name(),
            final(self).spec_level() == old(self).spec_level(),
            final(self).spec_saves() == old(self).spec_saves(),
            final(self).spec_hp_increases() == old(self).spec_hp_increases(),
            final(self).spec_spell_list() == old(self).spec_spell_list(),
    {
        self.feats.push(feat);
    }
}

/// The total level of a sequence of classes.
pub open spec fn level_sum(s: Seq<Class>) -> int
    decreases s.len(),
{
    if s.len() == 0 {
        0
    } else {
        level_sum(s.drop_last()) + s.last().spec_level()
    }
}

/// The proficiency bonus at a total level: 0 at level 0, else `(level - 1) / 4 + 2`.
pub open spec fn proficiency_bonus_of(level: int) -> int {
    if level <= 0 {
        0
    } else {
        (level - 1) / 4 + 2
    }
}

/// The saving-throw proficiency of a multiclass: that of the first class alone.
pub open spec fn primary_saving_throw(s: Seq<Class>, ability: Identifier) -> Option<Proficiency> {
    if s.len() == 0 {
        None
    } else {
        s[0].spec_saving_throw(ability)
    }
}

/// The hit points of a sequence of classes.
pub open spec fn classes_hit_points(s: Seq<Class>, constitution_modifier: int) -> int
    decreases s.len(),
{
    if s.len() == 0 {
        0
    } else {
        classes_hit_points(s.drop_last(), constitution_modifier) + progression_hit_points(
            s.last().spec_hp_increases(),
            constitution_modifier,
        )
    }
}

/// Whether summing the hit points of the classes, one after the other, stays
/// within machine integers.
pub open spec fn classes_hit_points_fit(s: Seq<Class>, constitution_modifier: int) -> bool
    decreases s.len(),
{
    if s.len() == 0 {
        true
    } else {
        &&& classes_hit_points_fit(s.drop_last(), constitution_modifier)
        &&& progression_fits(s.last().spec_hp_increases(), constitution_modifier)
        &&& isize::MIN <= classes_hit_points(s, constitution_modifier) <= isize::MAX
    }
}

/// The feats of all classes, class by class.
pub open spec fn classes_feats(s: Seq<Class>) -> Seq<Feat>
    decreases s.len(),
{
    if s.len() == 0 {
        Seq::empty()
    } else {
        classes_feats(s.drop_last()) + s.last().spec_feats()
    }
}

/// The classes of a character, in the order they were taken; the first is the
/// primary class.
#[derive(Clone, Debug, Default)]
pub struct Classes(Vec<Class>);

impl Classes {
    pub closed spec fn spec_classes(self) -> Seq<Class> {
        self.0@
    }

    pub fn new() -> (r: Classes)
        ensures
            r.spec_classes().len() == 0,
    {
        Classes(Vec::new())
    }

    /// Appends a class after those already taken.
    pub fn add_class(&mut self, class: Class)
        ensures
            final(self).spec_classes() == old(self).spec_classes().push(class),
    {
        self.0.push(class);
    }

    /// The sum of the levels of all classes.
    pub fn get_level(&self) -> (r: usize)
        requires
            level_sum(self.spec_classes()) <= usize::MAX,
        ensures
            r == level_sum(self.spec_classes()),
    {
        let mut total: usize = 0;
        let mut i: usize = 0;
        while i < self.0.len()
            invariant
                0 <= i <= self.0@.len(),
                level_sum(self.0@) <= usize::MAX,
                total == level_sum(self.0@.subrange(0, i as int)),
            decreases self.0@.len() - i,
        {
            proof {
                lemma_level_sum_prefix_le(self.0@, i as int + 1);
                assert(self.0@.subrange(0, i as int + 1).drop_last() =~= self.0@.subrange(
                    0,
                    i as int,
                ));
            }
            total = total + self.0[i].get_level();
            i = i + 1;
        }
        proof {
            assert(self.0@.subrange(0, i as int) =~= self.0@);
        }
        total
    }

    /// 0 without a class, else `(total level - 1) / 4 + 2`.
    #[must_use]
    pub fn get_proficiency_bonus(&self) -> (r: usize)
        requires
            level_sum(self.spec_classes()) <= usize::MAX,
        ensures
            r == proficiency_bonus_of(level_sum(self.spec_classes())),
    {
        let level = self.get_level();
        if level == 0 {
            0
        } else {
            (level - 1) / 4 + 2
        }
    }

    /// Read from the primary class only.
    #[must_use]
    pub fn get_saving_throw_proficiency(&self, ability: Identifier) -> (r: Option<Proficiency>)
        ensures
            r == primary_saving_throw(self.spec_classes(), ability),
    {
        if self.0.len() == 0 {
            None
        } else {
            self.0[0].get_saving_throw_proficiency(ability)
        }
    }

    /// The sum of the hit points of all classes.
    #[must_use]
    pub fn get_hit_points(&self, constitution_modifier: isize) -> (r: isize)
        requires
            classes_hit_points_fit(self.spec_classes(), constitution_modifier as int),
        ensures
            r == classes_hit_points(self.spec_classes(), constitution_modifier as int),
    {
        let mut total: isize = 0;
        let mut i: usize = 0;
        while i < self.0.len()
            invariant
                0 <= i <= self.0@.len(),
                classes_hit_points_fit(self.0@.subrange(0, i as int), constitution_modifier as int),
                classes_hit_points_fit(self.0@, constitution_modifier as int),
                total == classes_hit_points(self.0@.subrange(0, i as int), constitution_modifier as int),
            decreases self.0@.len() - i,
        {
            proof {
                lemma_hit_points_fit_prefix(self.0@, i as int + 1, constitution_modifier as int);
                assert(self.0@.subrange(0, i as int + 1).drop_last() =~= self.0@.subrange(
                    0,
                    i as int,
                ));
            }
            let hp = self.0[i].get_hit_points(constitution_modifier);
            total = total + hp;
            i = i + 1;
        }
        proof {
            assert(self.0@.subrange(0, i as int) =~= self.0@);
        }
        total
    }

    /// The feats of every class, class by class.
    pub fn get_feats(&self) -> (r: Vec<&Feat>)
        ensures
            r@.len() == classes_feats(self.spec_classes()).len(),
            forall|i: int| 0 <= i < r@.len() ==> *r@[i] == classes_feats(self.spec_classes())[i],
    {
        let mut r: Vec<&Feat> = Vec::new();
        let mut i: usize = 0;
        while i < self.0.len()
            invariant
                0 <= i <= self.0@.len(),
                r@.len() == classes_feats(self.0@.subrange(0, i as int)).len(),
                forall|k: int|
                    0 <= k < r@.len() ==> *r@[k] == classes_feats(self.0@.subrange(0, i as int))[k],
            decreases self.0@.len() - i,
        {
            proof {
                assert(self.0@.subrange(0, i as int + 1).drop_last() =~= self.0@.subrange(
                    0,
                    i as int,
                ));
            }
            let feats = self.0[i].get_feats();
            let mut j: usize = 0;
            while j < feats.len()
                invariant
                    0 <= j <= feats@.len(),
                    feats@ == self.0@[i as int].spec_feats(),
                    r@.len() == classes_feats(self.0@.subrange(0, i as int)).len() + j,
                    forall|k: int|
                        0 <= k < r@.len() ==> *r@[k] == (classes_feats(self.0@.subrange(0, i as int))
                            + feats@.subrange(0, j as int))[k],
                decreases feats@.len() - j,
            {
                r.push(&feats[j]);
                j = j + 1;
                proof {
                    let prev = classes_feats(self.0@.subrange(0, i as int));
                    assert forall|k: int| 0 <= k < r@.len() implies *r@[k] == (prev
                        + feats@.subrange(0, j as int))[k] by {
                        if k < r@.len() - 1 {
                            assert((prev + feats@.subrange(0, j as int))[k] == (prev
                                + feats@.subrange(0, j as int - 1))[k]);
                        }
                    }
                }
            }
            proof {
                assert(feats@.subrange(0, j as int) =~= feats@);
            }
            i = i + 1;
        }
        proof {
            assert(self.0@.subrange(0, i as int) =~= self.0@);
        }
        r
    }
}

/// The total level of a prefix of the classes is at most that of all of them.
pub proof fn lemma_level_sum_prefix_le(s: Seq<Class>, n: int)
    requires
        0 <= n <= s.len(),
    ensures
        level_sum(s.subrange(0, n)) <= level_sum(s),
    decreases s.len(),
{
    if n < s.len() {
        lemma_level_sum_prefix_le(s.drop_last(), n);
        assert(s.drop_last().subrange(0, n) =~= s.subrange(0, n));
    } else {
        assert(s.subrange(0, n) =~= s);
    }
}

/// If the hit points of all classes can be summed, so can those of a prefix.
pub proof fn lemma_hit_points_fit_prefix(s: Seq<Class>, n: int, constitution_modifier: int)
    requires
        0 <= n <= s.len(),
        classes_hit_points_fit(s, constitution_modifier),
    ensures
        classes_hit_points_fit(s.subrange(0, n), constitution_modifier),
    decreases s.len(),
{
    if n < s.len() {
        lemma_hit_points_fit_prefix(s.drop_last(), n, constitution_modifier);
        assert(s.drop_last().subrange(0, n) =~= s.subrange(0, n));
    } else {
        assert(s.subrange(0, n) =~= s);
    }
}

/// The proficiency bonus steps up by one every four levels, from 2 at level 1
/// to 6 at level 17, and is 0 at level 0.
pub proof fn lemma_proficiency_bonus_steps(level: int)
    requires
        0 <= level <= 20,
    ensures
        level == 0 ==> proficiency_bonus_of(level) == 0,
        1 <= level <= 4 ==> proficiency_bonus_of(level) == 2,
        5 <= level <= 8 ==> proficiency_bonus_of(level) == 3,
        9 <= level <= 12 ==> proficiency_bonus_of(level) == 4,
        13 <= level <= 16 ==> proficiency_bonus_of(level) == 5,
        17 <= level <= 20 ==> proficiency_bonus_of(level) == 6,
{
}

/// Adding classes after the first never changes saving-throw proficiency: a
/// multiclass character has exactly the saving throws of its primary class.
pub proof fn lemma_saving_throws_from_primary_only(
    s: Seq<Class>,
    later: Class,
    ability: Identifier,
)
    requires
        s.len() > 0,
    ensures
        primary_saving_throw(s.push(later), ability) == primary_saving_throw(s, ability),
        primary_saving_throw(s, ability) == s[0].spec_saving_throw(ability),
{
}

/// The summary of a sequence of classes: " <name> <level>" for each class.
pub open spec fn classes_summary(s: Seq<Class>) -> Seq<char>
    decreases s.len(),
{
    if s.len() == 0 {
        Seq::empty()
    } else {
        classes_summary(s.drop_last()) + " "@ + s.last().spec_name() + " "@ + decimal(
            s.last().spec_level() as nat,
        )
    }
}

impl Classes {
    /// Each class as its name and level, each pair after a space.
    pub fn summary(&self) -> (r: String)
        ensures
            r@ == classes_summary(self.spec_classes()),
    {
        let mut r = String::new();
        let mut i: usize = 0;
        while i < self.0.len()
            invariant
                0 <= i <= self.0@.len(),
                r@ == classes_summary(self.0@.subrange(0, i as int)),
            decreases self.0@.len() - i,
        {
            proof {
                assert(self.0@.subrange(0, i as int + 1).drop_last() =~= self.0@.subrange(
                    0,
                    i as int,
                ));
            }
            r.append(" ");
            r.append(self.0[i].get_name());
            r.append(" ");
            let level = decimal_string(self.0[i].get_level());
            r.append(level.as_str());
            i = i + 1;
        }
        proof {
            assert(self.0@.subrange(0, i as int) =~= self.0@);
        }
        r
    }
}

} // verus!
