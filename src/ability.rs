use vstd::prelude::*;

verus! {

/// The six base attributes of a creature.
#[derive(Clone, Copy, Debug, PartialEq, Eq, Hash, Structural)]
pub enum Identifier {
    Strength,
    Dexterity,
    Constitution,
    Intelligence,
    Wisdom,
    Charisma,
}

/// The modifier of a score: half the score, rounded down, minus five.
pub open spec fn modifier_of(score: int) -> int {
    score / 2 - 5
}

/// Every ability, in the usual order.
pub open spec fn all_abilities() -> Seq<Identifier> {
    seq![
        Identifier::Strength,
        Identifier::Dexterity,
        Identifier::Constitution,
        Identifier::Intelligence,
        Identifier::Wisdom,
        Identifier::Charisma,
    ]
}

impl Identifier {
    /// Every ability, in the usual order.
    pub fn all() -> (r: Vec<Identifier>)
        ensures
            r@ == all_abilities(),
    {
        vec![
            Identifier::Strength,
            Identifier::Dexterity,
            Identifier::Constitution,
            Identifier::Intelligence,
            Identifier::Wisdom,
            Identifier::Charisma,
        ]
    }

    pub open spec fn spec_abbr(self) -> Seq<char> {
        match self {
            Identifier::Strength => "Str"@,
            Identifier::Dexterity => "Dex"@,
            Identifier::Constitution => "Con"@,
            Identifier::Intelligence => "Int"@,
            Identifier::Wisdom => "Wis"@,
            Identifier::Charisma => "Cha"@,
        }
    }

    /// The three-letter abbreviation of the ability.
    pub fn abbr(&self) -> (r: &'static str)
        ensures
            r@ == self.spec_abbr(),
    {
        match self {
            Identifier::Strength => "Str",
            Identifier::Dexterity => "Dex",
            Identifier::Constitution => "Con",
            Identifier::Intelligence => "Int",
            Identifier::Wisdom => "Wis",
            Identifier::Charisma => "Cha",
        }
    }

    pub open spec fn spec_name(self) -> Seq<char> {
        match self {
            Identifier::Strength => "Strength"@,
            Identifier::Dexterity => "Dexterity"@,
            Identifier::Constitution => "Constitution"@,
            Identifier::Intelligence => "Intelligence"@,
            Identifier::Wisdom => "Wisdom"@,
            Identifier::Charisma => "Charisma"@,
        }
    }

    /// The full name of the ability.
    pub fn name(&self) -> (r: &'static str)
        ensures
            r@ == self.spec_name(),
    {
        match self {
            Identifier::Strength => "Strength",
            Identifier::Dexterity => "Dexterity",
            Identifier::Constitution => "Constitution",
            Identifier::Intelligence => "Intelligence",
            Identifier::Wisdom => "Wisdom",
            Identifier::Charisma => "Charisma",
        }
    }

    /// The modifier that a score gives: `floor(score / 2) - 5`.
    pub fn calculate_modifier(ability_score: usize) -> (r: isize)
        ensures
            r == modifier_of(ability_score as int),
    {
        (ability_score / 2) as isize - 5
    }
}

/// One ability score.
#[derive(Clone, Copy, Debug, PartialEq, Eq, Structural)]
pub struct Ability {
    score: usize,
}

impl Ability {
    pub closed spec fn spec_score(self) -> usize {
        self.score
    }

    pub fn get_score(&self) -> (r: usize)
        ensures
            r == self.spec_score(),
    {
        self.score
    }

    /// `floor(score / 2) - 5`, which may be negative.
    pub fn get_modifier(&self) -> (r: isize)
        ensures
            r == modifier_of(self.spec_score() as int),
    {
        (self.score / 2) as isize - 5
    }
}

impl From<usize> for Ability {
    fn from(value: usize) -> (r: Ability) {
        Ability { score: value }
    }
}

impl vstd::std_specs::convert::FromSpecImpl<usize> for Ability {
    open spec fn obeys_from_spec() -> bool {
        true
    }

    closed spec fn from_spec(v: usize) -> Ability {
        Ability { score: v }
    }
}

/// The six scores written out, for building an `Abilities` set in one go.
#[derive(Debug, Default)]
pub struct AbilitiesTemplate {
    pub strength: usize,
    pub dexterity: usize,
    pub constitution: usize,
    pub intelligence: usize,
    pub wisdom: usize,
    pub charisma: usize,
}

/// Combining two optional scores: both present add up, one present is kept.
pub open spec fn combine_scores(a: Option<int>, b: Option<int>) -> Option<int> {
    match (a, b) {
        (Some(x), Some(y)) => Some(x + y),
        (Some(x), None) => Some(x),
        (None, Some(y)) => Some(y),
        (None, None) => None,
    }
}

/// A set of ability scores; any ability may be absent.
#[derive(Clone, Copy, Debug)]
pub struct Abilities {
    strength: Option<Ability>,
    dexterity: Option<Ability>,
    constitution: Option<Ability>,
    intelligence: Option<Ability>,
    wisdom: Option<Ability>,
    charisma: Option<Ability>,
}

impl Abilities {
    /// The score held for an ability, if any.
    pub closed spec fn score_of(self, id: Identifier) -> Option<int> {
        let a = match id {
            Identifier::Strength => self.strength,
            Identifier::Dexterity => self.dexterity,
            Identifier::Constitution => self.constitution,
            Identifier::Intelligence => self.intelligence,
            Identifier::Wisdom => self.wisdom,
            Identifier::Charisma => self.charisma,
        };
        match a {
            Some(a) => Some(a.score as int),
            None => None,
        }
    }

    /// A score held is a machine integer.
    pub proof fn lemma_score_range(self, id: Identifier)
        ensures
            self.score_of(id) matches Some(s) ==> 0 <= s <= usize::MAX,
    {
    }

    /// The number of abilities that hold a score.
    pub open spec fn spec_count(self) -> nat {
        (if self.score_of(Identifier::Strength) is Some { 1nat } else { 0nat })
            + (if self.score_of(Identifier::Dexterity) is Some { 1nat } else { 0nat })
            + (if self.score_of(Identifier::Constitution) is Some { 1nat } else { 0nat })
            + (if self.score_of(Identifier::Intelligence) is Some { 1nat } else { 0nat })
            + (if self.score_of(Identifier::Wisdom) is Some { 1nat } else { 0nat })
            + (if self.score_of(Identifier::Charisma) is Some { 1nat } else { 0nat })
    }

    fn slot(&self, id: Identifier) -> (r: Option<Ability>)
        ensures
            r matches Some(a) ==> self.score_of(id) == Some(a.spec_score() as int),
            r is None ==> self.score_of(id) is None,
    {
        match id {
            Identifier::Strength => self.strength,
            Identifier::Dexterity => self.dexterity,
            Identifier::Constitution => self.constitution,
            Identifier::Intelligence => self.intelligence,
            Identifier::Wisdom => self.wisdom,
            Identifier::Charisma => self.charisma,
        }
    }

    /// A set with no score at all.
    pub fn empty() -> (r: Abilities)
        ensures
            forall|id: Identifier| #[trigger] r.score_of(id) is None,
    {
        Abilities {
            strength: None,
            dexterity: None,
            constitution: None,
            intelligence: None,
            wisdom: None,
            charisma: None,
        }
    }

    /// Sets the score of one ability, leaving the others as they were.
    pub fn set_score(&mut self, ability: Identifier, score: usize)
        ensures
            final(self).score_of(ability) == Some(score as int),
            forall|id: Identifier|
                id != ability ==> #[trigger] final(self).score_of(id) == old(self).score_of(id),
    {
        let a = Some(Ability { score });
        match ability {
            Identifier::Strength => self.strength = a,
            Identifier::Dexterity => self.dexterity = a,
            Identifier::Constitution => self.constitution = a,
            Identifier::Intelligence => self.intelligence = a,
            Identifier::Wisdom => self.wisdom = a,
            Identifier::Charisma => self.charisma = a,
        }
    }

    #[must_use]
    pub fn get_score(&self, ability: Identifier) -> (r: Option<usize>)
        ensures
            r matches Some(s) ==> self.score_of(ability) == Some(s as int),
            r is None ==> self.score_of(ability) is None,
    {
        match self.slot(ability) {
            Some(a) => Some(a.get_score()),
            None => None,
        }
    }

    /// The score of an ability, 0 where the set holds none.
    pub fn get_base_score(&self, ability: &Identifier) -> (r: usize)
        ensures
            r == match self.score_of(*ability) {
                Some(s) => s,
                None => 0,
            },
    {
        match self.slot(*ability) {
            Some(a) => a.get_score(),
            None => 0,
        }
    }

    #[must_use]
    pub fn get_modifier(&self, ability: Identifier) -> (r: Option<isize>)
        ensures
            r matches Some(m) ==> self.score_of(ability) matches Some(s) && m == modifier_of(s),
            r is None ==> self.score_of(ability) is None,
    {
        match self.slot(ability) {
            Some(a) => Some(a.get_modifier()),
            None => None,
        }
    }

    #[must_use]
    pub fn count_abilities(&self) -> (r: usize)
        ensures
            r == self.spec_count(),
    {
        let mut n: usize = 0;
        if self.strength.is_some() {
            n = n + 1;
        }
        if self.dexterity.is_some() {
            n = n + 1;
        }
        if self.constitution.is_some() {
            n = n + 1;
        }
        if self.intelligence.is_some() {
            n = n + 1;
        }
        if self.wisdom.is_some() {
            n = n + 1;
        }
        if self.charisma.is_some() {
            n = n + 1;
        }
        n
    }

    /// The abilities among `ids` that hold a score, each with its score, in the order of `ids`.
    pub open spec fn listed(self, ids: Seq<Identifier>) -> Seq<(Identifier, int)>
        decreases ids.len(),
    {
        if ids.len() == 0 {
            Seq::empty()
        } else {
            let rest = self.listed(ids.drop_last());
            match self.score_of(ids.last()) {
                Some(s) => rest.push((ids.last(), s)),
                None => rest,
            }
        }
    }

    /// The abilities that hold a score, each with it, in the usual order.
    #[must_use]
    pub fn get_abilities(&self) -> (r: Vec<(Identifier, Ability)>)
        ensures
            r@.map_values(|p: (Identifier, Ability)| (p.0, p.1.spec_score() as int)) == self.listed(
                all_abilities(),
            ),
    {
        let mut r: Vec<(Identifier, Ability)> = Vec::new();
        let ids = Identifier::all();
        let mut i: usize = 0;
        while i < ids.len()
            invariant
                ids@ == all_abilities(),
                0 <= i <= 6,
                r@.map_values(|p: (Identifier, Ability)| (p.0, p.1.spec_score() as int))
                    == self.listed(ids@.subrange(0, i as int)),
            decreases 6 - i,
        {
            proof {
                assert(ids@.subrange(0, i as int + 1).drop_last() =~= ids@.subrange(0, i as int));
            }
            let id = ids[i];
            if let Some(a) = self.slot(id) {
                r.push((id, a));
            }
            proof {
                assert(r@.map_values(|p: (Identifier, Ability)| (p.0, p.1.spec_score() as int))
                    =~= self.listed(ids@.subrange(0, i as int + 1)));
            }
            i = i + 1;
        }
        proof {
            assert(ids@.subrange(0, i as int) =~= ids@);
        }
        r
    }

    /// Combines two sets ability by ability: both present add up, one present is
    /// kept, neither stays absent.
    pub fn combine(&self, other: &Abilities) -> (r: Abilities)
        requires
            forall|id: Identifier| #[trigger]
                combine_scores(self.score_of(id), other.score_of(id)) matches Some(s) ==> s
                    <= usize::MAX,
        ensures
            forall|id: Identifier| #[trigger]
                r.score_of(id) == combine_scores(self.score_of(id), other.score_of(id)),
    {
        let mut r = Abilities::empty();
        let ids = Identifier::all();
        let mut i: usize = 0;
        while i < ids.len()
            invariant
                ids@ == seq![
                    Identifier::Strength,
                    Identifier::Dexterity,
                    Identifier::Constitution,
                    Identifier::Intelligence,
                    Identifier::Wisdom,
                    Identifier::Charisma,
                ],
                0 <= i <= 6,
                forall|id: Identifier| #[trigger]
                    combine_scores(self.score_of(id), other.score_of(id)) matches Some(s) ==> s
                        <= usize::MAX,
                forall|j: int|
                    0 <= j < i ==> #[trigger] r.score_of(ids@[j]) == combine_scores(
                        self.score_of(ids@[j]),
                        other.score_of(ids@[j]),
                    ),
                forall|j: int| i <= j < 6 ==> #[trigger] r.score_of(ids@[j]) is None,
            decreases 6 - i,
        {
            let id = ids[i];
            let ghost sum = combine_scores(self.score_of(id), other.score_of(id));
            match (self.slot(id), other.slot(id)) {
                (Some(a), Some(b)) => {
                    assert(sum == Some(a.spec_score() + b.spec_score()));
                    r.set_score(id, a.get_score() + b.get_score());
                },
                (Some(a), None) => r.set_score(id, a.get_score()),
                (None, Some(b)) => r.set_score(id, b.get_score()),
                (None, None) => {},
            }
            i = i + 1;
        }
        assert forall|id: Identifier| #[trigger]
            r.score_of(id) == combine_scores(self.score_of(id), other.score_of(id)) by {
            match id {
                Identifier::Strength => assert(ids@[0] == id),
                Identifier::Dexterity => assert(ids@[1] == id),
                Identifier::Constitution => assert(ids@[2] == id),
                Identifier::Intelligence => assert(ids@[3] == id),
                Identifier::Wisdom => assert(ids@[4] == id),
                Identifier::Charisma => assert(ids@[5] == id),
            }
        }
        r
    }
}

impl From<AbilitiesTemplate> for Abilities {
    fn from(value: AbilitiesTemplate) -> (r: Abilities) {
        Abilities {
            strength: Some(Ability { score: value.strength }),
            dexterity: Some(Ability { score: value.dexterity }),
            constitution: Some(Ability { score: value.constitution }),
            intelligence: Some(Ability { score: value.intelligence }),
            wisdom: Some(Ability { score: value.wisdom }),
            charisma: Some(Ability { score: value.charisma }),
        }
    }
}

impl vstd::std_specs::convert::FromSpecImpl<AbilitiesTemplate> for Abilities {
    open spec fn obeys_from_spec() -> bool {
        true
    }

    open spec fn from_spec(v: AbilitiesTemplate) -> Abilities {
        Abilities::spec_of_template(v)
    }
}

/// The score a template gives an ability.
pub open spec fn template_score(t: AbilitiesTemplate, id: Identifier) -> int {
    match id {
        Identifier::Strength => t.strength as int,
        Identifier::Dexterity => t.dexterity as int,
        Identifier::Constitution => t.constitution as int,
        Identifier::Intelligence => t.intelligence as int,
        Identifier::Wisdom => t.wisdom as int,
        Identifier::Charisma => t.charisma as int,
    }
}

impl Abilities {
    pub closed spec fn spec_of_template(v: AbilitiesTemplate) -> Abilities {
        Abilities {
            strength: Some(Ability { score: v.strength }),
            dexterity: Some(Ability { score: v.dexterity }),
            constitution: Some(Ability { score: v.constitution }),
            intelligence: Some(Ability { score: v.intelligence }),
            wisdom: Some(Ability { score: v.wisdom }),
            charisma: Some(Ability { score: v.charisma }),
        }
    }

    /// A set made from a template holds every score of the template.
    pub proof fn lemma_of_template(v: AbilitiesTemplate)
        ensures
            forall|id: Identifier| #[trigger]
                Abilities::spec_of_template(v).score_of(id) == Some(template_score(v, id)),
    {
    }
}

impl Default for Abilities {
    fn default() -> (r: Abilities)
        ensures
            forall|id: Identifier| #[trigger] r.score_of(id) is None,
    {
        Abilities::empty()
    }
}

/// Combining scores does not depend on the order of the two sets.
pub proof fn lemma_combine_commutative(a: Option<int>, b: Option<int>)
    ensures
        combine_scores(a, b) == combine_scores(b, a),
{
}

/// Combining scores does not depend on how three sets are grouped.
pub proof fn lemma_combine_associative(a: Option<int>, b: Option<int>, c: Option<int>)
    ensures
        combine_scores(combine_scores(a, b), c) == combine_scores(a, combine_scores(b, c)),
{
}

/// The modifier is half the score, rounded down, minus five.
pub proof fn lemma_modifier_formula(s: usize)
    ensures
        modifier_of(s as int) == s as int / 2 - 5,
        modifier_of(10) == 0,
        modifier_of(8) == -1,
        modifier_of(20) == 5,
{
}

} // verus!
