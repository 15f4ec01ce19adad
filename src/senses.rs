use vstd::prelude::*;

verus! {

/// Collects the special senses of a creature before they are fixed.
#[derive(Clone, Copy, Debug, Default)]
pub struct Builder {
    blindsight: Option<usize>,
    darkvision: Option<usize>,
    tremorsense: Option<usize>,
    truesight: Option<usize>,
}

impl Builder {
    pub closed spec fn spec_senses(self) -> Senses {
        Senses {
            blindsight: self.blindsight,
            darkvision: self.darkvision,
            tremorsense: self.tremorsense,
            truesight: self.truesight,
        }
    }

    pub fn new() -> (r: Builder)
        ensures
            r.spec_senses() == Senses::spec_none(),
    {
        Builder { blindsight: None, darkvision: None, tremorsense: None, truesight: None }
    }

    pub fn blindsight(self, distance: usize) -> (r: Builder)
        ensures
            r.spec_senses().spec_blindsight() == Some(distance),
            r.spec_senses().spec_darkvision() == self.spec_senses().spec_darkvision(),
            r.spec_senses().spec_tremorsense() == self.spec_senses().spec_tremorsense(),
            r.spec_senses().spec_truesight() == self.spec_senses().spec_truesight(),
    {
        Builder { blindsight: Some(distance), ..self }
    }

    pub fn darkvision(self, distance: usize) -> (r: Builder)
        ensures
            r.spec_senses().spec_darkvision() == Some(distance),
            r.spec_senses().spec_blindsight() == self.spec_senses().spec_blindsight(),
            r.spec_senses().spec_tremorsense() == self.spec_senses().spec_tremorsense(),
            r.spec_senses().spec_truesight() == self.spec_senses().spec_truesight(),
    {
        Builder { darkvision: Some(distance), ..self }
    }

    pub fn tremorsense(self, distance: usize) -> (r: Builder)
        ensures
            r.spec_senses().spec_tremorsense() == Some(distance),
            r.spec_senses().spec_blindsight() == self.spec_senses().spec_blindsight(),
            r.spec_senses().spec_darkvision() == self.spec_senses().spec_darkvision(),
            r.spec_senses().spec_truesight() == self.spec_senses().spec_truesight(),
    {
        Builder { tremorsense: Some(distance), ..self }
    }

    pub fn truesight(self, distance: usize) -> (r: Builder)
        ensures
            r.spec_senses().spec_truesight() == Some(distance),
            r.spec_senses().spec_blindsight() == self.spec_senses().spec_blindsight(),
            r.spec_senses().spec_darkvision() == self.spec_senses().spec_darkvision(),
            r.spec_senses().spec_tremorsense() == self.spec_senses().spec_tremorsense(),
    {
        Builder { truesight: Some(distance), ..self }
    }

    pub fn build(self) -> (r: Senses)
        ensures
            r == self.spec_senses(),
    {
        Senses {
            blindsight: self.blindsight,
            darkvision: self.darkvision,
            tremorsense: self.tremorsense,
            truesight: self.truesight,
        }
    }
}

/// The ranges, in feet, of a creature's special senses.
#[derive(Clone, Copy, Debug, Default, PartialEq, Eq, Structural)]
pub struct Senses {
    blindsight: Option<usize>,
    darkvision: Option<usize>,
    tremorsense: Option<usize>,
    truesight: Option<usize>,
}

/// A passive score: 10 plus the modifier of the matching skill.
pub open spec fn passive_score(modifier: int) -> int {
    10 + modifier
}

fn passive(modifier: isize) -> (r: usize)
    requires
        passive_score(modifier as int) >= 0,
    ensures
        r == passive_score(modifier as int),
{
    if modifier >= 0 {
        modifier as usize + 10
    } else {
        10 - ((-modifier) as usize)
    }
}

impl Senses {
    pub closed spec fn spec_none() -> Senses {
        Senses { blindsight: None, darkvision: None, tremorsense: None, truesight: None }
    }

    pub closed spec fn spec_blindsight(self) -> Option<usize> {
        self.blindsight
    }

    pub closed spec fn spec_darkvision(self) -> Option<usize> {
        self.darkvision
    }

    pub closed spec fn spec_tremorsense(self) -> Option<usize> {
        self.tremorsense
    }

    pub closed spec fn spec_truesight(self) -> Option<usize> {
        self.truesight
    }

    /// No special sense at all.
    pub fn new() -> (r: Senses)
        ensures
            r == Senses::spec_none(),
            r.spec_blindsight() is None && r.spec_darkvision() is None
                && r.spec_tremorsense() is None && r.spec_truesight() is None,
    {
        Senses { blindsight: None, darkvision: None, tremorsense: None, truesight: None }
    }

    pub fn get_blindsight(&self) -> (r: Option<usize>)
        ensures
            r == self.spec_blindsight(),
    {
        self.blindsight
    }

    pub fn get_darkvision(&self) -> (r: Option<usize>)
        ensures
            r == self.spec_darkvision(),
    {
        self.darkvision
    }

    pub fn get_tremorsense(&self) -> (r: Option<usize>)
        ensures
            r == self.spec_tremorsense(),
    {
        self.tremorsense
    }

    pub fn get_truesight(&self) -> (r: Option<usize>)
        ensures
            r == self.spec_truesight(),
    {
        self.truesight
    }

    pub fn get_passive_perception(&self, perception_modifier: isize) -> (r: usize)
        requires
            passive_score(perception_modifier as int) >= 0,
        ensures
            r == passive_score(perception_modifier as int),
    {
        passive(perception_modifier)
    }

    pub fn get_passive_investigation(&self, investigation_modifier: isize) -> (r: usize)
        requires
            passive_score(investigation_modifier as int) >= 0,
        ensures
            r == passive_score(investigation_modifier as int),
    {
        passive(investigation_modifier)
    }

    pub fn get_passive_insight(&self, insight_modifier: isize) -> (r: usize)
        requires
            passive_score(insight_modifier as int) >= 0,
        ensures
            r == passive_score(insight_modifier as int),
    {
        passive(insight_modifier)
    }
}

} // verus!
