use vstd::prelude::*;

verus! {

/// How well a creature is trained in something: multiplies the proficiency bonus.
#[derive(Clone, Copy, Debug, PartialEq, Eq, Structural)]
pub enum Proficiency {
    Proficiency,
    Expertise,
}

impl Proficiency {
    pub open spec fn spec_multiplier(self) -> int {
        match self {
            Proficiency::Proficiency => 1,
            Proficiency::Expertise => 2,
        }
    }

    /// The factor applied to the proficiency bonus: 1 when proficient, 2 with expertise.
    pub fn multiplier(&self) -> (r: isize)
        ensures
            r == self.spec_multiplier(),
    {
        match self {
            Proficiency::Proficiency => 1,
            Proficiency::Expertise => 2,
        }
    }
}

/// The factor of an optional proficiency: absence counts as zero.
pub open spec fn proficiency_factor(p: Option<Proficiency>) -> int {
    match p {
        Some(p) => p.spec_multiplier(),
        None => 0,
    }
}

/// How incoming damage of a given kind is scaled.
#[derive(Clone, Copy, Debug, PartialEq, Eq, Structural)]
pub enum Resistance {
    Vulnerable,
    Resistant,
    Immune,
}

impl Resistance {
    /// The damage multiplier as a fraction (numerator, denominator):
    /// vulnerable doubles, resistant halves, immune cancels.
    pub fn get_damage_multiplier(&self) -> (r: (usize, usize))
        ensures
            r == (match self {
                Resistance::Vulnerable => (2usize, 1usize),
                Resistance::Resistant => (1usize, 2usize),
                Resistance::Immune => (0usize, 1usize),
            }),
    {
        match self {
            Resistance::Vulnerable => (2, 1),
            Resistance::Resistant => (1, 2),
            Resistance::Immune => (0, 1),
        }
    }
}

/// How burdened a creature is by what it carries.
#[derive(Clone, Copy, Debug, PartialEq, Eq, Structural)]
pub enum Encumbrance {
    Encumbered,
    HeavilyEncumbered,
}

} // verus!
