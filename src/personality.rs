use vstd::prelude::*;

verus! {

/// Traits, ideals, bonds and flaws of a character, in free text.
#[derive(Clone, Debug, Default)]
pub struct Personality {
    pub traits: Vec<String>,
    pub ideals: Vec<String>,
    pub bonds: Vec<String>,
    pub flaws: Vec<String>,
}

impl Personality {
    pub fn new() -> (r: Personality)
        ensures
            r.traits@.len() == 0,
            r.ideals@.len() == 0,
            r.bonds@.len() == 0,
            r.flaws@.len() == 0,
    {
        Personality { traits: Vec::new(), ideals: Vec::new(), bonds: Vec::new(), flaws: Vec::new() }
    }

    pub fn add_trait(self, personality_trait: &str) -> (r: Personality)
        ensures
            r.traits@.len() == self.traits@.len() + 1,
            r.traits@.drop_last() == self.traits@,
            r.traits@.last()@ == personality_trait@,
            r.ideals@ == self.ideals@,
            r.bonds@ == self.bonds@,
            r.flaws@ == self.flaws@,
    {
        let mut p = self;
        p.traits.push(personality_trait.to_owned());
        proof {
            assert(p.traits@.drop_last() =~= self.traits@);
        }
        p
    }

    pub fn add_ideal(self, ideal: &str) -> (r: Personality)
        ensures
            r.ideals@.len() == self.ideals@.len() + 1,
            r.ideals@.drop_last() == self.ideals@,
            r.ideals@.last()@ == ideal@,
            r.traits@ == self.traits@,
            r.bonds@ == self.bonds@,
            r.flaws@ == self.flaws@,
    {
        let mut p = self;
        p.ideals.push(ideal.to_owned());
        proof {
            assert(p.ideals@.drop_last() =~= self.ideals@);
        }
        p
    }

    pub fn add_bond(self, bond: &str) -> (r: Personality)
        ensures
            r.bonds@.len() == self.bonds@.len() + 1,
            r.bonds@.drop_last() == self.bonds@,
            r.bonds@.last()@ == bond@,
            r.traits@ == self.traits@,
            r.ideals@ == self.ideals@,
            r.flaws@ == self.flaws@,
    {
        let mut p = self;
        p.bonds.push(bond.to_owned());
        proof {
            assert(p.bonds@.drop_last() =~= self.bonds@);
        }
        p
    }

    pub fn add_flaw(self, flaw: &str) -> (r: Personality)
        ensures
            r.flaws@.len() == self.flaws@.len() + 1,
            r.flaws@.drop_last() == self.flaws@,
            r.flaws@.last()@ == flaw@,
            r.traits@ == self.traits@,
            r.ideals@ == self.ideals@,
            r.bonds@ == self.bonds@,
    {
        let mut p = self;
        p.flaws.push(flaw.to_owned());
        proof {
            assert(p.flaws@.drop_last() =~= self.flaws@);
        }
        p
    }
}

} // verus!
