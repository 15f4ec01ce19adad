use vstd::prelude::*;

pub mod discipline;

verus! {

/// Why an act cannot be performed.
#[derive(Clone, Debug, PartialEq, Eq, Structural)]
pub enum ActError {
    NotEnoughPoints,
    ActNotPracticed,
    Overcharged,
}

impl ActError {
    pub open spec fn spec_message(self) -> Seq<char> {
        match self {
            ActError::NotEnoughPoints => "Cannot perform Act: not enough psi points"@,
            ActError::ActNotPracticed => "Cannot perform Act: user doesn't know act"@,
            ActError::Overcharged => "Cannot perform Act: act unable to handle psi points"@,
        }
    }

    /// A sentence that describes the error.
    pub fn message(&self) -> (r: &'static str)
        ensures
            r@ == self.spec_message(),
    {
        match self {
            ActError::NotEnoughPoints => "Cannot perform Act: not enough psi points",
            ActError::ActNotPracticed => "Cannot perform Act: user doesn't know act",
            ActError::Overcharged => "Cannot perform Act: act unable to handle psi points",
        }
    }
}

/// A minor psionic power.
#[derive(Clone, Debug)]
pub struct Talent {
    name: String,
    description: String,
}

impl Talent {
    pub closed spec fn spec_name(self) -> Seq<char> {
        self.name@
    }

    pub closed spec fn spec_description(self) -> Seq<char> {
        self.description@
    }

    #[must_use]
    pub fn new(name: &str, description: &str) -> (r: Talent)
        ensures
            r.spec_name() == name@,
            r.spec_description() == description@,
    {
        Talent { name: name.to_owned(), description: description.to_owned() }
    }

    #[must_use]
    pub fn get_name(&self) -> (r: &str)
        ensures
            r@ == self.spec_name(),
    {
        self.name.as_str()
    }

    #[must_use]
    pub fn get_description(&self) -> (r: &str)
        ensures
            r@ == self.spec_description(),
    {
        self.description.as_str()
    }
}

} // verus!
