use vstd::prelude::*;

verus! {

/// A named special ability granted by a class or an ancestry.
#[derive(Clone, Debug, PartialEq, Eq)]
pub struct Feat {
    name: String,
    description: String,
}

impl Feat {
    pub closed spec fn spec_name(self) -> Seq<char> {
        self.name@
    }

    pub closed spec fn spec_description(self) -> Seq<char> {
        self.description@
    }

    pub fn new(name: &str, description: &str) -> (r: Feat)
        ensures
            r.spec_name() == name@,
            r.spec_description() == description@,
    {
        Feat { name: name.to_owned(), description: description.to_owned() }
    }

    pub fn get_name(&self) -> (r: &str)
        ensures
            r@ == self.spec_name(),
    {
        self.name.as_str()
    }

    pub fn get_description(&self) -> (r: &str)
        ensures
            r@ == self.spec_description(),
    {
        self.description.as_str()
    }
}

} // verus!
