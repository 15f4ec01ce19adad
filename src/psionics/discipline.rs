use vstd::prelude::*;
use vstd::string::StringExecFns;
use std::ops::Range;
use crate::text::{append_quoted_list, push_text, quoted_list, text_if, texts};
use crate::units::Duration;

verus! {

/// A psionic act: what it does, its cost range in psi points and its duration.
#[derive(Clone, Debug, PartialEq, Eq)]
pub struct Act {
    name: String,
    description: String,
    cost_start: usize,
    cost_end: usize,
    duration: Option<Duration>,
}

/// Two acts with the same name, description, cost and duration.
pub open spec fn same_act(a: Act, b: Act) -> bool {
    &&& a.spec_name() == b.spec_name()
    &&& a.spec_description() == b.spec_description()
    &&& a.spec_cost() == b.spec_cost()
    &&& a.spec_duration() == b.spec_duration()
}

impl Act {
    pub closed spec fn spec_name(self) -> Seq<char> {
        self.name@
    }

    pub closed spec fn spec_description(self) -> Seq<char> {
        self.description@
    }

    pub closed spec fn spec_cost(self) -> (usize, usize) {
        (self.cost_start, self.cost_end)
    }

    pub closed spec fn spec_duration(self) -> Option<Duration> {
        self.duration
    }

    #[must_use]
    pub fn new(name: &str, description: &str, cost: Range<usize>, duration: Option<Duration>) -> (r:
        Act)
        ensures
            r.spec_name() == name@,
            r.spec_description() == description@,
            r.spec_cost() == (cost.start, cost.end),
            r.spec_duration() == duration,
    {
        Act {
            name: name.to_owned(),
            description: description.to_owned(),
            cost_start: cost.start,
            cost_end: cost.end,
            duration,
        }
    }

    /// A copy of the act.
    fn copied(&self) -> (r: Act)
        ensures
            r == *self,
    {
        Act {
            name: self.name.clone(),
            description: self.description.clone(),
            cost_start: self.cost_start,
            cost_end: self.cost_end,
            duration: self.duration,
        }
    }

    /// Whether the two acts agree on every field.
    pub fn same_as(&self, other: &Act) -> (r: bool)
        ensures
            r == same_act(*self, *other),
    {
        let durations_equal = match (self.duration, other.duration) {
            (Some(a), Some(b)) => a == b,
            (None, None) => true,
            _ => false,
        };
        self.name == other.name && self.description == other.description && self.cost_start
            == other.cost_start && self.cost_end == other.cost_end && durations_equal
    }

    #[must_use]
    pub fn get_name(&self) -> (r: &str)
        ensures
            r@ == self.spec_name(),
    {
        self.name.as_str()
    }

    #[must_use]
    pub fn get_description(&self) -> (r: &str)
        ensures
            r@ == self.spec_description(),
    {
        self.description.as_str()
    }

    #[must_use]
    pub fn get_cost(&self) -> (r: Range<usize>)
        ensures
            (r.start, r.end) == self.spec_cost(),
    {
        Range { start: self.cost_start, end: self.cost_end }
    }

    #[must_use]
    pub fn get_duration(&self) -> (r: &Option<Duration>)
        ensures
            *r == self.spec_duration(),
    {
        &self.duration
    }
}

/// A psionic discipline: an order, a focus benefit and its acts.
#[derive(Clone, Debug, PartialEq, Eq)]
pub struct Discipline {
    name: String,
    order: String,
    description: String,
    focus: String,
    acts: Vec<Act>,
}

impl Discipline {
    pub closed spec fn spec_name(self) -> Seq<char> {
        self.name@
    }

    pub closed spec fn spec_order(self) -> Seq<char> {
        self.order@
    }

    pub closed spec fn spec_description(self) -> Seq<char> {
        self.description@
    }

    pub closed spec fn spec_focus(self) -> Seq<char> {
        self.focus@
    }

    pub closed spec fn spec_acts(self) -> Seq<Act> {
        self.acts@
    }

    #[must_use]
    pub fn get_name(&self) -> (r: &str)
        ensures
            r@ == self.spec_name(),
    {
        self.name.as_str()
    }

    #[must_use]
    pub fn get_order(&self) -> (r: &str)
        ensures
            r@ == self.spec_order(),
    {
        self.order.as_str()
    }

    #[must_use]
    pub fn get_description(&self) -> (r: &str)
        ensures
            r@ == self.spec_description(),
    {
        self.description.as_str()
    }

    #[must_use]
    pub fn get_focus(&self) -> (r: &str)
        ensures
            r@ == self.spec_focus(),
    {
        self.focus.as_str()
    }

    #[must_use]
    pub fn get_acts(&self) -> (r: &[Act])
        ensures
            r@ == self.spec_acts(),
    {
        self.acts.as_slice()
    }

    /// Whether the discipline holds an act equal to `a`.
    #[must_use]
    pub fn has_act(&self, a: &Act) -> (r: bool)
        ensures
            r == exists|i: int| 0 <= i < self.spec_acts().len() && same_act(
                #[trigger] self.spec_acts()[i],
                *a,
            ),
    {
        let mut i: usize = 0;
        while i < self.acts.len()
            invariant
                0 <= i <= self.acts@.len(),
                forall|j: int| 0 <= j < i ==> !same_act(#[trigger] self.acts@[j], *a),
            decreases self.acts@.len() - i,
        {
            if self.acts[i].same_as(a) {
                assert(same_act(self.spec_acts()[i as int], *a));
                return true;
            }
            i = i + 1;
        }
        false
    }
}

/// Collects the fields of a discipline before it is built.
#[derive(Clone, Debug, Default)]
pub struct Builder {
    name: Option<String>,
    order: Option<String>,
    description: Option<String>,
    focus: Option<String>,
    acts: Vec<Act>,
}

#[derive(Debug, PartialEq, Eq)]
pub enum BuildError {
    /// Names every field that was not given.
    MissingField(Vec<String>),
}

impl BuildError {
    /// The error for the given missing fields, in the order given.
    pub fn new_missing_fields_error(missing_fields: &[&str]) -> (r: BuildError)
        ensures
            r matches BuildError::MissingField(f) && texts(f@) == missing_fields@.map_values(
                |s: &str| s@,
            ),
    {
        let mut fields: Vec<String> = Vec::new();
        let mut i: usize = 0;
        while i < missing_fields.len()
            invariant
                0 <= i <= missing_fields@.len(),
                texts(fields@) == missing_fields@.subrange(0, i as int).map_values(|s: &str| s@),
            decreases missing_fields@.len() - i,
        {
            push_text(&mut fields, missing_fields[i]);
            proof {
                assert(missing_fields@.subrange(0, i as int + 1).map_values(|s: &str| s@)
                    =~= missing_fields@.subrange(0, i as int).map_values(|s: &str| s@).push(
                    missing_fields@[i as int]@,
                ));
            }
            i = i + 1;
        }
        proof {
            assert(missing_fields@.subrange(0, i as int) =~= missing_fields@);
        }
        BuildError::MissingField(fields)
    }

    /// The error as a sentence that lists the missing fields.
    pub fn to_string(&self) -> (r: String)
        ensures
            self matches BuildError::MissingField(f) && r@ == "Unable to build Discipline:\n"@
                + "\tmissing field(s): "@ + quoted_list(texts(f@)),
    {
        match self {
            BuildError::MissingField(fields) => {
                let mut r = String::from_str("Unable to build Discipline:\n");
                r.append("\tmissing field(s): ");
                append_quoted_list(&mut r, fields.as_slice());
                r
            },
        }
    }
}

impl Builder {
    pub closed spec fn spec_name(self) -> Option<Seq<char>> {
        match self.name {
            Some(v) => Some(v@),
            None => None,
        }
    }

    pub closed spec fn spec_order(self) -> Option<Seq<char>> {
        match self.order {
            Some(v) => Some(v@),
            None => None,
        }
    }

    pub closed spec fn spec_description(self) -> Option<Seq<char>> {
        match self.description {
            Some(v) => Some(v@),
            None => None,
        }
    }

    pub closed spec fn spec_focus(self) -> Option<Seq<char>> {
        match self.focus {
            Some(v) => Some(v@),
            None => None,
        }
    }

    pub closed spec fn spec_acts(self) -> Seq<Act> {
        self.acts@
    }

    /// The fields not given, in the order name, order, description, focus.
    pub open spec fn missing(self) -> Seq<Seq<char>> {
        text_if(self.spec_name() is None, "name"@) + text_if(self.spec_order() is None, "order"@)
            + text_if(self.spec_description() is None, "description"@) + text_if(
            self.spec_focus() is None,
            "focus"@,
        )
    }

    #[must_use]
    pub fn new() -> (r: Builder)
        ensures
            r.spec_name() is None,
            r.spec_order() is None,
            r.spec_description() is None,
            r.spec_focus() is None,
            r.spec_acts().len() == 0,
    {
        Builder { name: None, order: None, description: None, focus: None, acts: Vec::new() }
    }

    #[must_use]
    pub fn name(self, name: &str) -> (r: Builder)
        ensures
            r.spec_name() == Some(name@),
            r.spec_order() == self.spec_order(),
            r.spec_description() == self.spec_description(),
            r.spec_focus() == self.spec_focus(),
            r.spec_acts() == self.spec_acts(),
    {
        Builder { name: Some(name.to_owned()), ..self }
    }

    #[must_use]
    pub fn order(self, order: &str) -> (r: Builder)
        ensures
            r.spec_order() == Some(order@),
            r.spec_name() == self.spec_name(),
            r.spec_description() == self.spec_description(),
            r.spec_focus() == self.spec_focus(),
            r.spec_acts() == self.spec_acts(),
    {
        Builder { order: Some(order.to_owned()), ..self }
    }

    #[must_use]
    pub fn description(self, description: &str) -> (r: Builder)
        ensures
            r.spec_description() == Some(description@),
            r.spec_name() == self.spec_name(),
            r.spec_order() == self.spec_order(),
            r.spec_focus() == self.spec_focus(),
            r.spec_acts() == self.spec_acts(),
    {
        Builder { description: Some(description.to_owned()), ..self }
    }

    #[must_use]
    pub fn focus(self, focus: &str) -> (r: Builder)
        ensures
            r.spec_focus() == Some(focus@),
            r.spec_name() == self.spec_name(),
            r.spec_order() == self.spec_order(),
            r.spec_description() == self.spec_description(),
            r.spec_acts() == self.spec_acts(),
    {
        Builder { focus: Some(focus.to_owned()), ..self }
    }

    /// Adds a copy of `act`.
    #[must_use]
    pub fn add_act(self, act: &Act) -> (r: Builder)
        ensures
            r.spec_acts() == self.spec_acts().push(*act),
            r.spec_name() == self.spec_name(),
            r.spec_order() == self.spec_order(),
            r.spec_description() == self.spec_description(),
            r.spec_focus() == self.spec_focus(),
    {
        let mut b = self;
        b.acts.push(act.copied());
        b
    }

    /// Builds the discipline; fails naming every field not given.
    pub fn build(self) -> (r: Result<Discipline, BuildError>)
        ensures
            self.missing().len() > 0 ==> (r matches Err(BuildError::MissingField(f)) && texts(f@)
                == self.missing()),
            self.missing().len() == 0 ==> (r matches Ok(d) && Some(d.spec_name())
                == self.spec_name() && Some(d.spec_order()) == self.spec_order() && Some(
                d.spec_description(),
            ) == self.spec_description() && Some(d.spec_focus()) == self.spec_focus()
                && d.spec_acts() == self.spec_acts()),
    {
        let mut fields: Vec<String> = Vec::new();
        proof {
            assert(texts(fields@) =~= Seq::<Seq<char>>::empty());
        }
        if self.name.is_none() {
            push_text(&mut fields, "name");
        }
        proof {
            assert(texts(fields@) =~= text_if(self.spec_name() is None, "name"@));
        }
        if self.order.is_none() {
            push_text(&mut fields, "order");
        }
        proof {
            assert(texts(fields@) =~= text_if(self.spec_name() is None, "name"@) + text_if(
                self.spec_order() is None,
                "order"@,
            ));
        }
        if self.description.is_none() {
            push_text(&mut fields, "description");
        }
        proof {
            assert(texts(fields@) =~= text_if(self.spec_name() is None, "name"@) + text_if(
                self.spec_order() is None,
                "order"@,
            ) + text_if(self.spec_description() is None, "description"@));
        }
        if self.focus.is_none() {
            push_text(&mut fields, "focus");
        }
        proof {
            assert(texts(fields@) =~= self.missing());
        }
        match (self.name, self.order, self.description, self.focus) {
            (Some(name), Some(order), Some(description), Some(focus)) => {
                proof {
                    assert(texts(fields@).len() == 0);
                }
                Ok(Discipline { name, order, description, focus, acts: self.acts })
            },
            _ => Err(BuildError::MissingField(fields)),
        }
    }
}

impl TryFrom<Builder> for Discipline {
    type Error = BuildError;

    /// See `Builder::build`.
    fn try_from(value: Builder) -> (r: Result<Discipline, BuildError>) {
        value.build()
    }
}

impl vstd::std_specs::convert::TryFromSpecImpl<Builder> for Discipline {
    open spec fn obeys_try_from_spec() -> bool {
        false
    }

    open spec fn try_from_spec(v: Builder) -> Result<Discipline, BuildError> {
        arbitrary()
    }
}

} // verus!
