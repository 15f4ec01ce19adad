use vstd::prelude::*;

verus! {

/// The armor rating an item gives, by armor category, with its base value.
#[derive(Clone, Copy, Debug, PartialEq, Eq, Structural)]
pub enum ArmorClass {
    Light(usize),
    Medium(usize),
    Heavy(usize),
}

/// Whether a sequence of type tags holds a given tag.
pub open spec fn has_tag(types: Seq<String>, tag: Seq<char>) -> bool {
    exists|i: int| 0 <= i < types.len() && #[trigger] types[i]@ == tag
}

/// Collects the fields of an item before it is built.
#[derive(Debug, Default)]
pub struct Builder {
    name: Option<String>,
    weight: Option<usize>,
    types: Vec<String>,
    armor_class: Option<ArmorClass>,
}

impl Builder {
    pub closed spec fn spec_name(self) -> Option<Seq<char>> {
        match self.name {
            Some(n) => Some(n@),
            None => None,
        }
    }

    pub closed spec fn spec_weight(self) -> Option<usize> {
        self.weight
    }

    pub closed spec fn spec_types(self) -> Seq<String> {
        self.types@
    }

    pub closed spec fn spec_armor_class(self) -> Option<ArmorClass> {
        self.armor_class
    }

    pub fn new() -> (r: Builder)
        ensures
            r.spec_name() is None,
            r.spec_weight() is None,
            r.spec_types().len() == 0,
            r.spec_armor_class() is None,
    {
        Builder { name: None, weight: None, types: Vec::new(), armor_class: None }
    }

    /// Sets the name; an empty name is refused.
    pub fn name(self, name: &str) -> (r: Result<Builder, ConstructionError>)
        ensures
            r is Err <==> name@.len() == 0,
            r matches Ok(b) ==> b.spec_name() == Some(name@) && b.spec_weight()
                == self.spec_weight() && b.spec_types() == self.spec_types()
                && b.spec_armor_class() == self.spec_armor_class(),
    {
        if name.is_empty() {
            return Err(ConstructionError::MissingName);
        }
        let mut b = self;
        b.name = Some(name.to_owned());
        Ok(b)
    }

    pub fn weight(self, weight: usize) -> (r: Result<Builder, ConstructionError>)
        ensures
            r matches Ok(b) && b.spec_weight() == Some(weight) && b.spec_name() == self.spec_name()
                && b.spec_types() == self.spec_types() && b.spec_armor_class()
                == self.spec_armor_class(),
    {
        let mut b = self;
        b.weight = Some(weight);
        Ok(b)
    }

    /// Adds a free-text type tag.
    pub fn add_type(self, new_type: &str) -> (r: Result<Builder, ConstructionError>)
        ensures
            r matches Ok(b) && b.spec_types().len() == self.spec_types().len() + 1
                && b.spec_types().drop_last() == self.spec_types() && b.spec_types().last()@
                == new_type@ && b.spec_name() == self.spec_name() && b.spec_weight()
                == self.spec_weight() && b.spec_armor_class() == self.spec_armor_class(),
    {
        let mut b = self;
        b.types.push(new_type.to_owned());
        proof {
            assert(b.types@.drop_last() =~= self.types@);
        }
        Ok(b)
    }

    pub fn armor_class(self, armor_class: ArmorClass) -> (r: Result<Builder, ConstructionError>)
        ensures
            r matches Ok(b) && b.spec_armor_class() == Some(armor_class) && b.spec_name()
                == self.spec_name() && b.spec_weight() == self.spec_weight() && b.spec_types()
                == self.spec_types(),
    {
        let mut b = self;
        b.armor_class = Some(armor_class);
        Ok(b)
    }

    /// Builds the item; the name is required, the weight defaults to 0.
    pub fn build(self) -> (r: Result<Item, ConstructionError>)
        ensures
            r is Err <==> self.spec_name() is None,
            r matches Ok(item) ==> Some(item.spec_name()) == self.spec_name()
                && item.spec_weight() == (match self.spec_weight() {
                Some(w) => w,
                None => 0,
            }) && item.spec_types() == self.spec_types() && item.spec_armor_class()
                == self.spec_armor_class(),
    {
        match self.name {
            None => Err(ConstructionError::MissingName),
            Some(name) => {
                let weight = match self.weight {
                    Some(w) => w,
                    None => 0,
                };
                Ok(Item { name, weight, types: self.types, armor_class: self.armor_class })
            },
        }
    }
}

#[derive(Debug, PartialEq, Eq, Structural)]
pub enum ConstructionError {
    MissingName,
}

impl ConstructionError {
    /// A sentence that describes the error.
    pub fn message(&self) -> (r: &'static str)
        ensures
            r@ == "Cannot create an Item without a name."@,
    {
        "Cannot create an Item without a name."
    }
}

/// An inert object: a name, a weight, free-text type tags and an optional armor rating.
#[derive(Clone, Debug, PartialEq, Eq)]
pub struct Item {
    name: String,
    weight: usize,
    types: Vec<String>,
    armor_class: Option<ArmorClass>,
}

impl Item {
    pub closed spec fn spec_name(self) -> Seq<char> {
        self.name@
    }

    pub closed spec fn spec_weight(self) -> usize {
        self.weight
    }

    pub closed spec fn spec_types(self) -> Seq<String> {
        self.types@
    }

    pub closed spec fn spec_armor_class(self) -> Option<ArmorClass> {
        self.armor_class
    }

    pub fn get_name(&self) -> (r: &str)
        ensures
            r@ == self.spec_name(),
    {
        self.name.as_str()
    }

    #[must_use]
    pub fn get_weight(&self) -> (r: usize)
        ensures
            r == self.spec_weight(),
    {
        self.weight
    }

    /// Whether the item carries the given type tag.
    pub fn has_type(&self, item_type: &str) -> (r: bool)
        ensures
            r == has_tag(self.spec_types(), item_type@),
    {
        let wanted = String::from_str(item_type);
        let mut i: usize = 0;
        while i < self.types.len()
            invariant
                0 <= i <= self.types@.len(),
                wanted@ == item_type@,
                forall|j: int| 0 <= j < i ==> self.types@[j]@ != item_type@,
            decreases self.types@.len() - i,
        {
            if self.types[i] == wanted {
                return true;
            }
            i = i + 1;
        }
        false
    }

    pub fn get_armor_class(&self) -> (r: Option<ArmorClass>)
        ensures
            r == self.spec_armor_class(),
    {
        self.armor_class
    }
}

/// The sum of the weights of a sequence of items.
pub open spec fn weight_sum(items: Seq<Item>) -> int
    decreases items.len(),
{
    if items.len() == 0 {
        0
    } else {
        weight_sum(items.drop_last()) + items.last().spec_weight()
    }
}

/// An unordered collection of carried items.
#[derive(Clone, Default, Debug)]
pub struct Items(Vec<Item>);

impl Items {
    pub closed spec fn spec_items(self) -> Seq<Item> {
        self.0@
    }

    pub fn new() -> (r: Items)
        ensures
            r.spec_items().len() == 0,
    {
        Items(Vec::new())
    }

    /// The items as a slice.
    pub fn as_slice(&self) -> (r: &[Item])
        ensures
            r@ == self.spec_items(),
    {
        self.0.as_slice()
    }

    /// The sum of the weights of all items.
    #[must_use]
    pub fn get_total_weight(&self) -> (r: usize)
        requires
            weight_sum(self.spec_items()) <= usize::MAX,
        ensures
            r == weight_sum(self.spec_items()),
    {
        let mut total: usize = 0;
        let mut i: usize = 0;
        while i < self.0.len()
            invariant
                0 <= i <= self.0@.len(),
                weight_sum(self.0@) <= usize::MAX,
                total == weight_sum(self.0@.subrange(0, i as int)),
            decreases self.0@.len() - i,
        {
            proof {
                lemma_weight_sum_prefix_le(self.0@, i as int + 1);
                assert(self.0@.subrange(0, i as int + 1).drop_last() =~= self.0@.subrange(
                    0,
                    i as int,
                ));
            }
            total = total + self.0[i].get_weight();
            i = i + 1;
        }
        proof {
            assert(self.0@.subrange(0, i as int) =~= self.0@);
        }
        total
    }

    pub fn add_item(&mut self, item: Item)
        ensures
            final(self).spec_items() == old(self).spec_items().push(item),
    {
        self.0.push(item);
    }
}

/// The weight of a prefix is at most the weight of the whole.
pub proof fn lemma_weight_sum_prefix_le(s: Seq<Item>, n: int)
    requires
        0 <= n <= s.len(),
    ensures
        weight_sum(s.subrange(0, n)) <= weight_sum(s),
    decreases s.len(),
{
    if n < s.len() {
        lemma_weight_sum_prefix_le(s.drop_last(), n);
        assert(s.drop_last().subrange(0, n) =~= s.subrange(0, n));
    } else {
        assert(s.subrange(0, n) =~= s);
    }
}

/// A sum of weights is never negative.
pub proof fn lemma_weight_sum_nonneg(s: Seq<Item>)
    ensures
        weight_sum(s) >= 0,
    decreases s.len(),
{
    if s.len() > 0 {
        lemma_weight_sum_nonneg(s.drop_last());
    }
}

} // verus!
