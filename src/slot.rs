use vstd::prelude::*;
use crate::item::{Item, has_tag};
use vstd::string::StringExecFns;

verus! {

/// The rule a slot applies to the items offered to it.
#[derive(Clone, Debug, PartialEq, Eq)]
pub enum ItemCriteria {
    /// Every item fits.
    Any,
    /// No item fits.
    Nothing,
    /// Items that carry this type tag fit.
    HasType(String),
    /// Items with an armor rating fit.
    HasArmorClass,
}

impl ItemCriteria {
    pub open spec fn accepts(self, item: Item) -> bool {
        match self {
            ItemCriteria::Any => true,
            ItemCriteria::Nothing => false,
            ItemCriteria::HasType(t) => has_tag(item.spec_types(), t@),
            ItemCriteria::HasArmorClass => item.spec_armor_class() is Some,
        }
    }

    /// Whether the item meets the rule.
    pub fn matches(&self, item: &Item) -> (r: bool)
        ensures
            r == self.accepts(*item),
    {
        match self {
            ItemCriteria::Any => true,
            ItemCriteria::Nothing => false,
            ItemCriteria::HasType(t) => item.has_type(t.as_str()),
            ItemCriteria::HasArmorClass => item.get_armor_class().is_some(),
        }
    }
}

/// A container that holds at most one item, which must meet the slot's rule.
#[derive(Clone, Debug)]
pub struct Slot {
    value: Option<Item>,
    validator: ItemCriteria,
}

#[derive(Debug, PartialEq, Eq, Structural)]
pub enum SlotError {
    Full,
    Empty,
    Invalid,
}

impl SlotError {
    pub open spec fn spec_message(self) -> Seq<char> {
        match self {
            SlotError::Full => "Slot already contains something."@,
            SlotError::Empty => "Cannot remove something from empty Slot."@,
            SlotError::Invalid => "Attempted to equip invalid value."@,
        }
    }

    /// A sentence that describes the error.
    pub fn message(&self) -> (r: &'static str)
        ensures
            r@ == self.spec_message(),
    {
        match self {
            SlotError::Full => "Slot already contains something.",
            SlotError::Empty => "Cannot remove something from empty Slot.",
            SlotError::Invalid => "Attempted to equip invalid value.",
        }
    }
}

impl Slot {
    pub closed spec fn spec_value(self) -> Option<Item> {
        self.value
    }

    pub closed spec fn spec_validator(self) -> ItemCriteria {
        self.validator
    }

    /// The slot after an attempt to equip `item`, and the outcome: a full slot
    /// refuses with `Full`, an item that fails the rule with `Invalid`.
    pub open spec fn spec_equip(self, item: Item) -> (Slot, Result<(), SlotError>) {
        if self.spec_value() is Some {
            (self, Err(SlotError::Full))
        } else if !self.spec_validator().accepts(item) {
            (self, Err(SlotError::Invalid))
        } else {
            (self.with_value(Some(item)), Ok(()))
        }
    }

    /// The slot after an attempt to take its item out, and the outcome.
    pub open spec fn spec_unequip(self) -> (Slot, Result<Item, SlotError>) {
        match self.spec_value() {
            Some(item) => (self.with_value(None), Ok(item)),
            None => (self, Err(SlotError::Empty)),
        }
    }

    pub closed spec fn with_value(self, value: Option<Item>) -> Slot {
        Slot { value, ..self }
    }

    pub proof fn lemma_with_value(self, value: Option<Item>)
        ensures
            self.with_value(value).spec_value() == value,
            self.with_value(value).spec_validator() == self.spec_validator(),
            self.with_value(self.spec_value()) == self,
            self.with_value(value).with_value(self.spec_value()) == self,
    {
    }

    /// An empty slot that accepts the items that meet `validator`.
    pub fn new(validator: ItemCriteria) -> (r: Slot)
        ensures
            r.spec_value() is None,
            r.spec_validator() == validator,
    {
        Slot { value: None, validator }
    }

    /// The item in the slot, if any.
    pub fn get_value(&self) -> (r: &Option<Item>)
        ensures
            *r == self.spec_value(),
    {
        &self.value
    }

    pub fn equip(&mut self, value: Item) -> (r: Result<(), SlotError>)
        ensures
            (*final(self), r) == old(self).spec_equip(value),
    {
        if self.value.is_some() {
            return Err(SlotError::Full);
        }
        if !self.validator.matches(&value) {
            return Err(SlotError::Invalid);
        }
        self.value = Some(value);
        Ok(())
    }

    pub fn unequip(&mut self) -> (r: Result<Item, SlotError>)
        ensures
            (*final(self), r) == old(self).spec_unequip(),
    {
        match self.value.take() {
            Some(item) => Ok(item),
            None => Err(SlotError::Empty),
        }
    }
}

/// Equipping an accepted item into an empty slot and taking it out again gives
/// the item back and leaves the slot as it was; a second equip before that is
/// refused as `Full`, and taking from an empty slot is refused as `Empty`.
pub proof fn lemma_equip_unequip_round_trip(slot: Slot, item: Item, other: Item)
    requires
        slot.spec_value() is None,
        slot.spec_validator().accepts(item),
    ensures
        slot.spec_equip(item).1 is Ok,
        slot.spec_equip(item).0.spec_unequip().1 == Ok::<Item, SlotError>(item),
        slot.spec_equip(item).0.spec_unequip().0 == slot,
        slot.spec_equip(item).0.spec_unequip().0.spec_value() is None,
        slot.spec_equip(item).0.spec_equip(other).1 == Err::<(), SlotError>(SlotError::Full),
        slot.spec_unequip().1 == Err::<Item, SlotError>(SlotError::Empty),
{
    slot.lemma_with_value(Some(item));
    slot.with_value(Some(item)).lemma_with_value(None);
}

/// Whether the entry at `i` is the first one named `name`.
pub open spec fn is_first_named(s: Seq<(String, Slot)>, name: Seq<char>, i: int) -> bool {
    0 <= i < s.len() && s[i].0@ == name && forall|j: int| 0 <= j < i ==> s[j].0@ != name
}

pub open spec fn has_named(s: Seq<(String, Slot)>, name: Seq<char>) -> bool {
    exists|i: int| 0 <= i < s.len() && #[trigger] s[i].0@ == name
}

/// The items held by the occupied slots, in the order of the slots.
pub open spec fn equipped(s: Seq<(String, Slot)>) -> Seq<Item>
    decreases s.len(),
{
    if s.len() == 0 {
        Seq::empty()
    } else {
        match s.last().1.spec_value() {
            Some(item) => equipped(s.drop_last()).push(item),
            None => equipped(s.drop_last()),
        }
    }
}

/// The sum of the weights of the items in the occupied slots.
pub open spec fn equipped_weight(s: Seq<(String, Slot)>) -> int {
    crate::item::weight_sum(equipped(s))
}

/// Named slots, each independent of the others.
#[derive(Clone, Debug, Default)]
pub struct ItemSlots(Vec<(String, Slot)>);

#[derive(Debug, PartialEq, Eq)]
pub enum SlotsError {
    NotExists { slot: String },
    SlotProblem(SlotError),
}

impl From<SlotError> for SlotsError {
    fn from(value: SlotError) -> (r: SlotsError) {
        SlotsError::SlotProblem(value)
    }
}

impl vstd::std_specs::convert::FromSpecImpl<SlotError> for SlotsError {
    open spec fn obeys_from_spec() -> bool {
        true
    }

    open spec fn from_spec(v: SlotError) -> SlotsError {
        SlotsError::SlotProblem(v)
    }
}

impl SlotsError {
    /// A sentence that describes the error.
    pub fn message(&self) -> (r: String)
        ensures
            match self {
                SlotsError::NotExists { slot } => r@ == slot@ + " slot does not exist."@,
                SlotsError::SlotProblem(e) => r@ == e.spec_message(),
            },
    {
        match self {
            SlotsError::NotExists { slot } => {
                let mut r = slot.clone();
                r.append(" slot does not exist.");
                r
            },
            SlotsError::SlotProblem(e) => String::from_str(e.message()),
        }
    }
}

pub open spec fn lift_err<T>(r: Result<T, SlotError>) -> Result<T, SlotsError> {
    match r {
        Ok(v) => Ok(v),
        Err(e) => Err(SlotsError::SlotProblem(e)),
    }
}

impl ItemSlots {
    pub closed spec fn spec_entries(self) -> Seq<(String, Slot)> {
        self.0@
    }

    pub fn new() -> (r: ItemSlots)
        ensures
            r.spec_entries().len() == 0,
    {
        ItemSlots(Vec::new())
    }

    fn find(&self, slot_name: &str) -> (r: Option<usize>)
        ensures
            r matches Some(i) ==> is_first_named(self.0@, slot_name@, i as int),
            r is None ==> !has_named(self.0@, slot_name@),
    {
        let wanted = String::from_str(slot_name);
        let mut i: usize = 0;
        while i < self.0.len()
            invariant
                0 <= i <= self.0@.len(),
                wanted@ == slot_name@,
                forall|j: int| 0 <= j < i ==> self.0@[j].0@ != slot_name@,
            decreases self.0@.len() - i,
        {
            if self.0[i].0 == wanted {
                return Some(i);
            }
            i = i + 1;
        }
        None
    }

    /// Registers a slot under a name; a slot already under that name is replaced.
    pub fn add_slot(&mut self, slot_name: &str, slot: Slot)
        ensures
            forall|i: int|
                is_first_named(old(self).spec_entries(), slot_name@, i) ==> final(self).spec_entries() == old(self).spec_entries().update(
                    i,
                    (old(self).spec_entries()[i].0, slot),
                ),
            !has_named(old(self).spec_entries(), slot_name@) ==> final(self).spec_entries().len()
                == old(self).spec_entries().len() + 1 && final(self).spec_entries().drop_last()
                == old(self).spec_entries() && final(self).spec_entries().last().0@ == slot_name@
                && final(self).spec_entries().last().1 == slot,
    {
        match self.find(slot_name) {
            Some(i) => {
                let name = self.0[i].0.clone();
                self.0.set(i, (name, slot));
            },
            None => {
                self.0.push((slot_name.to_owned(), slot));
                proof {
                    assert(self.0@.drop_last() =~= old(self).0@);
                }
            },
        }
    }

    /// Puts an item into the named slot.
    pub fn equip(&mut self, item: Item, slot_name: &str) -> (r: Result<(), SlotsError>)
        ensures
            !has_named(old(self).spec_entries(), slot_name@) ==> (*final(self) == *old(self)
                && (r matches Err(SlotsError::NotExists { slot }) && slot@ == slot_name@)),
            forall|i: int|
                is_first_named(old(self).spec_entries(), slot_name@, i) ==> final(self).spec_entries() == old(self).spec_entries().update(
                    i,
                    (
                        old(self).spec_entries()[i].0,
                        old(self).spec_entries()[i].1.spec_equip(item).0,
                    ),
                ) && r == lift_err(old(self).spec_entries()[i].1.spec_equip(item).1),
    {
        match self.find(slot_name) {
            None => Err(SlotsError::NotExists { slot: slot_name.to_owned() }),
            Some(i) => {
                let mut entry = self.0.remove(i);
                let res = entry.1.equip(item);
                self.0.insert(i, entry);
                proof {
                    assert(self.0@ =~= old(self).0@.update(
                        i as int,
                        (old(self).0@[i as int].0, old(self).0@[i as int].1.spec_equip(item).0),
                    ));
                }
                match res {
                    Ok(()) => Ok(()),
                    Err(e) => Err(SlotsError::from(e)),
                }
            },
        }
    }

    /// Takes the item out of the named slot.
    pub fn unequip(&mut self, slot_name: &str) -> (r: Result<Item, SlotsError>)
        ensures
            !has_named(old(self).spec_entries(), slot_name@) ==> (*final(self) == *old(self)
                && (r matches Err(SlotsError::NotExists { slot }) && slot@ == slot_name@)),
            forall|i: int|
                is_first_named(old(self).spec_entries(), slot_name@, i) ==> final(self).spec_entries() == old(self).spec_entries().update(
                    i,
                    (old(self).spec_entries()[i].0, old(self).spec_entries()[i].1.spec_unequip().0),
                ) && r == lift_err(old(self).spec_entries()[i].1.spec_unequip().1),
    {
        match self.find(slot_name) {
            None => Err(SlotsError::NotExists { slot: slot_name.to_owned() }),
            Some(i) => {
                let mut entry = self.0.remove(i);
                let res = entry.1.unequip();
                self.0.insert(i, entry);
                proof {
                    assert(self.0@ =~= old(self).0@.update(
                        i as int,
                        (old(self).0@[i as int].0, old(self).0@[i as int].1.spec_unequip().0),
                    ));
                }
                match res {
                    Ok(item) => Ok(item),
                    Err(e) => Err(SlotsError::from(e)),
                }
            },
        }
    }

    /// Whether some occupied slot holds an item that meets `item_criteria`.
    pub fn has_item_equipped_matching_criteria(&self, item_criteria: &ItemCriteria) -> (r: bool)
        ensures
            r == exists|i: int|
                0 <= i < self.spec_entries().len() && (#[trigger] self.spec_entries()[i].1.spec_value()
                    matches Some(item) && item_criteria.accepts(item)),
    {
        let mut i: usize = 0;
        while i < self.0.len()
            invariant
                0 <= i <= self.0@.len(),
                forall|j: int|
                    0 <= j < i ==> !(#[trigger] self.0@[j].1.spec_value() matches Some(item)
                        && item_criteria.accepts(item)),
            decreases self.0@.len() - i,
        {
            match self.0[i].1.get_value() {
                Some(item) => {
                    if item_criteria.matches(item) {
                        return true;
                    }
                },
                None => {},
            }
            i = i + 1;
        }
        false
    }

    /// The sum of the weights of the equipped items.
    pub fn get_total_weight(&self) -> (r: usize)
        requires
            equipped_weight(self.spec_entries()) <= usize::MAX,
        ensures
            r == equipped_weight(self.spec_entries()),
    {
        let mut total: usize = 0;
        let mut i: usize = 0;
        while i < self.0.len()
            invariant
                0 <= i <= self.0@.len(),
                equipped_weight(self.0@) <= usize::MAX,
                total == equipped_weight(self.0@.subrange(0, i as int)),
            decreases self.0@.len() - i,
        {
            proof {
                lemma_equipped_weight_prefix_le(self.0@, i as int + 1);
                assert(self.0@.subrange(0, i as int + 1).drop_last() =~= self.0@.subrange(
                    0,
                    i as int,
                ));
            }
            match self.0[i].1.get_value() {
                Some(item) => {
                    proof {
                        let e = equipped(self.0@.subrange(0, i as int));
                        assert(e.push(*item).drop_last() =~= e);
                    }
                    total = total + item.get_weight();
                },
                None => {},
            }
            i = i + 1;
        }
        proof {
            assert(self.0@.subrange(0, i as int) =~= self.0@);
        }
        total
    }

    /// The items in the occupied slots, in the order of the slots.
    pub fn get_equipped_items(&self) -> (r: Vec<&Item>)
        ensures
            r@.len() == equipped(self.spec_entries()).len(),
            forall|i: int| 0 <= i < r@.len() ==> *r@[i] == equipped(self.spec_entries())[i],
    {
        let mut r: Vec<&Item> = Vec::new();
        let mut i: usize = 0;
        while i < self.0.len()
            invariant
                0 <= i <= self.0@.len(),
                r@.len() == equipped(self.0@.subrange(0, i as int)).len(),
                forall|j: int|
                    0 <= j < r@.len() ==> *r@[j] == equipped(self.0@.subrange(0, i as int))[j],
            decreases self.0@.len() - i,
        {
            proof {
                assert(self.0@.subrange(0, i as int + 1).drop_last() =~= self.0@.subrange(
                    0,
                    i as int,
                ));
            }
            match self.0[i].1.get_value() {
                Some(item) => {
                    r.push(item);
                },
                None => {},
            }
            i = i + 1;
        }
        proof {
            assert(self.0@.subrange(0, i as int) =~= self.0@);
        }
        r
    }
}

/// The equipped weight of a prefix of the slots is at most that of all of them.
pub proof fn lemma_equipped_weight_prefix_le(s: Seq<(String, Slot)>, n: int)
    requires
        0 <= n <= s.len(),
    ensures
        equipped_weight(s.subrange(0, n)) <= equipped_weight(s),
    decreases s.len(),
{
    if n < s.len() {
        lemma_equipped_weight_prefix_le(s.drop_last(), n);
        assert(s.drop_last().subrange(0, n) =~= s.subrange(0, n));
        let e = equipped(s.drop_last());
        if let Some(item) = s.last().1.spec_value() {
            assert(e.push(item).drop_last() =~= e);
        }
    } else {
        assert(s.subrange(0, n) =~= s);
    }
}

} // verus!
