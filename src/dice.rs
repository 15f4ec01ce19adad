use vstd::prelude::*;
use vstd::string::StringExecFns;
use crate::text::{decimal, decimal_string, joined};

verus! {

/// A number of dice of one size.
#[derive(Clone, Copy, Debug, PartialEq, Eq, PartialOrd, Ord, Structural)]
pub struct Die {
    pub sides: usize,
    pub count: usize,
}

/// Dice ordered by size, each size once.
pub open spec fn dice_ordered(s: Seq<Die>) -> bool {
    forall|i: int, j: int| 0 <= i < j < s.len() ==> s[i].sides < s[j].sides
}

/// A die written as "<count>d<sides>".
pub open spec fn die_text(d: Die) -> Seq<char> {
    decimal(d.count as nat) + "d"@ + decimal(d.sides as nat)
}

/// The modifier written after the dice: " + m", " - m", or nothing for 0.
pub open spec fn modifier_text(m: int) -> Seq<char> {
    if m > 0 {
        " + "@ + decimal(m as nat)
    } else if m < 0 {
        " - "@ + decimal((-m) as nat)
    } else {
        Seq::empty()
    }
}

/// A dice roll: dice of several sizes plus a flat modifier.
#[derive(Clone, Debug, PartialEq, Eq)]
pub struct Roll {
    dice: Vec<Die>,
    modifier: isize,
}

impl Roll {
    pub closed spec fn spec_dice(self) -> Seq<Die> {
        self.dice@
    }

    pub closed spec fn spec_modifier(self) -> isize {
        self.modifier
    }

    /// `count` dice of `sides` sides, plus `modifier`.
    #[must_use]
    pub fn new(count: usize, sides: usize, modifier: isize) -> (r: Roll)
        ensures
            r.spec_dice() == seq![Die { sides, count }],
            r.spec_modifier() == modifier,
            dice_ordered(r.spec_dice()),
    {
        let dice = vec![Die { sides, count }];
        Roll { dice, modifier }
    }

    /// Adds `count` dice of `sides` sides: they join the dice of that size if
    /// there are some, else they take their place in the order of sizes.
    pub fn add_die(&mut self, count: usize, sides: usize)
        requires
            dice_ordered(old(self).spec_dice()),
            forall|i: int|
                0 <= i < old(self).spec_dice().len() && old(self).spec_dice()[i].sides == sides
                    ==> old(self).spec_dice()[i].count + count <= usize::MAX,
        ensures
            dice_ordered(final(self).spec_dice()),
            final(self).spec_modifier() == old(self).spec_modifier(),
            forall|i: int|
                0 <= i < old(self).spec_dice().len() && old(self).spec_dice()[i].sides == sides
                    ==> final(self).spec_dice() == old(self).spec_dice().update(
                    i,
                    Die { sides, count: (old(self).spec_dice()[i].count + count) as usize },
                ),
            (forall|i: int|
                0 <= i < old(self).spec_dice().len() ==> old(self).spec_dice()[i].sides != sides)
                ==> exists|p: int|
                0 <= p <= old(self).spec_dice().len() && final(self).spec_dice() == old(
                    self,
                ).spec_dice().insert(p, Die { sides, count }),
    {
        let mut i: usize = 0;
        while i < self.dice.len() && self.dice[i].sides < sides
            invariant
                0 <= i <= self.dice@.len(),
                self.dice@ == old(self).dice@,
                self.modifier == old(self).modifier,
                forall|j: int| 0 <= j < i ==> self.dice@[j].sides < sides,
            decreases self.dice@.len() - i,
        {
            i = i + 1;
        }
        let ghost s = old(self).dice@;
        if i < self.dice.len() && self.dice[i].sides == sides {
            let d = self.dice[i];
            self.dice.set(i, Die { sides, count: d.count + count });
            proof {
                assert forall|j: int| 0 <= j < s.len() && s[j].sides == sides implies j == i by {
                    if j < i {
                        assert(s[j].sides < sides);
                    } else if j > i {
                        assert(s[i as int].sides < s[j].sides);
                    }
                }
            }
        } else {
            self.dice.insert(i, Die { sides, count });
            proof {
                assert forall|j: int| i <= j < s.len() implies s[j].sides > sides by {
                    if j > i {
                        assert(s[i as int].sides < s[j].sides);
                    }
                }
                assert(self.dice@ == s.insert(i as int, Die { sides, count }));
            }
        }
    }

    /// The roll as text: "1d6 + 2d10 + 1", for instance.
    pub fn to_string(&self) -> (r: String)
        ensures
            r@ == joined(self.spec_dice().map_values(|d: Die| die_text(d)), " + "@)
                + modifier_text(self.spec_modifier() as int),
    {
        let mut r = String::new();
        let mut i: usize = 0;
        while i < self.dice.len()
            invariant
                0 <= i <= self.dice@.len(),
                r@ == joined(
                    self.dice@.subrange(0, i as int).map_values(|d: Die| die_text(d)),
                    " + "@,
                ),
            decreases self.dice@.len() - i,
        {
            proof {
                assert(self.dice@.subrange(0, i as int + 1).map_values(|d: Die| die_text(d)).drop_last()
                    =~= self.dice@.subrange(0, i as int).map_values(|d: Die| die_text(d)));
            }
            if i > 0 {
                r.append(" + ");
            }
            let d = self.dice[i];
            let count = decimal_string(d.count);
            let sides = decimal_string(d.sides);
            r.append(count.as_str());
            r.append("d");
            r.append(sides.as_str());
            i = i + 1;
        }
        proof {
            assert(self.dice@.subrange(0, i as int) =~= self.dice@);
        }
        if self.modifier > 0 {
            r.append(" + ");
            let m = decimal_string(self.modifier as usize);
            r.append(m.as_str());
        } else if self.modifier < 0 {
            r.append(" - ");
            let magnitude: usize = (-(self.modifier + 1)) as usize + 1;
            let m = decimal_string(magnitude);
            r.append(m.as_str());
        }
        r
    }
}

} // verus!
