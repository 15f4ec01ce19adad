use vstd::prelude::*;
use crate::spell::SpellList;

verus! {

/// A class feature.
#[derive(Clone, Debug)]
pub enum Feature {
    /// Casting spells, with the spells known at each spell level.
    Spellcasting(Vec<SpellList>),
}

} // verus!
