//! The marker for a spell a combatant is concentrating on.
use vstd::prelude::*;

verus! {

/// A (spell name, constitution save modifier) pair; a combatant carries at
/// most one, attached and detached atomically.
#[derive(Debug, Clone)]
pub struct ConcentrationInfo {
    pub spell_name: String,
    pub constitution_modifier: i32,
}

impl ConcentrationInfo {
    pub fn new(spell_name: String, constitution_modifier: i32) -> (r: Self)
        ensures
            r.spell_name == spell_name,
            r.constitution_modifier == constitution_modifier,
    {
        Self { spell_name, constitution_modifier }
    }
}

} // verus!
