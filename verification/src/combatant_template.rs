//! A reusable stat block for quickly adding a known combatant.
use vstd::prelude::*;

verus! {

#[derive(Debug, Clone)]
pub struct CombatantTemplate {
    pub name: String,
    pub hp_max: i32,
    pub armor_class: i32,
    pub initiative: i32,
    pub is_player: bool,
}

impl CombatantTemplate {
    pub fn from_stats(
        name: String,
        initiative: i32,
        hp_max: i32,
        armor_class: i32,
        is_player: bool,
    ) -> (r: Self)
        ensures
            r.name == name,
            r.hp_max == hp_max,
            r.armor_class == armor_class,
            r.initiative == initiative,
            r.is_player == is_player,
    {
        Self { name, hp_max, armor_class, initiative, is_player }
    }
}

} // verus!
