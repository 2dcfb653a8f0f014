//! The tagged union of interaction modes: each variant owns exactly the
//! scratch state its prompt needs, and is the single source of truth for
//! what the user is currently doing.
use vstd::prelude::*;

use crate::persistence::{EncounterTemplate, LibraryCombatant};

verus! {

#[derive(Debug, Clone, PartialEq)]
pub enum InputMode {
    Normal,
    AddingCombatant(AddCombatantState),
    DealingDamage(SelectionState),
    Healing(SelectionState),
    AddingStatus(SelectionState),
    SelectingCondition(ConditionSelectionState),
    RollingDeathSave(SelectionState),
    ConcentrationTarget(SelectionState),
    ApplyingConcentration(AddConcentrationState),
    ConcentrationCheck(ConcentrationCheckState),
    ClearingConcentration(SelectionState),
    ClearActionSelection(ClearAction),
    ClearingStatus(SelectionState),
    SelectingStatusToClear(StatusSelectionState),
    SelectingTemplate(SelectionState),
    SavingTemplate(SelectionState),
    ActionMenu(usize),
    CombatantMenu(usize),
    GrantingTempHp(SelectionState),
    QuickReference(usize),
    Removing(SelectionState),
    SavingEncounter(SaveEncounterState),
    LoadingEncounter(SelectionState),
    SavingLibrary(SaveLibraryState),
    LoadingLibrary(SelectionState),
    SettingLibraryInitiatives(LoadLibraryState),
    ConfirmingLibraryOverwrite(SaveLibraryState),
    ConfirmingLibraryLoad(String),
}

/// The linear wizard that collects a new combatant field by field:
/// step 0 name, 1 initiative, 2 hit points, 3 armor class, 4 player flag.
#[derive(Debug, Clone, PartialEq)]
pub struct AddCombatantState {
    pub step: usize,
    pub name: String,
    pub initiative: String,
    pub hp: String,
    pub ac: String,
    pub is_player: String,
}

impl AddCombatantState {
    pub open spec fn is_blank(self) -> bool {
        &&& self.step == 0
        &&& self.name@.len() == 0
        &&& self.initiative@.len() == 0
        &&& self.hp@.len() == 0
        &&& self.ac@.len() == 0
        &&& self.is_player@.len() == 0
    }
}

impl Default for AddCombatantState {
    fn default() -> (r: Self)
        ensures
            r.is_blank(),
    {
        Self {
            step: 0,
            name: String::new(),
            initiative: String::new(),
            hp: String::new(),
            ac: String::new(),
            is_player: String::new(),
        }
    }
}

/// A cursor over the live roster plus an accumulating numeric entry.
#[derive(Debug, Clone, PartialEq)]
pub struct SelectionState {
    pub selected_index: usize,
    pub input: String,
}

impl SelectionState {
    pub open spec fn is_blank(self) -> bool {
        self.selected_index == 0 && self.input@.len() == 0
    }
}

impl Default for SelectionState {
    fn default() -> (r: Self)
        ensures
            r.is_blank(),
    {
        Self { selected_index: 0, input: String::new() }
    }
}

/// Choosing a condition (by number) and a duration for one combatant.
#[derive(Debug, Clone, PartialEq)]
pub struct ConditionSelectionState {
    pub combatant_index: usize,
    pub input: String,
}

/// The two-step wizard attaching concentration: step 0 spell name,
/// step 1 constitution modifier.
#[derive(Debug, Clone, PartialEq)]
pub struct AddConcentrationState {
    pub combatant_index: usize,
    pub step: usize,
    pub spell_name: String,
    pub con_mod: String,
}

impl Default for AddConcentrationState {
    fn default() -> (r: Self)
        ensures
            r.combatant_index == 0,
            r.step == 0,
            r.spell_name@.len() == 0,
            r.con_mod@.len() == 0,
    {
        Self { combatant_index: 0, step: 0, spell_name: String::new(), con_mod: String::new() }
    }
}

/// A required concentration check: the target, the difficulty class the
/// damage set, and the rolled total being typed.
#[derive(Debug, Clone, PartialEq)]
pub struct ConcentrationCheckState {
    pub combatant_index: usize,
    pub dc: i32,
    pub input: String,
}

#[derive(Debug, Clone, PartialEq)]
pub enum ClearAction {
    Concentration,
    StatusEffects,
}

/// Picking which of a combatant's status effects to clear.
#[derive(Debug, Clone, PartialEq)]
pub struct StatusSelectionState {
    pub combatant_index: usize,
    pub selected_status_index: usize,
}

/// The file name being typed for a saved encounter.
#[derive(Debug, Clone, PartialEq)]
pub struct SaveEncounterState {
    pub input: String,
}

impl Default for SaveEncounterState {
    fn default() -> (r: Self)
        ensures
            r.input@.len() == 0,
    {
        Self { input: String::new() }
    }
}

/// The three-step wizard saving to the library: step 0 name,
/// 1 description, 2 difficulty.
#[derive(Debug, Clone, PartialEq)]
pub struct SaveLibraryState {
    pub step: usize,
    pub name: String,
    pub description: String,
    pub difficulty: String,
}

impl Default for SaveLibraryState {
    fn default() -> (r: Self)
        ensures
            r.step == 0,
            r.name@.len() == 0,
            r.description@.len() == 0,
            r.difficulty@.len() == 0,
    {
        Self { step: 0, name: String::new(), description: String::new(), difficulty: String::new() }
    }
}

/// Walking a loaded library blueprint one combatant at a time to collect
/// an initiative for each before the bulk commit.
#[derive(Debug, Clone, PartialEq)]
pub struct LoadLibraryState {
    pub template: EncounterTemplate,
    pub combatants_with_init: Vec<(LibraryCombatant, String)>,
    pub current_index: usize,
}

} // verus!
