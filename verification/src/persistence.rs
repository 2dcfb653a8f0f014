//! The shapes the session exchanges with its file-store collaborator,
//! and the rules that strip live state from library blueprints.
//!
//! The core never touches the file system: it produces and consumes
//! these records, and the shell around the library moves them to and
//! from disk.
use vstd::prelude::*;

use crate::combat::CombatEncounter;
use crate::combatant::Combatant;
use crate::log::LogEntry;

verus! {

/// A complete saved encounter: roster, history and metadata.
#[derive(Debug)]
pub struct SavedEncounter {
    pub encounter: CombatEncounter,
    pub log: Vec<LogEntry>,
    pub saved_at: u64,
    pub version: String,
}

/// A combatant as stored in the encounter library: the stat block only,
/// with no live state and no initiative.
#[derive(Debug, Clone, PartialEq)]
pub struct LibraryCombatant {
    pub name: String,
    pub hp_max: i32,
    pub armor_class: i32,
    pub is_player: bool,
}

/// A reusable encounter blueprint with metadata.
#[derive(Debug, Clone, PartialEq)]
pub struct EncounterTemplate {
    pub name: String,
    pub description: String,
    pub difficulty: String,
    pub combatants: Vec<LibraryCombatant>,
    pub created_at: u64,
}

/// The blueprint keeps exactly the four stat-block fields of a
/// combatant.
pub open spec fn is_blueprint_of(lc: LibraryCombatant, c: Combatant) -> bool {
    &&& lc.name@ == c.name@
    &&& lc.hp_max == c.hp_max
    &&& lc.armor_class == c.armor_class
    &&& lc.is_player == c.is_player
}

/// A combatant reconstituted from a blueprint: full hit points, nothing
/// carried over but the stat block, initiative supplied at load time.
pub open spec fn is_fresh_from(r: Combatant, lc: LibraryCombatant, initiative: i32) -> bool {
    &&& r.name@ == lc.name@
    &&& r.initiative == initiative
    &&& r.hp_max == lc.hp_max
    &&& r.hp_current == lc.hp_max
    &&& r.temp_hp == 0
    &&& r.armor_class == lc.armor_class
    &&& r.is_player == lc.is_player
    &&& r.status_effects@.len() == 0
    &&& r.death_saves is None
    &&& r.concentration is None
}

/// Strips a combatant to its library blueprint.
pub fn to_library_combatant(c: &Combatant) -> (r: LibraryCombatant)
    ensures
        is_blueprint_of(r, *c),
{
    LibraryCombatant {
        name: c.name.clone(),
        hp_max: c.hp_max,
        armor_class: c.armor_class,
        is_player: c.is_player,
    }
}

/// Rebuilds a fresh combatant from a blueprint and a rolled initiative.
pub fn from_library_combatant(lc: &LibraryCombatant, initiative: i32) -> (r: Combatant)
    requires
        lc.hp_max >= 0,
    ensures
        is_fresh_from(r, *lc, initiative),
        r.wf(),
{
    Combatant::new(lc.name.clone(), initiative, lc.hp_max, lc.armor_class, lc.is_player)
}

/// Saving a combatant to the library and loading it back yields exactly
/// the stat block: name, maximum hit points, armor class and player
/// flag survive, while current hit points, temporary hit points, status
/// effects and concentration are discarded and the reconstituted
/// combatant starts at full health with none of them.
pub proof fn lemma_library_round_trip_strips_live_state(
    c: Combatant,
    lc: LibraryCombatant,
    r: Combatant,
    initiative: i32,
)
    requires
        is_blueprint_of(lc, c),
        is_fresh_from(r, lc, initiative),
    ensures
        r.name@ == c.name@,
        r.hp_max == c.hp_max,
        r.armor_class == c.armor_class,
        r.is_player == c.is_player,
        r.hp_current == c.hp_max,
        r.temp_hp == 0,
        r.status_effects@.len() == 0,
        r.death_saves is None,
        r.concentration is None,
        r.initiative == initiative,
{
}

/// File name of the template store.
pub fn templates_path() -> (r: &'static str)
    ensures
        r@ == "templates.json"@,
{
    "templates.json"
}

/// Directory of the saved encounters.
pub fn encounters_dir() -> (r: &'static str)
    ensures
        r@ == "encounters"@,
{
    "encounters"
}

/// Directory of the encounter library.
pub fn library_dir() -> (r: &'static str)
    ensures
        r@ == "library"@,
{
    "library"
}

/// Whether a library entry of this name already exists, judged against
/// the list of stored names read by the shell.
pub fn library_template_exists(filename: &str, library_files: &Vec<String>) -> (r: bool)
    ensures
        r == exists|i: int|
            0 <= i < library_files@.len() && (#[trigger] library_files@[i])@ == filename@,
{
    let wanted = filename.to_owned();
    let n = library_files.len();
    let mut i: usize = 0;
    while i < n
        invariant
            0 <= i <= n,
            n == library_files@.len(),
            wanted@ == filename@,
            forall|j: int| 0 <= j < i ==> (#[trigger] library_files@[j])@ != filename@,
        decreases n - i,
    {
        if library_files[i] == wanted {
            return true;
        }
        i += 1;
    }
    false
}

} // verus!
