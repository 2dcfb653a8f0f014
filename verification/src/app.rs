//! The session root: one encounter, one interaction mode, a bounded
//! action log, the reusable templates and the transient user message.
use vstd::prelude::*;

use crate::combat::CombatEncounter;
use crate::combatant_template::CombatantTemplate;
use crate::log::LogEntry;
use crate::state::{AddCombatantState, ClearAction, InputMode, SaveEncounterState, SaveLibraryState, SelectionState};

verus! {

/// The session log keeps at most this many entries; older ones are
/// evicted first.
pub const LOG_CAP: usize = 200;

/// How one appended entry relates the log after an action to the log
/// before it: at most the cap survives, older entries are evicted first
/// in arrival order, and the new entry carries the round and the message.
pub open spec fn log_advanced(
    old_log: Seq<LogEntry>,
    round: u32,
    msg: Seq<char>,
    new_log: Seq<LogEntry>,
) -> bool {
    &&& new_log.len() <= LOG_CAP
    &&& (old_log.len() < LOG_CAP ==> new_log.len() == old_log.len() + 1 && new_log.subrange(
        0,
        old_log.len() as int,
    ) == old_log)
    &&& (old_log.len() >= LOG_CAP ==> new_log.len() == LOG_CAP && new_log.subrange(
        0,
        LOG_CAP - 1,
    ) == old_log.skip(old_log.len() - (LOG_CAP - 1)))
    &&& new_log.len() > 0
    &&& new_log.last().message@ == msg
    &&& new_log.last().round == round
}


/// The session with its interaction mode forced to idle: the state a
/// mode handler starts from once the dispatcher has taken the mode out.
pub open spec fn normalized(pre: App) -> App {
    App { input_mode: InputMode::Normal, ..pre }
}

/// The session after a cancellation: idle mode, no transient message,
/// everything else untouched.
pub open spec fn cancelled(pre: App) -> App {
    App { input_mode: InputMode::Normal, message: None, ..pre }
}

/// An interaction was refused up front: only the transient message
/// changed, and it reads `note`.
pub open spec fn refused_for(pre: App, post: App, note: Seq<char>) -> bool {
    post == (App { message: post.message, ..pre }) && (post.message matches Some(m) && m@ == note)
}

/// An interaction mode was entered: the mode changed, the transient
/// message was cleared, everything else is untouched.
pub open spec fn entered(pre: App, post: App) -> bool {
    post == (App { input_mode: post.input_mode, message: None, ..pre })
}

/// Only the interaction mode changed.
pub open spec fn only_mode_changed(pre: App, post: App) -> bool {
    post == (App { input_mode: post.input_mode, ..pre })
}

/// Only the interaction mode and the transient message changed.
pub open spec fn only_mode_and_message_changed(pre: App, post: App) -> bool {
    post == (App { input_mode: post.input_mode, message: post.message, ..pre })
}

pub struct App {
    pub encounter: CombatEncounter,
    pub input_mode: InputMode,
    pub should_quit: bool,
    pub message: Option<String>,
    pub templates: Vec<CombatantTemplate>,
    pub log: Vec<LogEntry>,
    /// Names of the saved encounters on disk, refreshed by the shell
    /// before each key event.
    pub saved_encounter_files: Vec<String>,
    /// Names of the stored library blueprints, refreshed the same way.
    pub library_files: Vec<String>,
}


/// What each `start_*` entry point leaves behind. Every predicate fixes
/// both branches: the up-front refusal with its exact message, and the
/// entered mode with its blank scratch state.
pub open spec fn start_adding_combatant_outcome(pre: App, post: App) -> bool {
    (post.input_mode matches InputMode::AddingCombatant(s) && s.is_blank()) && entered(pre, post)
}

pub open spec fn start_dealing_damage_outcome(pre: App, post: App) -> bool {
    &&& (pre.encounter.combatants@.len() == 0 ==> refused_for(
        pre,
        post,
        "No combatants to damage!"@,
    ))
    &&& (pre.encounter.combatants@.len() > 0 ==> (post.input_mode
        matches InputMode::DealingDamage(s) && s.is_blank()) && entered(pre, post))
}

pub open spec fn start_healing_outcome(pre: App, post: App) -> bool {
    &&& (pre.encounter.combatants@.len() == 0 ==> refused_for(pre, post, "No combatants to heal!"@))
    &&& (pre.encounter.combatants@.len() > 0 ==> (post.input_mode matches InputMode::Healing(s)
        && s.is_blank()) && entered(pre, post))
}

pub open spec fn start_adding_status_outcome(pre: App, post: App) -> bool {
    &&& (pre.encounter.combatants@.len() == 0 ==> refused_for(
        pre,
        post,
        "No combatants to add status to!"@,
    ))
    &&& (pre.encounter.combatants@.len() > 0 ==> (post.input_mode
        matches InputMode::AddingStatus(s) && s.is_blank()) && entered(pre, post))
}

pub open spec fn start_removing_outcome(pre: App, post: App) -> bool {
    &&& (pre.encounter.combatants@.len() == 0 ==> refused_for(
        pre,
        post,
        "No combatants to remove!"@,
    ))
    &&& (pre.encounter.combatants@.len() > 0 ==> (post.input_mode matches InputMode::Removing(s)
        && s.is_blank()) && entered(pre, post))
}

pub open spec fn start_rolling_death_save_outcome(pre: App, post: App) -> bool {
    &&& (!pre.spec_someone_needs_death_save() ==> refused_for(
        pre,
        post,
        "No combatants need death saves!"@,
    ))
    &&& (pre.spec_someone_needs_death_save() ==> (post.input_mode
        matches InputMode::RollingDeathSave(s) && s.is_blank()) && entered(pre, post))
}

pub open spec fn start_concentration_target_outcome(pre: App, post: App) -> bool {
    &&& (pre.encounter.combatants@.len() == 0 ==> refused_for(
        pre,
        post,
        "No combatants to set concentration on!"@,
    ))
    &&& (pre.encounter.combatants@.len() > 0 ==> (post.input_mode
        matches InputMode::ConcentrationTarget(s) && s.is_blank()) && entered(pre, post))
}

pub open spec fn start_clear_choice_outcome(pre: App, post: App) -> bool {
    post == (App {
        input_mode: InputMode::ClearActionSelection(ClearAction::Concentration),
        message: None,
        ..pre
    })
}

pub open spec fn open_action_menu_outcome(pre: App, post: App) -> bool {
    post == (App { input_mode: InputMode::ActionMenu(0), message: None, ..pre })
}

pub open spec fn open_combatant_menu_outcome(pre: App, post: App) -> bool {
    post == (App { input_mode: InputMode::CombatantMenu(0), message: None, ..pre })
}

pub open spec fn start_granting_temp_hp_outcome(pre: App, post: App) -> bool {
    &&& (pre.encounter.combatants@.len() == 0 ==> refused_for(
        pre,
        post,
        "No combatants to grant temp HP!"@,
    ))
    &&& (pre.encounter.combatants@.len() > 0 ==> (post.input_mode
        matches InputMode::GrantingTempHp(s) && s.is_blank()) && entered(pre, post))
}

pub open spec fn start_selecting_template_outcome(pre: App, post: App) -> bool {
    &&& (pre.templates@.len() == 0 ==> refused_for(pre, post, "No templates available"@))
    &&& (pre.templates@.len() > 0 ==> (post.input_mode matches InputMode::SelectingTemplate(s)
        && s.is_blank()) && entered(pre, post))
}

pub open spec fn start_saving_template_outcome(pre: App, post: App) -> bool {
    &&& (pre.encounter.combatants@.len() == 0 ==> refused_for(
        pre,
        post,
        "No combatants to save as template"@,
    ))
    &&& (pre.encounter.combatants@.len() > 0 ==> (post.input_mode
        matches InputMode::SavingTemplate(s) && s.is_blank()) && entered(pre, post))
}

pub open spec fn start_saving_encounter_outcome(pre: App, post: App) -> bool {
    (post.input_mode matches InputMode::SavingEncounter(s) && s.input@.len() == 0) && post == (App {
        input_mode: post.input_mode,
        ..pre
    })
}

pub open spec fn start_loading_encounter_outcome(pre: App, post: App) -> bool {
    (post.input_mode matches InputMode::LoadingEncounter(s) && s.is_blank()) && post == (App {
        input_mode: post.input_mode,
        ..pre
    })
}

pub open spec fn start_saving_library_outcome(pre: App, post: App) -> bool {
    &&& (pre.encounter.combatants@.len() == 0 ==> refused_for(
        pre,
        post,
        "Cannot save empty encounter to library"@,
    ))
    &&& (pre.encounter.combatants@.len() > 0 ==> (post.input_mode
        matches InputMode::SavingLibrary(s) && s.step == 0 && s.name@.len() == 0
        && s.description@.len() == 0 && s.difficulty@.len() == 0) && post == (App {
        input_mode: post.input_mode,
        ..pre
    }))
}

pub open spec fn start_loading_library_outcome(pre: App, post: App) -> bool {
    (post.input_mode matches InputMode::LoadingLibrary(s) && s.is_blank()) && post == (App {
        input_mode: post.input_mode,
        ..pre
    })
}

impl App {
    /// Validity of a session: a valid encounter and a log within its cap.
    pub open spec fn wf(self) -> bool {
        &&& self.encounter.wf()
        &&& self.log@.len() <= LOG_CAP
    }

    /// A fresh session: empty roster, idle mode, no message, no
    /// templates, no history. The shell loads stored templates and file
    /// lists afterwards.
    pub fn new() -> (r: Self)
        ensures
            r.encounter.combatants@.len() == 0,
            r.encounter.current_turn_index == 0,
            r.encounter.round_number == 1,
            r.input_mode is Normal,
            !r.should_quit,
            r.message is None,
            r.templates@.len() == 0,
            r.log@.len() == 0,
            r.saved_encounter_files@.len() == 0,
            r.library_files@.len() == 0,
            r.wf(),
    {
        Self {
            encounter: CombatEncounter::new(),
            input_mode: InputMode::Normal,
            should_quit: false,
            message: None,
            templates: Vec::new(),
            log: Vec::new(),
            saved_encounter_files: Vec::new(),
            library_files: Vec::new(),
        }
    }

    /// Takes the result of the shell's attempt to read the stored
    /// templates: the list on success, a warning message on failure.
    pub fn install_templates(&mut self, loaded: Result<Vec<CombatantTemplate>, String>)
        ensures
            loaded matches Ok(t) ==> *final(self) == (App { templates: t, ..*old(self) }),
            loaded matches Err(e) ==> *final(self) == (App {
                message: final(self).message,
                ..*old(self)
            }) && (final(self).message matches Some(m) && m@ == "Warning: "@ + e@),
    {
        match loaded {
            Ok(t) => {
                self.templates = t;
            },
            Err(e) => {
                let m = String::from_str("Warning: ").concat(e.as_str());
                self.message = Some(m);
            },
        }
    }

    /// Replaces the file listings the selection modes read; the shell
    /// calls this before handing over each key event.
    pub fn refresh_file_lists(&mut self, encounters: Vec<String>, library: Vec<String>)
        ensures
            *final(self) == (App {
                saved_encounter_files: encounters,
                library_files: library,
                ..*old(self)
            }),
    {
        self.saved_encounter_files = encounters;
        self.library_files = library;
    }

    pub fn quit(&mut self)
        ensures
            *final(self) == (App { should_quit: true, ..*old(self) }),
    {
        self.should_quit = true;
    }

    pub fn set_message(&mut self, msg: String)
        ensures
            *final(self) == (App { message: Some(msg), ..*old(self) }),
    {
        self.message = Some(msg);
    }

    pub fn clear_message(&mut self)
        ensures
            *final(self) == (App { message: None, ..*old(self) }),
    {
        self.message = None;
    }

    /// Cancellation: any mode collapses back to idle and the transient
    /// message is cleared.
    pub fn cancel_input(&mut self)
        ensures
            *final(self) == (App { input_mode: InputMode::Normal, message: None, ..*old(self) }),
    {
        self.input_mode = InputMode::Normal;
        self.message = None;
    }

    /// Appends to the action log at the current round, evicting the
    /// oldest entry once the cap is reached: the log never exceeds it.
    pub fn push_log(&mut self, message: String)
        requires
            old(self).wf(),
        ensures
            final(self).wf(),
            log_advanced(
                old(self).log@,
                old(self).encounter.round_number,
                message@,
                final(self).log@,
            ),
            *final(self) == (App { log: final(self).log, ..*old(self) }),
    {
        let entry = LogEntry::new(self.encounter.round_number, message);
        if self.log.len() >= LOG_CAP {
            self.log.remove(0);
        }
        self.log.push(entry);
        proof {
            let ol = old(self).log@;
            let nl = self.log@;
            if ol.len() < LOG_CAP {
                assert(nl.subrange(0, ol.len() as int) =~= ol);
            } else {
                assert(nl.subrange(0, LOG_CAP - 1) =~= ol.skip(ol.len() - (LOG_CAP - 1)));
            }
        }
    }

    pub fn start_adding_combatant(&mut self)
        ensures
            start_adding_combatant_outcome(*old(self), *final(self)),
    {
        self.input_mode = InputMode::AddingCombatant(AddCombatantState::default());
        self.clear_message();
    }

    /// True when a list-selection action has no eligible target and must
    /// be refused up front.
    fn roster_is_empty(&self) -> (r: bool)
        ensures
            r == (self.encounter.combatants@.len() == 0),
    {
        self.encounter.combatants.is_empty()
    }

    pub fn start_dealing_damage(&mut self)
        ensures
            start_dealing_damage_outcome(*old(self), *final(self)),
    {
        if self.roster_is_empty() {
            self.set_message(String::from_str("No combatants to damage!"));
            return ;
        }
        self.input_mode = InputMode::DealingDamage(SelectionState::default());
        self.clear_message();
    }

    pub fn start_healing(&mut self)
        ensures
            start_healing_outcome(*old(self), *final(self)),
    {
        if self.roster_is_empty() {
            self.set_message(String::from_str("No combatants to heal!"));
            return ;
        }
        self.input_mode = InputMode::Healing(SelectionState::default());
        self.clear_message();
    }

    pub fn start_adding_status(&mut self)
        ensures
            start_adding_status_outcome(*old(self), *final(self)),
    {
        if self.roster_is_empty() {
            self.set_message(String::from_str("No combatants to add status to!"));
            return ;
        }
        self.input_mode = InputMode::AddingStatus(SelectionState::default());
        self.clear_message();
    }

    pub fn start_removing(&mut self)
        ensures
            start_removing_outcome(*old(self), *final(self)),
    {
        if self.roster_is_empty() {
            self.set_message(String::from_str("No combatants to remove!"));
            return ;
        }
        self.input_mode = InputMode::Removing(SelectionState::default());
        self.clear_message();
    }

    /// Whether anyone is actually down and rolling death saves.
    pub open spec fn spec_someone_needs_death_save(self) -> bool {
        exists|i: int|
            0 <= i < self.encounter.combatants@.len() && (#[trigger] self.encounter.combatants@[i]).death_saves
                is Some && self.encounter.combatants@[i].hp_current <= 0
    }

    pub fn start_rolling_death_save(&mut self)
        ensures
            start_rolling_death_save_outcome(*old(self), *final(self)),
    {
        let n = self.encounter.combatants.len();
        let mut i: usize = 0;
        let mut found = false;
        while i < n
            invariant
                0 <= i <= n,
                n == self.encounter.combatants@.len(),
                found == exists|j: int|
                    0 <= j < i && (#[trigger] self.encounter.combatants@[j]).death_saves is Some
                        && self.encounter.combatants@[j].hp_current <= 0,
            decreases n - i,
        {
            let c = &self.encounter.combatants[i];
            if c.death_saves.is_some() && c.hp_current <= 0 {
                found = true;
            }
            i += 1;
        }
        if !found {
            self.set_message(String::from_str("No combatants need death saves!"));
            return ;
        }
        self.input_mode = InputMode::RollingDeathSave(SelectionState::default());
        self.clear_message();
    }

    pub fn start_concentration_target(&mut self)
        ensures
            start_concentration_target_outcome(*old(self), *final(self)),
    {
        if self.roster_is_empty() {
            self.set_message(String::from_str("No combatants to set concentration on!"));
            return ;
        }
        self.input_mode = InputMode::ConcentrationTarget(SelectionState::default());
        self.clear_message();
    }

    pub fn start_clear_choice(&mut self)
        ensures
            start_clear_choice_outcome(*old(self), *final(self)),
    {
        self.input_mode = InputMode::ClearActionSelection(ClearAction::Concentration);
        self.clear_message();
    }

    pub fn open_action_menu(&mut self)
        ensures
            open_action_menu_outcome(*old(self), *final(self)),
    {
        self.input_mode = InputMode::ActionMenu(0);
        self.clear_message();
    }

    pub fn open_combatant_menu(&mut self)
        ensures
            open_combatant_menu_outcome(*old(self), *final(self)),
    {
        self.input_mode = InputMode::CombatantMenu(0);
        self.clear_message();
    }

    pub fn start_granting_temp_hp(&mut self)
        ensures
            start_granting_temp_hp_outcome(*old(self), *final(self)),
    {
        if self.roster_is_empty() {
            self.set_message(String::from_str("No combatants to grant temp HP!"));
            return ;
        }
        self.input_mode = InputMode::GrantingTempHp(SelectionState::default());
        self.clear_message();
    }

    pub fn start_selecting_template(&mut self)
        ensures
            start_selecting_template_outcome(*old(self), *final(self)),
    {
        if self.templates.is_empty() {
            self.set_message(String::from_str("No templates available"));
            return ;
        }
        self.input_mode = InputMode::SelectingTemplate(SelectionState::default());
        self.clear_message();
    }

    pub fn start_saving_template(&mut self)
        ensures
            start_saving_template_outcome(*old(self), *final(self)),
    {
        if self.roster_is_empty() {
            self.set_message(String::from_str("No combatants to save as template"));
            return ;
        }
        self.input_mode = InputMode::SavingTemplate(SelectionState::default());
        self.clear_message();
    }

    pub fn start_saving_encounter(&mut self)
        ensures
            start_saving_encounter_outcome(*old(self), *final(self)),
    {
        self.input_mode = InputMode::SavingEncounter(SaveEncounterState::default());
    }

    pub fn start_loading_encounter(&mut self)
        ensures
            start_loading_encounter_outcome(*old(self), *final(self)),
    {
        self.input_mode = InputMode::LoadingEncounter(SelectionState::default());
    }

    pub fn start_saving_library(&mut self)
        ensures
            start_saving_library_outcome(*old(self), *final(self)),
    {
        if self.roster_is_empty() {
            self.set_message(String::from_str("Cannot save empty encounter to library"));
            return ;
        }
        self.input_mode = InputMode::SavingLibrary(SaveLibraryState::default());
    }

    pub fn start_loading_library(&mut self)
        ensures
            start_loading_library_outcome(*old(self), *final(self)),
    {
        self.input_mode = InputMode::LoadingLibrary(SelectionState::default());
    }

    pub fn list_saved_encounters(&self) -> (r: &Vec<String>)
        ensures
            r == &self.saved_encounter_files,
    {
        &self.saved_encounter_files
    }

    pub fn list_library_templates(&self) -> (r: &Vec<String>)
        ensures
            r == &self.library_files,
    {
        &self.library_files
    }
}

impl Default for App {
    /// The same fresh session `new` builds.
    fn default() -> (r: Self)
        ensures
            r.encounter.combatants@.len() == 0,
            r.input_mode is Normal,
            !r.should_quit,
            r.message is None,
            r.templates@.len() == 0,
            r.log@.len() == 0,
            r.wf(),
    {
        Self::new()
    }
}

} // verus!
