//! The interaction state machine: one key event at a time is turned into
//! either an edit of the current mode's scratch state or exactly one call
//! into the rule engine, after which the mode collapses back to idle.
//!
//! File and clock work never happens here: when a completed interaction
//! needs the file store, the handler returns a request that the shell
//! performs, reporting back through the session's `finish_*` and
//! `confirm_*` methods.
use vstd::prelude::*;

use crate::actions::{add_combatant_outcome, add_status_outcome, apply_concentration_outcome, clear_all_statuses_outcome, clear_concentration_outcome, clear_one_status_outcome, concentration_check_outcome, deal_damage_outcome, death_save_roll_outcome, grant_temp_hp_outcome, heal_outcome, initiative_recorded, library_blueprint_built, library_committed, msg_invalid_index, msg_library_exists, msg_template_initiative, remove_outcome, save_template_outcome, spec_library_has};
use crate::app::{cancelled, normalized, only_mode_and_message_changed, only_mode_changed, open_action_menu_outcome, open_combatant_menu_outcome, start_adding_combatant_outcome, start_adding_status_outcome, start_clear_choice_outcome, start_concentration_target_outcome, start_dealing_damage_outcome, start_granting_temp_hp_outcome, start_healing_outcome, start_loading_encounter_outcome, start_loading_library_outcome, start_removing_outcome, start_rolling_death_save_outcome, start_saving_encounter_outcome, start_saving_library_outcome, start_saving_template_outcome, start_selecting_template_outcome, App};
use crate::combat::next_turn_outcome;
use crate::persistence::EncounterTemplate;
use crate::state::{
    AddCombatantState, AddConcentrationState, ClearAction, ConcentrationCheckState,
    ConditionSelectionState, InputMode, LoadLibraryState, SaveEncounterState, SaveLibraryState,
    SelectionState, StatusSelectionState,
};
use crate::status::ConditionType;
use crate::text::{
    all_name_chars, all_ws, int_literal_val, is_digit_char, is_name_char, lower_of, lowercase,
    parse_i32, seq_contains, spec_parses_i32, spec_tokens, spec_trimmed, split_tokens,
    str_contains,
};

verus! {

/// One key event, already decoded from the terminal by the shell.
#[derive(Debug, Clone, Copy, PartialEq, Eq, Structural)]
pub enum Key {
    Char(char),
    Ctrl(char),
    Enter,
    Esc,
    Backspace,
    Up,
    Down,
    Other,
}

/// What the shell must do on the session's behalf after an event: all
/// file-store work leaves the core through one of these.
#[derive(Debug)]
pub enum ShellRequest {
    Nothing,
    /// Write the current encounter and log under this name, then call
    /// `finish_save_encounter`.
    SaveEncounter(String),
    /// Read this saved encounter, then call `complete_load_encounter`.
    LoadEncounter(String),
    /// Read this library blueprint, then call `confirm_load_library`.
    LoadLibrary(String),
    /// Store this blueprint under this name, then call
    /// `finish_save_library`.
    SaveLibrary(String, EncounterTemplate),
    /// Persist the session's template list.
    SaveTemplates,
}

/// Moving up from the first entry wraps to the last.
fn nav_up(selected: usize, len: usize) -> (r: usize)
    ensures
        r == if selected > 0 {
            selected - 1
        } else if len > 0 {
            len - 1
        } else {
            0int
        },
{
    if selected > 0 {
        selected - 1
    } else if len > 0 {
        len - 1
    } else {
        0
    }
}

/// Moving down from the last entry wraps to the first.
fn nav_down(selected: usize, len: usize) -> (r: usize)
    ensures
        r == if len > 0 && selected < len - 1 {
            selected + 1
        } else {
            0int
        },
{
    if len > 0 && selected < len - 1 {
        selected + 1
    } else {
        0
    }
}

/// What one key does to a list-selection mode, before any mode-specific
/// confirmation work.
pub enum SelectionStep {
    Cancel,
    Confirm(usize, String),
    Keep(SelectionState),
}

/// The shared traversal rule of every list-selection mode: up and down
/// move the cursor over the live roster with wraparound, digits
/// accumulate the numeric entry, and Enter confirms — only ever on a
/// non-empty entry unless the mode takes no amount.
fn selection_step(state: SelectionState, key: Key, len: usize, allow_empty_confirm: bool) -> (r:
    SelectionStep)
    ensures
        key is Esc <==> r is Cancel,
        key is Enter && (allow_empty_confirm || state.input@.len() > 0) ==> (r matches SelectionStep::Confirm(
            i,
            inp,
        ) && i == state.selected_index && inp == state.input),
        key is Enter && !(allow_empty_confirm || state.input@.len() > 0) ==> (r matches SelectionStep::Keep(s) && s
            == state),
        key is Up ==> (r matches SelectionStep::Keep(s) && s.selected_index == (if state.selected_index > 0 {
            state.selected_index - 1
        } else if len > 0 {
            len - 1
        } else {
            0int
        }) && s.input == state.input),
        key is Down ==> (r matches SelectionStep::Keep(s) && s.selected_index == (if len > 0
            && state.selected_index < len - 1 {
            state.selected_index + 1
        } else {
            0int
        }) && s.input == state.input),
        key is Backspace ==> (r matches SelectionStep::Keep(s) && s.selected_index == state.selected_index
            && s.input@ == (if state.input@.len() > 0 {
            state.input@.drop_last()
        } else {
            state.input@
        })),
        key matches Key::Char(c) ==> (r matches SelectionStep::Keep(s) && s.selected_index == state.selected_index
            && s.input@ == (if is_digit_char(c) {
            state.input@.push(c)
        } else {
            state.input@
        })),
        key is Ctrl || key is Other ==> (r matches SelectionStep::Keep(s) && s == state),
{
    let SelectionState { selected_index, mut input } = state;
    match key {
        Key::Esc => SelectionStep::Cancel,
        Key::Up => SelectionStep::Keep(
            SelectionState { selected_index: nav_up(selected_index, len), input },
        ),
        Key::Down => SelectionStep::Keep(
            SelectionState { selected_index: nav_down(selected_index, len), input },
        ),
        Key::Enter => {
            if allow_empty_confirm || !input.as_str().is_empty() {
                SelectionStep::Confirm(selected_index, input)
            } else {
                SelectionStep::Keep(SelectionState { selected_index, input })
            }
        },
        Key::Backspace => {
            crate::text::pop_char(&mut input);
            SelectionStep::Keep(SelectionState { selected_index, input })
        },
        Key::Char(c) => {
            let u = c as u32;
            if 48 <= u && u <= 57 {
                crate::text::push_char(&mut input, c);
            }
            SelectionStep::Keep(SelectionState { selected_index, input })
        },
        _ => SelectionStep::Keep(SelectionState { selected_index, input }),
    }
}


/// The scratch state a list-selection mode keeps after a key that
/// neither cancels nor confirms: the shared traversal, digit
/// accumulation and entry editing.
pub open spec fn kept_selection(
    state: SelectionState,
    key: Key,
    len: int,
    allow_empty_confirm: bool,
    s2: SelectionState,
) -> bool {
    match key {
        Key::Up => s2.selected_index == (if state.selected_index > 0 {
            state.selected_index - 1
        } else if len > 0 {
            len - 1
        } else {
            0int
        }) && s2.input == state.input,
        Key::Down => s2.selected_index == (if len > 0 && state.selected_index < len - 1 {
            state.selected_index + 1
        } else {
            0int
        }) && s2.input == state.input,
        Key::Backspace => s2.selected_index == state.selected_index && s2.input@ == (
        if state.input@.len() > 0 {
            state.input@.drop_last()
        } else {
            state.input@
        }),
        Key::Char(c) => s2.selected_index == state.selected_index && s2.input@ == (if is_digit_char(
            c,
        ) {
            state.input@.push(c)
        } else {
            state.input@
        }),
        Key::Enter => !(allow_empty_confirm || state.input@.len() > 0) && s2 == state,
        _ => s2 == state,
    }
}

/// Whether this key confirms a list-selection entry.
pub open spec fn confirms(key: Key, state: SelectionState, allow_empty_confirm: bool) -> bool {
    key is Enter && (allow_empty_confirm || state.input@.len() > 0)
}

/// Everything one key does in the damage-entry mode.
pub open spec fn dealing_damage_step(
    pre: App,
    state: SelectionState,
    key: Key,
    post: App,
    r: ShellRequest,
) -> bool {
    &&& r is Nothing
    &&& (key is Esc ==> post == cancelled(pre))
    &&& (!(key is Esc) && !confirms(key, state, false) ==> (post.input_mode
        matches InputMode::DealingDamage(s2) && kept_selection(
        state,
        key,
        pre.encounter.combatants@.len() as int,
        false,
        s2,
    )) && only_mode_changed(pre, post))
    &&& (confirms(key, state, false) ==> {
        let idx = state.selected_index;
        if !(spec_parses_i32(state.input@) && int_literal_val(state.input@) >= 0) {
            post.input_mode is Normal && only_mode_and_message_changed(pre, post) && (post.message
                matches Some(m) && m@ == "Invalid damage value!"@)
        } else if idx < pre.encounter.combatants@.len() {
            deal_damage_outcome(pre, idx, int_literal_val(state.input@) as i32, post)
        } else {
            (post.input_mode matches InputMode::DealingDamage(s2) && s2.selected_index == idx
                && s2.input@ == state.input@) && only_mode_and_message_changed(pre, post) && (
            post.message matches Some(m) && m@ == msg_invalid_index())
        }
    })
}

/// Everything one key does in the heal-entry mode.
pub open spec fn healing_step(
    pre: App,
    state: SelectionState,
    key: Key,
    post: App,
    r: ShellRequest,
) -> bool {
    &&& r is Nothing
    &&& (key is Esc ==> post == cancelled(pre))
    &&& (!(key is Esc) && !confirms(key, state, false) ==> (post.input_mode
        matches InputMode::Healing(s2) && kept_selection(
        state,
        key,
        pre.encounter.combatants@.len() as int,
        false,
        s2,
    )) && only_mode_changed(pre, post))
    &&& (confirms(key, state, false) ==> {
        let idx = state.selected_index;
        if !(spec_parses_i32(state.input@) && int_literal_val(state.input@) >= 0) {
            post.input_mode is Normal && only_mode_and_message_changed(pre, post) && (post.message
                matches Some(m) && m@ == "Invalid heal value!"@)
        } else if idx < pre.encounter.combatants@.len() {
            heal_outcome(pre, idx, int_literal_val(state.input@) as i32, post)
        } else {
            (post.input_mode matches InputMode::Healing(s2) && s2.selected_index == idx
                && s2.input@ == state.input@) && only_mode_and_message_changed(pre, post) && (
            post.message matches Some(m) && m@ == msg_invalid_index())
        }
    })
}

/// Everything one key does in the temporary-hit-point entry mode.
pub open spec fn granting_temp_hp_step(
    pre: App,
    state: SelectionState,
    key: Key,
    post: App,
    r: ShellRequest,
) -> bool {
    &&& r is Nothing
    &&& (key is Esc ==> post == cancelled(pre))
    &&& (!(key is Esc) && !confirms(key, state, false) ==> (post.input_mode
        matches InputMode::GrantingTempHp(s2) && kept_selection(
        state,
        key,
        pre.encounter.combatants@.len() as int,
        false,
        s2,
    )) && only_mode_changed(pre, post))
    &&& (confirms(key, state, false) ==> {
        let idx = state.selected_index;
        if !spec_parses_i32(state.input@) {
            post.input_mode is Normal && only_mode_and_message_changed(pre, post) && (post.message
                matches Some(m) && m@ == "Invalid temp HP value!"@)
        } else if idx >= pre.encounter.combatants@.len() {
            (post.input_mode matches InputMode::GrantingTempHp(s2) && s2.selected_index == idx
                && s2.input@ == state.input@) && only_mode_and_message_changed(pre, post) && (
            post.message matches Some(m) && m@ == msg_invalid_index())
        } else if int_literal_val(state.input@) < 0 {
            (post.input_mode matches InputMode::GrantingTempHp(s2) && s2.selected_index == idx
                && s2.input@ == state.input@) && only_mode_and_message_changed(pre, post) && (
            post.message matches Some(m) && m@ == "Temp HP must be non-negative"@)
        } else {
            grant_temp_hp_outcome(pre, idx, int_literal_val(state.input@) as i32, post)
        }
    })
}

/// Everything one key does in the death-save entry mode.
pub open spec fn rolling_death_save_step(
    pre: App,
    state: SelectionState,
    key: Key,
    post: App,
    r: ShellRequest,
) -> bool {
    &&& r is Nothing
    &&& (key is Esc ==> post == cancelled(pre))
    &&& (!(key is Esc) && !confirms(key, state, false) ==> (post.input_mode
        matches InputMode::RollingDeathSave(s2) && kept_selection(
        state,
        key,
        pre.encounter.combatants@.len() as int,
        false,
        s2,
    )) && only_mode_changed(pre, post))
    &&& (confirms(key, state, false) ==> {
        let idx = state.selected_index;
        let back = (post.input_mode matches InputMode::RollingDeathSave(s2) && s2.selected_index
            == idx && s2.input@ == state.input@) && only_mode_and_message_changed(pre, post);
        if !spec_parses_i32(state.input@) {
            post.input_mode is Normal && only_mode_and_message_changed(pre, post) && (post.message
                matches Some(m) && m@ == "Invalid roll value!"@)
        } else if idx >= pre.encounter.combatants@.len() {
            back && (post.message matches Some(m) && m@ == msg_invalid_index())
        } else {
            let c0 = pre.encounter.combatants@[idx as int];
            if !c0.is_player {
                back && (post.message matches Some(m) && m@
                    == "Only player characters roll death saves"@)
            } else if c0.hp_current > 0 {
                back && (post.message matches Some(m) && m@ == "Combatant is not at 0 HP"@)
            } else if c0.spec_is_dead() {
                back && (post.message matches Some(m) && m@ == "Combatant is already dead"@)
            } else {
                death_save_roll_outcome(pre, idx, int_literal_val(state.input@) as i32, post)
            }
        }
    })
}

/// Everything one key does while picking who starts concentrating.
pub open spec fn concentration_target_step(
    pre: App,
    state: SelectionState,
    key: Key,
    post: App,
    r: ShellRequest,
) -> bool {
    &&& r is Nothing
    &&& (key is Esc ==> post == cancelled(pre))
    &&& (!(key is Esc) && !confirms(key, state, true) ==> (post.input_mode
        matches InputMode::ConcentrationTarget(s2) && kept_selection(
        state,
        key,
        pre.encounter.combatants@.len() as int,
        true,
        s2,
    )) && only_mode_changed(pre, post))
    &&& (confirms(key, state, true) ==> (post.input_mode
        matches InputMode::ApplyingConcentration(st) && st.combatant_index == state.selected_index
        && st.step == 0 && st.spell_name@.len() == 0 && st.con_mod@.len() == 0)
        && only_mode_changed(pre, post))
}

/// Everything one key does while picking whose concentration to clear.
pub open spec fn clearing_concentration_step(
    pre: App,
    state: SelectionState,
    key: Key,
    post: App,
    r: ShellRequest,
) -> bool {
    &&& r is Nothing
    &&& (key is Esc ==> post == cancelled(pre))
    &&& (!(key is Esc) && !confirms(key, state, true) ==> (post.input_mode
        matches InputMode::ClearingConcentration(s2) && kept_selection(
        state,
        key,
        pre.encounter.combatants@.len() as int,
        true,
        s2,
    )) && only_mode_changed(pre, post))
    &&& (confirms(key, state, true) ==> {
        let idx = state.selected_index;
        if idx < pre.encounter.combatants@.len() {
            clear_concentration_outcome(pre, idx, post)
        } else {
            (post.input_mode matches InputMode::ClearingConcentration(s2) && s2.selected_index
                == idx && s2.input@ == state.input@) && only_mode_and_message_changed(pre, post)
                && (post.message matches Some(m) && m@ == msg_invalid_index())
        }
    })
}

/// Everything one key does while picking whose status effects to clear.
pub open spec fn clearing_status_step(
    pre: App,
    state: SelectionState,
    key: Key,
    post: App,
    r: ShellRequest,
) -> bool {
    &&& r is Nothing
    &&& (key is Esc ==> post == cancelled(pre))
    &&& (!(key is Esc) && !confirms(key, state, true) ==> (post.input_mode
        matches InputMode::ClearingStatus(s2) && kept_selection(
        state,
        key,
        pre.encounter.combatants@.len() as int,
        true,
        s2,
    )) && only_mode_changed(pre, post))
    &&& (confirms(key, state, true) ==> {
        let idx = state.selected_index;
        if idx >= pre.encounter.combatants@.len() {
            post.input_mode is Normal && only_mode_and_message_changed(pre, post) && (post.message
                matches Some(m) && m@ == "Invalid combatant selection"@)
        } else {
            let c0 = pre.encounter.combatants@[idx as int];
            if c0.status_effects@.len() == 0 {
                clear_all_statuses_outcome(pre, idx, post)
            } else if c0.status_effects@.len() == 1 {
                clear_one_status_outcome(pre, idx, 0, post)
            } else {
                (post.input_mode matches InputMode::SelectingStatusToClear(st)
                    && st.combatant_index == idx && st.selected_status_index == 0)
                    && only_mode_changed(pre, post)
            }
        }
    })
}

/// Everything one key does while picking whose stat block to store.
pub open spec fn saving_template_step(
    pre: App,
    state: SelectionState,
    key: Key,
    post: App,
    r: ShellRequest,
) -> bool {
    &&& (key is Esc ==> post == cancelled(pre) && (r is Nothing))
    &&& (!(key is Esc) && !confirms(key, state, true) ==> (post.input_mode
        matches InputMode::SavingTemplate(s2) && kept_selection(
        state,
        key,
        pre.encounter.combatants@.len() as int,
        true,
        s2,
    )) && only_mode_changed(pre, post) && (r is Nothing))
    &&& (confirms(key, state, true) ==> {
        let idx = state.selected_index;
        if idx < pre.encounter.combatants@.len() {
            save_template_outcome(pre, idx, post) && (r is SaveTemplates)
        } else {
            (post.input_mode matches InputMode::SavingTemplate(s2) && s2.selected_index == idx
                && s2.input@ == state.input@) && only_mode_and_message_changed(pre, post) && (
            post.message matches Some(m) && m@ == msg_invalid_index()) && (r is Nothing)
        }
    })
}


/// Everything one key does while picking who gains a status effect.
pub open spec fn adding_status_step(
    pre: App,
    state: SelectionState,
    key: Key,
    post: App,
    r: ShellRequest,
) -> bool {
    &&& r is Nothing
    &&& (key is Esc ==> post == cancelled(pre))
    &&& (key is Up ==> (post.input_mode matches InputMode::AddingStatus(s2) && s2.selected_index
        == (if state.selected_index > 0 {
        state.selected_index - 1
    } else if pre.encounter.combatants@.len() > 0 {
        pre.encounter.combatants@.len() - 1
    } else {
        0int
    }) && s2.input@.len() == 0) && only_mode_changed(pre, post))
    &&& (key is Down ==> (post.input_mode matches InputMode::AddingStatus(s2) && s2.selected_index
        == (if pre.encounter.combatants@.len() > 0 && state.selected_index
        < pre.encounter.combatants@.len() - 1 {
        state.selected_index + 1
    } else {
        0int
    }) && s2.input@.len() == 0) && only_mode_changed(pre, post))
    &&& (key is Enter ==> (post.input_mode matches InputMode::SelectingCondition(cs)
        && cs.combatant_index == state.selected_index && cs.input@.len() == 0)
        && only_mode_changed(pre, post))
    &&& (!(key is Esc) && !(key is Up) && !(key is Down) && !(key is Enter) ==> (post.input_mode
        matches InputMode::AddingStatus(s2) && s2 == state) && only_mode_changed(pre, post))
}

/// Everything one key does in the condition-and-duration entry.
pub open spec fn selecting_condition_step(
    pre: App,
    state: ConditionSelectionState,
    key: Key,
    post: App,
    r: ShellRequest,
) -> bool {
    &&& r is Nothing
    &&& (key is Esc ==> post == cancelled(pre))
    &&& (key is Backspace ==> (post.input_mode matches InputMode::SelectingCondition(s2)
        && s2.combatant_index == state.combatant_index && s2.input@ == (
    if state.input@.len() > 0 {
        state.input@.drop_last()
    } else {
        state.input@
    })) && only_mode_changed(pre, post))
    &&& (key matches Key::Char(c) ==> (post.input_mode matches InputMode::SelectingCondition(s2)
        && s2.combatant_index == state.combatant_index && s2.input@ == (if is_digit_char(c) || (c
        == ' ' && !seq_contains(state.input@, " "@)) {
        state.input@.push(c)
    } else {
        state.input@
    })) && only_mode_changed(pre, post))
    &&& (key is Enter ==> {
        let toks = spec_tokens(state.input@);
        let back = (post.input_mode matches InputMode::SelectingCondition(s2) && s2 == state)
            && only_mode_and_message_changed(pre, post);
        if toks.len() != 2 {
            back && (post.message matches Some(m) && m@
                == "Enter condition number and duration (e.g., 1 3)"@)
        } else if !(spec_parses_i32(toks[0]) && 1 <= int_literal_val(toks[0])
            && int_literal_val(toks[0]) <= 14) {
            back && (post.message matches Some(m) && m@ == "Invalid condition number"@)
        } else if !(spec_parses_i32(toks[1]) && int_literal_val(toks[1]) >= 0) {
            back && (post.message matches Some(m) && m@
                == "Duration must be a non-negative number"@)
        } else {
            let cond = ConditionType::spec_all()[int_literal_val(toks[0]) - 1];
            if state.combatant_index < pre.encounter.combatants@.len() {
                add_status_outcome(
                    pre,
                    state.combatant_index,
                    cond,
                    int_literal_val(toks[1]) as i32,
                    post,
                )
            } else {
                post.input_mode is Normal && only_mode_and_message_changed(pre, post) && (
                post.message matches Some(m) && m@ == msg_invalid_index())
            }
        }
    })
    &&& (key is Up || key is Down || key is Ctrl || key is Other ==> (post.input_mode
        matches InputMode::SelectingCondition(s2) && s2 == state) && only_mode_changed(pre, post))
}

/// Everything one key does in the two-step concentration wizard.
pub open spec fn applying_concentration_step(
    pre: App,
    state: AddConcentrationState,
    key: Key,
    post: App,
    r: ShellRequest,
) -> bool {
    &&& r is Nothing
    &&& (key is Esc ==> post == cancelled(pre))
    &&& (key is Enter && state.step < 1 ==> (post.input_mode
        matches InputMode::ApplyingConcentration(s2) && s2.step == state.step + 1
        && s2.combatant_index == state.combatant_index && s2.spell_name == state.spell_name
        && s2.con_mod == state.con_mod) && only_mode_changed(pre, post))
    &&& (key is Enter && state.step >= 1 ==> {
        let fell = post.input_mode is Normal && only_mode_and_message_changed(pre, post);
        if state.combatant_index >= pre.encounter.combatants@.len() {
            fell && (post.message matches Some(m) && m@ == msg_invalid_index())
        } else if !spec_parses_i32(state.con_mod@) {
            fell && (post.message matches Some(m) && m@ == "Invalid constitution modifier"@)
        } else if all_ws(state.spell_name@) {
            fell && (post.message matches Some(m) && m@ == "Spell name cannot be empty"@)
        } else {
            apply_concentration_outcome(pre, state, post)
        }
    })
    &&& (key is Backspace ==> (post.input_mode matches InputMode::ApplyingConcentration(s2)
        && s2.step == state.step && s2.combatant_index == state.combatant_index && (state.step == 0
        ==> s2.spell_name@ == (if state.spell_name@.len() > 0 {
        state.spell_name@.drop_last()
    } else {
        state.spell_name@
    }) && s2.con_mod == state.con_mod) && (state.step == 1 ==> s2.con_mod@ == (
    if state.con_mod@.len() > 0 {
        state.con_mod@.drop_last()
    } else {
        state.con_mod@
    }) && s2.spell_name == state.spell_name)) && only_mode_changed(pre, post))
    &&& (key matches Key::Char(c) ==> (post.input_mode matches InputMode::ApplyingConcentration(s2)
        && s2.step == state.step && s2.combatant_index == state.combatant_index && (state.step == 0
        ==> s2.spell_name@ == state.spell_name@.push(c) && s2.con_mod == state.con_mod) && (
    state.step == 1 ==> s2.con_mod@ == (if is_digit_char(c) || c == '-' {
        state.con_mod@.push(c)
    } else {
        state.con_mod@
    }) && s2.spell_name == state.spell_name)) && only_mode_changed(pre, post))
    &&& (key is Up || key is Down || key is Ctrl || key is Other ==> (post.input_mode
        matches InputMode::ApplyingConcentration(s2) && s2 == state) && only_mode_changed(
        pre,
        post,
    ))
}

/// Everything one key does while a concentration check is pending.
pub open spec fn concentration_check_step(
    pre: App,
    state: ConcentrationCheckState,
    key: Key,
    post: App,
    r: ShellRequest,
) -> bool {
    &&& r is Nothing
    &&& (key is Esc ==> post == cancelled(pre))
    &&& (key is Backspace ==> (post.input_mode matches InputMode::ConcentrationCheck(s2)
        && s2.combatant_index == state.combatant_index && s2.dc == state.dc && s2.input@ == (
    if state.input@.len() > 0 {
        state.input@.drop_last()
    } else {
        state.input@
    })) && only_mode_changed(pre, post))
    &&& (key matches Key::Char(c) ==> (post.input_mode matches InputMode::ConcentrationCheck(s2)
        && s2.combatant_index == state.combatant_index && s2.dc == state.dc && s2.input@ == (
    if is_digit_char(c) {
        state.input@.push(c)
    } else {
        state.input@
    })) && only_mode_changed(pre, post))
    &&& (key is Enter ==> {
        let fell = post.input_mode is Normal && only_mode_and_message_changed(pre, post);
        if !spec_parses_i32(state.input@) {
            fell && (post.message matches Some(m) && m@ == "Invalid roll total"@)
        } else if state.combatant_index >= pre.encounter.combatants@.len() {
            fell && (post.message matches Some(m) && m@ == msg_invalid_index())
        } else if pre.encounter.combatants@[state.combatant_index as int].concentration is None {
            fell && (post.message matches Some(m) && m@ == "Combatant is not concentrating"@)
        } else {
            concentration_check_outcome(pre, state, int_literal_val(state.input@) as i32, post)
        }
    })
    &&& (key is Up || key is Down || key is Ctrl || key is Other ==> (post.input_mode
        matches InputMode::ConcentrationCheck(s2) && s2 == state) && only_mode_changed(pre, post))
}

/// Everything one key does in the clear-what choice.
pub open spec fn clear_choice_step(
    pre: App,
    choice: ClearAction,
    key: Key,
    post: App,
    r: ShellRequest,
) -> bool {
    &&& r is Nothing
    &&& (key is Esc ==> post == cancelled(pre))
    &&& (key is Up || key is Down ==> post == (App {
        input_mode: InputMode::ClearActionSelection(
            match choice {
                ClearAction::Concentration => ClearAction::StatusEffects,
                ClearAction::StatusEffects => ClearAction::Concentration,
            },
        ),
        ..pre
    }))
    &&& (key is Enter ==> (post.input_mode == (match choice {
        ClearAction::Concentration => InputMode::ClearingConcentration(
            SelectionState { selected_index: 0, input: post_choice_entry(post, choice) },
        ),
        ClearAction::StatusEffects => InputMode::ClearingStatus(
            SelectionState { selected_index: 0, input: post_choice_entry(post, choice) },
        ),
    })) && (match post.input_mode {
        InputMode::ClearingConcentration(s2) => s2.is_blank(),
        InputMode::ClearingStatus(s2) => s2.is_blank(),
        _ => false,
    }) && only_mode_changed(pre, post))
    &&& (key is Backspace || key is Enter || key matches Key::Char(_) || key is Ctrl
        || key is Other ==> (key is Enter || post == (App {
        input_mode: InputMode::ClearActionSelection(choice),
        ..pre
    })))
}

/// The entry string the cleared-choice mode carries, for stating the
/// Enter transition without constructing a string value.
pub open spec fn post_choice_entry(post: App, choice: ClearAction) -> String {
    match post.input_mode {
        InputMode::ClearingConcentration(s2) => s2.input,
        InputMode::ClearingStatus(s2) => s2.input,
        _ => arbitrary(),
    }
}

/// Everything one key does while picking which status effect to clear.
pub open spec fn status_clear_selection_step(
    pre: App,
    state: StatusSelectionState,
    key: Key,
    post: App,
    r: ShellRequest,
) -> bool {
    let ci = state.combatant_index;
    let count: int = if ci < pre.encounter.combatants@.len() {
        pre.encounter.combatants@[ci as int].status_effects@.len() as int
    } else {
        0
    };
    &&& r is Nothing
    &&& (key is Esc ==> post == cancelled(pre))
    &&& (key is Up ==> (post.input_mode matches InputMode::SelectingStatusToClear(s2)
        && s2.combatant_index == ci && s2.selected_status_index == (
    if state.selected_status_index > 0 {
        state.selected_status_index - 1
    } else if count > 0 {
        count - 1
    } else {
        0int
    })) && only_mode_changed(pre, post))
    &&& (key is Down ==> (post.input_mode matches InputMode::SelectingStatusToClear(s2)
        && s2.combatant_index == ci && s2.selected_status_index == (if count > 0
        && state.selected_status_index < count - 1 {
        state.selected_status_index + 1
    } else {
        0int
    })) && only_mode_changed(pre, post))
    &&& (key is Enter ==> {
        let back = (post.input_mode matches InputMode::SelectingStatusToClear(s2) && s2 == state)
            && only_mode_and_message_changed(pre, post);
        if ci >= pre.encounter.combatants@.len() {
            back && (post.message matches Some(m) && m@ == msg_invalid_index())
        } else if state.selected_status_index
            >= pre.encounter.combatants@[ci as int].status_effects@.len() {
            back && (post.message matches Some(m) && m@ == "Invalid status selection"@)
        } else {
            clear_one_status_outcome(pre, ci, state.selected_status_index, post)
        }
    })
    &&& (key is Backspace || key matches Key::Char(_) || key is Ctrl || key is Other ==> (
    post.input_mode matches InputMode::SelectingStatusToClear(s2) && s2 == state)
        && only_mode_changed(pre, post))
}

/// Everything one key does while picking whom to remove.
pub open spec fn removing_step(
    pre: App,
    state: SelectionState,
    key: Key,
    post: App,
    r: ShellRequest,
) -> bool {
    &&& r is Nothing
    &&& (key is Esc ==> post == cancelled(pre))
    &&& (key is Up ==> (post.input_mode matches InputMode::Removing(s2) && s2.selected_index == (
    if state.selected_index > 0 {
        state.selected_index - 1
    } else if pre.encounter.combatants@.len() > 0 {
        pre.encounter.combatants@.len() - 1
    } else {
        0int
    }) && s2.input@.len() == 0) && only_mode_changed(pre, post))
    &&& (key is Down ==> (post.input_mode matches InputMode::Removing(s2) && s2.selected_index == (
    if pre.encounter.combatants@.len() > 0 && state.selected_index
        < pre.encounter.combatants@.len() - 1 {
        state.selected_index + 1
    } else {
        0int
    }) && s2.input@.len() == 0) && only_mode_changed(pre, post))
    &&& (key is Enter ==> {
        if state.selected_index < pre.encounter.combatants@.len() {
            remove_outcome(pre, state.selected_index, post)
        } else {
            (post.input_mode matches InputMode::Removing(s2) && s2 == state)
                && only_mode_and_message_changed(pre, post) && (post.message matches Some(m) && m@
                == msg_invalid_index())
        }
    })
    &&& (key is Backspace || key matches Key::Char(_) || key is Ctrl || key is Other ==> (
    post.input_mode matches InputMode::Removing(s2) && s2 == state) && only_mode_changed(
        pre,
        post,
    ))
}

/// Everything one key does in the action menu: wraparound traversal over
/// its seven entries, and Enter starting the chosen interaction.
pub open spec fn action_menu_step(
    pre: App,
    selected: usize,
    key: Key,
    post: App,
    r: ShellRequest,
) -> bool {
    &&& r is Nothing
    &&& (key is Esc ==> post == cancelled(pre))
    &&& (key is Up ==> post == (App {
        input_mode: InputMode::ActionMenu(if selected > 0 {
            (selected - 1) as usize
        } else {
            6
        }),
        ..pre
    }))
    &&& (key is Down ==> post == (App {
        input_mode: InputMode::ActionMenu(if selected < 6 {
            (selected + 1) as usize
        } else {
            0
        }),
        ..pre
    }))
    &&& (key is Enter ==> (if selected == 0 {
        start_dealing_damage_outcome(pre, post)
    } else if selected == 1 {
        start_healing_outcome(pre, post)
    } else if selected == 2 {
        start_adding_status_outcome(pre, post)
    } else if selected == 3 {
        start_rolling_death_save_outcome(pre, post)
    } else if selected == 4 {
        start_concentration_target_outcome(pre, post)
    } else if selected == 5 {
        start_clear_choice_outcome(pre, post)
    } else if selected == 6 {
        start_granting_temp_hp_outcome(pre, post)
    } else {
        post == (App { input_mode: InputMode::ActionMenu(selected), ..pre })
    }))
    &&& (key is Backspace || key matches Key::Char(_) || key is Ctrl || key is Other ==> post == (
    App { input_mode: InputMode::ActionMenu(selected), ..pre }))
}

/// Everything one key does in the combatant menu: wraparound traversal
/// over its six entries, and Enter starting the chosen interaction.
pub open spec fn combatant_menu_step(
    pre: App,
    selected: usize,
    key: Key,
    post: App,
    r: ShellRequest,
) -> bool {
    &&& r is Nothing
    &&& (key is Esc ==> post == cancelled(pre))
    &&& (key is Up ==> post == (App {
        input_mode: InputMode::CombatantMenu(if selected > 0 {
            (selected - 1) as usize
        } else {
            5
        }),
        ..pre
    }))
    &&& (key is Down ==> post == (App {
        input_mode: InputMode::CombatantMenu(if selected < 5 {
            (selected + 1) as usize
        } else {
            0
        }),
        ..pre
    }))
    &&& (key is Enter ==> (if selected == 0 {
        start_adding_combatant_outcome(pre, post)
    } else if selected == 1 {
        start_removing_outcome(pre, post)
    } else if selected == 2 {
        start_selecting_template_outcome(pre, post)
    } else if selected == 3 {
        start_saving_template_outcome(pre, post)
    } else if selected == 4 {
        start_loading_library_outcome(pre, post)
    } else if selected == 5 {
        start_saving_library_outcome(pre, post)
    } else {
        post == (App { input_mode: InputMode::CombatantMenu(selected), ..pre })
    }))
    &&& (key is Backspace || key matches Key::Char(_) || key is Ctrl || key is Other ==> post == (
    App { input_mode: InputMode::CombatantMenu(selected), ..pre }))
}

/// Everything one key does in the scrollable condition reference.
pub open spec fn quick_reference_step(
    pre: App,
    selected: usize,
    key: Key,
    post: App,
    r: ShellRequest,
) -> bool {
    &&& r is Nothing
    &&& (key is Esc ==> post == cancelled(pre))
    &&& (key matches Key::Char(c) ==> (if c == 'q' {
        post == cancelled(pre)
    } else {
        post == (App { input_mode: InputMode::QuickReference(selected), ..pre })
    }))
    &&& (key is Up ==> post == (App {
        input_mode: InputMode::QuickReference(if selected > 0 {
            (selected - 1) as usize
        } else {
            13
        }),
        ..pre
    }))
    &&& (key is Down ==> post == (App {
        input_mode: InputMode::QuickReference(if selected < 13 {
            (selected + 1) as usize
        } else {
            0
        }),
        ..pre
    }))
    &&& (key is Enter || key is Backspace || key is Ctrl || key is Other ==> post == (App {
        input_mode: InputMode::QuickReference(selected),
        ..pre
    }))
}


/// Everything one key does in the add-combatant wizard.
pub open spec fn adding_combatant_step(
    pre: App,
    state: AddCombatantState,
    key: Key,
    post: App,
    r: ShellRequest,
) -> bool {
    &&& r is Nothing
    &&& (key is Esc ==> post == cancelled(pre))
    &&& (key is Enter && state.step < 4 ==> (post.input_mode
        matches InputMode::AddingCombatant(s2) && s2.step == state.step + 1 && s2.name
        == state.name && s2.initiative == state.initiative && s2.hp == state.hp && s2.ac == state.ac
        && s2.is_player == state.is_player) && only_mode_changed(pre, post))
    &&& (key is Enter && state.step >= 4 ==> {
        let fell = post.input_mode is Normal && only_mode_and_message_changed(pre, post);
        if !spec_parses_i32(state.initiative@) {
            fell && (post.message matches Some(m) && m@ == "Invalid initiative value"@)
        } else if !(spec_parses_i32(state.hp@) && int_literal_val(state.hp@) >= 0) {
            fell && (post.message matches Some(m) && m@ == "Invalid HP value"@)
        } else if !spec_parses_i32(state.ac@) {
            fell && (post.message matches Some(m) && m@ == "Invalid AC value"@)
        } else if state.name@.len() == 0 {
            fell && (post.message matches Some(m) && m@ == "Name cannot be empty"@)
        } else {
            add_combatant_outcome(pre, state, post)
        }
    })
    &&& (key matches Key::Char(c) ==> (state.step <= 4 ==> (post.input_mode
        matches InputMode::AddingCombatant(s2) && s2.step == state.step && wizard_field(
        s2,
        state.step as int,
    ) == (if !wizard_accepts(state.step as int, c) {
        wizard_field(state, state.step as int)
    } else if state.step == 4 {
        Seq::empty().push(c)
    } else {
        wizard_field(state, state.step as int).push(c)
    }) && only_mode_changed(pre, post))))
    &&& (key is Backspace && state.step <= 4 ==> (post.input_mode
        matches InputMode::AddingCombatant(s2) && s2.step == state.step && wizard_field(
        s2,
        state.step as int,
    ) == (if wizard_field(state, state.step as int).len() > 0 {
        wizard_field(state, state.step as int).drop_last()
    } else {
        wizard_field(state, state.step as int)
    }) && only_mode_changed(pre, post)))
    &&& (key is Up || key is Down || key is Ctrl || key is Other ==> (post.input_mode
        matches InputMode::AddingCombatant(s2) && s2 == state) && only_mode_changed(pre, post))
}

/// Everything one key does while typing a save-file name.
pub open spec fn saving_encounter_step(
    pre: App,
    state: SaveEncounterState,
    key: Key,
    post: App,
    r: ShellRequest,
) -> bool {
    &&& (key is Esc ==> post == cancelled(pre) && (r is Nothing))
    &&& (key is Enter ==> {
        let back = (post.input_mode matches InputMode::SavingEncounter(s2) && s2.input@
            == state.input@) && only_mode_and_message_changed(pre, post);
        if all_ws(state.input@) {
            back && (post.message matches Some(m) && m@ == "Filename cannot be empty"@) && (
            r is Nothing)
        } else if !all_name_chars(state.input@) {
            back && (post.message matches Some(m) && m@
                == "Filename can only contain letters, numbers, underscore, and hyphen"@) && (
            r is Nothing)
        } else {
            (post.input_mode matches InputMode::SavingEncounter(s2) && s2.input@ == state.input@)
                && only_mode_changed(pre, post) && (r matches ShellRequest::SaveEncounter(f) && f@
                == state.input@)
        }
    })
    &&& (key is Backspace ==> (post.input_mode matches InputMode::SavingEncounter(s2) && s2.input@
        == (if state.input@.len() > 0 {
        state.input@.drop_last()
    } else {
        state.input@
    })) && only_mode_changed(pre, post) && (r is Nothing))
    &&& (key matches Key::Char(c) ==> (post.input_mode matches InputMode::SavingEncounter(s2)
        && s2.input@ == (if is_name_char(c) {
        state.input@.push(c)
    } else {
        state.input@
    })) && only_mode_changed(pre, post) && (r is Nothing))
    &&& (key is Up || key is Down || key is Ctrl || key is Other ==> (post.input_mode
        matches InputMode::SavingEncounter(s2) && s2.input == state.input) && only_mode_changed(
        pre,
        post,
    ) && (r is Nothing))
}

/// Everything one key does in the save-to-library wizard.
pub open spec fn saving_library_step(
    pre: App,
    state: SaveLibraryState,
    key: Key,
    post: App,
    r: ShellRequest,
) -> bool {
    &&& (key is Esc ==> post == cancelled(pre) && (r is Nothing))
    &&& (key is Enter && state.step == 0 ==> (if state.name@.len() == 0 {
        (post.input_mode matches InputMode::SavingLibrary(s2) && s2 == state)
            && only_mode_and_message_changed(pre, post) && (post.message matches Some(m) && m@
            == "Name cannot be empty"@)
    } else {
        (post.input_mode matches InputMode::SavingLibrary(s2) && s2.step == 1 && s2.name
            == state.name && s2.description == state.description && s2.difficulty
            == state.difficulty) && only_mode_changed(pre, post)
    }) && (r is Nothing))
    &&& (key is Enter && state.step == 1 ==> (if state.description@.len() == 0 {
        (post.input_mode matches InputMode::SavingLibrary(s2) && s2 == state)
            && only_mode_and_message_changed(pre, post) && (post.message matches Some(m) && m@
            == "Description cannot be empty"@)
    } else {
        (post.input_mode matches InputMode::SavingLibrary(s2) && s2.step == 2 && s2.name
            == state.name && s2.description == state.description && s2.difficulty
            == state.difficulty) && only_mode_changed(pre, post)
    }) && (r is Nothing))
    &&& (key is Enter && state.step >= 2 ==> {
        let back = (post.input_mode matches InputMode::SavingLibrary(s2) && s2.step == state.step
            && s2.name@ == state.name@ && s2.description@ == state.description@ && s2.difficulty@
            == state.difficulty@) && only_mode_and_message_changed(pre, post);
        if all_ws(state.name@) {
            back && (post.message matches Some(m) && m@ == "Name cannot be empty"@) && (
            r is Nothing)
        } else if !all_name_chars(state.name@) {
            back && (post.message matches Some(m) && m@
                == "Name can only contain letters, numbers, underscore, and hyphen"@) && (
            r is Nothing)
        } else if all_ws(state.description@) {
            back && (post.message matches Some(m) && m@ == "Description cannot be empty"@) && (
            r is Nothing)
        } else if spec_library_has(pre.library_files@, spec_trimmed(state.name@)) {
            (post.input_mode matches InputMode::ConfirmingLibraryOverwrite(st) && st.step
                == state.step && st.name@ == spec_trimmed(state.name@) && st.description@
                == spec_trimmed(state.description@) && st.difficulty@ == spec_trimmed(
                state.difficulty@,
            )) && only_mode_and_message_changed(pre, post) && (post.message matches Some(m) && m@
                == msg_library_exists(spec_trimmed(state.name@))) && (r is Nothing)
        } else {
            post == pre && (r matches ShellRequest::SaveLibrary(name, t) && name@ == spec_trimmed(
                state.name@,
            ) && library_blueprint_built(pre, state, t))
        }
    })
    &&& (key is Backspace ==> (post.input_mode matches InputMode::SavingLibrary(s2) && s2.step
        == state.step && library_field(s2, state.step as int) == (if state.step <= 2
        && library_field(state, state.step as int).len() > 0 {
        library_field(state, state.step as int).drop_last()
    } else {
        library_field(state, state.step as int)
    })) && only_mode_changed(pre, post) && (r is Nothing))
    &&& (key matches Key::Char(c) ==> ((post.input_mode matches InputMode::SavingLibrary(s2)
        && s2.step == state.step && library_field(s2, state.step as int) == (
    if state.step == 0 && !is_name_char(c) {
        library_field(state, state.step as int)
    } else if state.step <= 2 {
        library_field(state, state.step as int).push(c)
    } else {
        library_field(state, state.step as int)
    })) && only_mode_changed(pre, post) && (r is Nothing)))
    &&& (key is Up || key is Down || key is Ctrl || key is Other ==> (post.input_mode
        matches InputMode::SavingLibrary(s2) && s2 == state) && only_mode_changed(pre, post) && (
    r is Nothing))
}

/// The field of the save-to-library wizard the given step edits.
pub open spec fn library_field(s: SaveLibraryState, step: int) -> Seq<char> {
    if step == 0 {
        s.name@
    } else if step == 1 {
        s.description@
    } else {
        s.difficulty@
    }
}

/// Everything one key does while walking the blueprint initiatives.
pub open spec fn setting_initiatives_step(
    pre: App,
    state: LoadLibraryState,
    key: Key,
    post: App,
    r: ShellRequest,
) -> bool {
    &&& r is Nothing
    &&& (state.current_index >= state.combatants_with_init@.len() ==> post == cancelled(pre))
    &&& (state.current_index < state.combatants_with_init@.len() ==> {
        let idx = state.current_index;
        let entry = state.combatants_with_init@[idx as int].1@;
        &&& (key is Esc ==> post == cancelled(pre))
        &&& (key is Enter ==> (if !spec_parses_i32(entry) {
            (post.input_mode matches InputMode::SettingLibraryInitiatives(s2) && s2 == state)
                && only_mode_and_message_changed(pre, post) && (post.message matches Some(m) && m@
                == "Invalid initiative value"@)
        } else if idx + 1 < state.combatants_with_init@.len() {
            initiative_recorded(pre, state, entry, post)
        } else {
            library_committed(pre, state, entry, post)
        }))
        &&& (key is Backspace ==> (post.input_mode
            matches InputMode::SettingLibraryInitiatives(s2) && s2.template == state.template
            && s2.current_index == idx && s2.combatants_with_init@.len()
            == state.combatants_with_init@.len() && (forall|j: int|
            0 <= j < s2.combatants_with_init@.len() && j != idx
                ==> #[trigger] s2.combatants_with_init@[j] == state.combatants_with_init@[j])
            && s2.combatants_with_init@[idx as int].0 == state.combatants_with_init@[idx as int].0
            && s2.combatants_with_init@[idx as int].1@ == (if entry.len() > 0 {
            entry.drop_last()
        } else {
            entry
        })) && only_mode_changed(pre, post))
        &&& (key matches Key::Char(c) ==> (post.input_mode
            matches InputMode::SettingLibraryInitiatives(s2) && s2.template == state.template
            && s2.current_index == idx && s2.combatants_with_init@.len()
            == state.combatants_with_init@.len() && (forall|j: int|
            0 <= j < s2.combatants_with_init@.len() && j != idx
                ==> #[trigger] s2.combatants_with_init@[j] == state.combatants_with_init@[j])
            && s2.combatants_with_init@[idx as int].0 == state.combatants_with_init@[idx as int].0
            && s2.combatants_with_init@[idx as int].1@ == (if is_digit_char(c) || (c == '-'
            && entry.len() == 0) {
            entry.push(c)
        } else {
            entry
        })) && only_mode_changed(pre, post))
        &&& (key is Up || key is Down || key is Ctrl || key is Other ==> (post.input_mode
            matches InputMode::SettingLibraryInitiatives(s2) && s2 == state) && only_mode_changed(
            pre,
            post,
        ))
    })
}

/// Everything one key does at the overwrite confirmation.
pub open spec fn confirming_overwrite_step(
    pre: App,
    state: SaveLibraryState,
    key: Key,
    post: App,
    r: ShellRequest,
) -> bool {
    &&& (key is Esc ==> post == cancelled(pre) && (r is Nothing))
    &&& (key matches Key::Char(c) ==> (if c == 'y' || c == 'Y' {
        post == pre && (r matches ShellRequest::SaveLibrary(name, t) && name@ == state.name@
            && t.name == state.name && t.description == state.description && t.difficulty
            == state.difficulty && t.combatants@.len() == pre.encounter.combatants@.len() && (
        forall|i: int|
            0 <= i < t.combatants@.len() ==> crate::persistence::is_blueprint_of(
                #[trigger] t.combatants@[i],
                pre.encounter.combatants@[i],
            )))
    } else if c == 'n' || c == 'N' {
        post == (App { input_mode: InputMode::Normal, message: post.message, ..pre }) && (
        post.message matches Some(m) && m@ == "Save cancelled"@) && (r is Nothing)
    } else {
        (post.input_mode matches InputMode::ConfirmingLibraryOverwrite(s2) && s2 == state)
            && only_mode_changed(pre, post) && (r is Nothing)
    }))
    &&& (key is Enter || key is Backspace || key is Up || key is Down || key is Ctrl
        || key is Other ==> (post.input_mode matches InputMode::ConfirmingLibraryOverwrite(s2)
        && s2 == state) && only_mode_changed(pre, post) && (r is Nothing))
}

/// Everything one key does at the load-over-roster confirmation.
pub open spec fn confirming_load_step(
    pre: App,
    filename: String,
    key: Key,
    post: App,
    r: ShellRequest,
) -> bool {
    &&& (key is Esc ==> post == cancelled(pre) && (r is Nothing))
    &&& (key matches Key::Char(c) ==> (if c == 'y' || c == 'Y' {
        post == pre && (r matches ShellRequest::LoadLibrary(f) && f == filename)
    } else if c == 'n' || c == 'N' {
        post == (App { input_mode: InputMode::Normal, message: post.message, ..pre }) && (
        post.message matches Some(m) && m@ == "Load cancelled"@) && (r is Nothing)
    } else {
        post == (App { input_mode: InputMode::ConfirmingLibraryLoad(filename), ..pre }) && (
        r is Nothing)
    }))
    &&& (key is Enter || key is Backspace || key is Up || key is Down || key is Ctrl
        || key is Other ==> post == (App {
        input_mode: InputMode::ConfirmingLibraryLoad(filename),
        ..pre
    }) && (r is Nothing))
}

/// Everything one key does in the idle mode: each bound letter starts
/// its interaction, the control chords reach the save and load prompts,
/// and everything else changes nothing.
pub open spec fn normal_step(pre: App, key: Key, post: App, r: ShellRequest) -> bool {
    &&& r is Nothing
    &&& (key matches Key::Ctrl(c) ==> (if c == 's' || c == 'S' {
        start_saving_encounter_outcome(pre, post)
    } else if c == 'o' || c == 'O' {
        start_loading_encounter_outcome(pre, post)
    } else {
        post == pre
    }))
    &&& (key matches Key::Char(c) ==> (if c == 'q' {
        post == (App { should_quit: true, ..pre })
    } else if c == 'n' {
        post == (App { encounter: post.encounter, message: None, ..pre }) && (
        pre.encounter.combatants@.len() == 0 ==> post.encounter == pre.encounter) && (
        pre.encounter.combatants@.len() > 0 ==> next_turn_outcome(pre.encounter, post.encounter))
    } else if c == 'a' {
        start_adding_combatant_outcome(pre, post)
    } else if c == 'd' {
        start_dealing_damage_outcome(pre, post)
    } else if c == 'h' {
        start_healing_outcome(pre, post)
    } else if c == 's' {
        start_adding_status_outcome(pre, post)
    } else if c == 'v' {
        start_rolling_death_save_outcome(pre, post)
    } else if c == 'c' {
        start_concentration_target_outcome(pre, post)
    } else if c == 'x' {
        start_clear_choice_outcome(pre, post)
    } else if c == 'm' {
        open_action_menu_outcome(pre, post)
    } else if c == 'b' {
        open_combatant_menu_outcome(pre, post)
    } else if c == '?' {
        post == (App { input_mode: InputMode::QuickReference(0), ..pre })
    } else {
        post == pre
    }))
    &&& (key is Esc || key is Enter || key is Backspace || key is Up || key is Down
        || key is Other ==> post == pre)
}

/// Whether a stored name matches the search entry, compared
/// case-insensitively on substrings.
pub open spec fn name_matches(name: Seq<char>, query: Seq<char>) -> bool {
    seq_contains(lower_of(name), lower_of(query))
}

/// The indices of the stored names that match the search entry.
pub open spec fn matching_names(files: Seq<String>, query: Seq<char>) -> Seq<int>
    decreases files.len(),
{
    if files.len() == 0 {
        Seq::empty()
    } else {
        let rest = matching_names(files.drop_last(), query);
        if name_matches(files.last()@, query) {
            rest.push(files.len() - 1)
        } else {
            rest
        }
    }
}

/// The indices of the stored templates whose names match the search
/// entry.
pub open spec fn matching_templates(
    templates: Seq<crate::combatant_template::CombatantTemplate>,
    query: Seq<char>,
) -> Seq<int>
    decreases templates.len(),
{
    if templates.len() == 0 {
        Seq::empty()
    } else {
        let rest = matching_templates(templates.drop_last(), query);
        if name_matches(templates.last().name@, query) {
            rest.push(templates.len() - 1)
        } else {
            rest
        }
    }
}

/// Lists the indices of the names that match the search entry.
fn filter_names(files: &Vec<String>, query: &str) -> (r: Vec<usize>)
    ensures
        r@.map_values(|u: usize| u as int) == matching_names(files@, query@),
        forall|k: int| 0 <= k < r@.len() ==> (#[trigger] r@[k]) < files@.len(),
{
    let q = lowercase(query);
    let n = files.len();
    let mut r: Vec<usize> = Vec::new();
    let mut i: usize = 0;
    while i < n
        invariant
            0 <= i <= n,
            n == files@.len(),
            q@ == lower_of(query@),
            r@.map_values(|u: usize| u as int) =~= matching_names(files@.take(i as int), query@),
            forall|k: int| 0 <= k < r@.len() ==> (#[trigger] r@[k]) < i,
        decreases n - i,
    {
        let low = lowercase(files[i].as_str());
        let ghost prev = r@;
        if str_contains(low.as_str(), q.as_str()) {
            r.push(i);
        }
        proof {
            assert(files@.take(i + 1).drop_last() =~= files@.take(i as int));
            assert(files@.take(i + 1).last() == files@[i as int]);
            assert(r@.map_values(|u: usize| u as int) =~= matching_names(
                files@.take(i + 1),
                query@,
            ));
        }
        i += 1;
    }
    proof {
        assert(files@.take(n as int) =~= files@);
    }
    r
}


/// Everything one key does while browsing the saved encounters.
pub open spec fn loading_encounter_step(
    pre: App,
    state: SelectionState,
    key: Key,
    post: App,
    r: ShellRequest,
) -> bool {
    let m = matching_names(pre.saved_encounter_files@, state.input@);
    &&& (key is Esc ==> post == cancelled(pre) && (r is Nothing))
    &&& (!(key is Esc) && m.len() == 0 && state.input@.len() == 0 ==> post.input_mode is Normal
        && only_mode_and_message_changed(pre, post) && (post.message matches Some(msg) && msg@
        == "No saved encounters found. Press Ctrl+S to save current encounter."@) && (r is Nothing))
    &&& (!(m.len() == 0 && state.input@.len() == 0) ==> {
        &&& (key is Enter ==> (if state.selected_index < m.len() {
            (post.input_mode matches InputMode::LoadingEncounter(s2) && s2 == state)
                && only_mode_changed(pre, post) && (r matches ShellRequest::LoadEncounter(f) && f@
                == pre.saved_encounter_files@[m[state.selected_index as int]]@)
        } else if m.len() > 0 {
            post.input_mode is Normal && only_mode_and_message_changed(pre, post) && (post.message
                matches Some(msg) && msg@ == "No encounter selected"@) && (r is Nothing)
        } else {
            (post.input_mode matches InputMode::LoadingEncounter(s2) && s2 == state)
                && only_mode_changed(pre, post) && (r is Nothing)
        }))
        &&& (key is Up ==> (post.input_mode matches InputMode::LoadingEncounter(s2) && s2.input
            == state.input && (m.len() > 0 ==> s2.selected_index == (
        if state.selected_index > 0 {
            state.selected_index - 1
        } else {
            m.len() - 1
        })) && (m.len() == 0 ==> s2.selected_index == state.selected_index))
            && only_mode_changed(pre, post) && (r is Nothing))
        &&& (key is Down ==> (post.input_mode matches InputMode::LoadingEncounter(s2) && s2.input
            == state.input && (m.len() > 0 ==> s2.selected_index == (if state.selected_index < m.len()
            - 1 {
            state.selected_index + 1
        } else {
            0int
        })) && (m.len() == 0 ==> s2.selected_index == state.selected_index))
            && only_mode_changed(pre, post) && (r is Nothing))
        &&& (key is Backspace ==> (post.input_mode matches InputMode::LoadingEncounter(s2)
            && s2.selected_index == 0 && s2.input@ == (if state.input@.len() > 0 {
            state.input@.drop_last()
        } else {
            state.input@
        })) && only_mode_changed(pre, post) && (r is Nothing))
        &&& (key matches Key::Char(c) ==> (post.input_mode matches InputMode::LoadingEncounter(s2)
            && s2.selected_index == 0 && s2.input@ == state.input@.push(c)) && only_mode_changed(
            pre,
            post,
        ) && (r is Nothing))
        &&& (key is Ctrl || key is Other ==> (post.input_mode
            matches InputMode::LoadingEncounter(s2) && s2 == state) && only_mode_changed(pre, post)
            && (r is Nothing))
    })
}

/// Everything one key does while browsing the library blueprints.
pub open spec fn loading_library_step(
    pre: App,
    state: SelectionState,
    key: Key,
    post: App,
    r: ShellRequest,
) -> bool {
    let m = matching_names(pre.library_files@, state.input@);
    &&& (key is Esc ==> post == cancelled(pre) && (r is Nothing))
    &&& (!(key is Esc) && m.len() == 0 && state.input@.len() == 0 ==> post.input_mode is Normal
        && only_mode_and_message_changed(pre, post) && (post.message matches Some(msg) && msg@
        == "No library templates found. Save current encounter to library first."@) && (
    r is Nothing))
    &&& (!(m.len() == 0 && state.input@.len() == 0) ==> {
        &&& (key is Enter ==> (if state.selected_index < m.len() {
            let picked = pre.library_files@[m[state.selected_index as int]];
            if pre.encounter.combatants@.len() == 0 {
                (post.input_mode matches InputMode::LoadingLibrary(s2) && s2 == state)
                    && only_mode_changed(pre, post) && (r matches ShellRequest::LoadLibrary(f) && f@
                    == picked@)
            } else {
                (post.input_mode matches InputMode::ConfirmingLibraryLoad(f2) && f2@ == picked@)
                    && only_mode_and_message_changed(pre, post) && (post.message matches Some(msg)
                    && msg@ == "This will clear the current encounter. Continue? (y/n)"@) && (
                r is Nothing)
            }
        } else if m.len() > 0 {
            post.input_mode is Normal && only_mode_and_message_changed(pre, post) && (post.message
                matches Some(msg) && msg@ == "No template selected"@) && (r is Nothing)
        } else {
            (post.input_mode matches InputMode::LoadingLibrary(s2) && s2 == state)
                && only_mode_changed(pre, post) && (r is Nothing)
        }))
        &&& (key is Up ==> (post.input_mode matches InputMode::LoadingLibrary(s2) && s2.input
            == state.input && (m.len() > 0 ==> s2.selected_index == (
        if state.selected_index > 0 {
            state.selected_index - 1
        } else {
            m.len() - 1
        })) && (m.len() == 0 ==> s2.selected_index == state.selected_index))
            && only_mode_changed(pre, post) && (r is Nothing))
        &&& (key is Down ==> (post.input_mode matches InputMode::LoadingLibrary(s2) && s2.input
            == state.input && (m.len() > 0 ==> s2.selected_index == (if state.selected_index < m.len()
            - 1 {
            state.selected_index + 1
        } else {
            0int
        })) && (m.len() == 0 ==> s2.selected_index == state.selected_index))
            && only_mode_changed(pre, post) && (r is Nothing))
        &&& (key is Backspace ==> (post.input_mode matches InputMode::LoadingLibrary(s2)
            && s2.selected_index == 0 && s2.input@ == (if state.input@.len() > 0 {
            state.input@.drop_last()
        } else {
            state.input@
        })) && only_mode_changed(pre, post) && (r is Nothing))
        &&& (key matches Key::Char(c) ==> (post.input_mode matches InputMode::LoadingLibrary(s2)
            && s2.selected_index == 0 && s2.input@ == state.input@.push(c)) && only_mode_changed(
            pre,
            post,
        ) && (r is Nothing))
        &&& (key is Ctrl || key is Other ==> (post.input_mode matches InputMode::LoadingLibrary(s2)
            && s2 == state) && only_mode_changed(pre, post) && (r is Nothing))
    })
}

/// Everything one key does while browsing the stored templates.
pub open spec fn selecting_template_step(
    pre: App,
    state: SelectionState,
    key: Key,
    post: App,
    r: ShellRequest,
) -> bool {
    let m = matching_templates(pre.templates@, state.input@);
    &&& r is Nothing
    &&& (key is Esc ==> post == cancelled(pre))
    &&& (key is Enter ==> (if state.selected_index < m.len() {
        let tpl = pre.templates@[m[state.selected_index as int]];
        (post.input_mode matches InputMode::AddingCombatant(st) && st.step == 1 && st.name@
            == tpl.name@ && st.initiative@.len() == 0) && (post.message matches Some(msg) && msg@
            == msg_template_initiative(tpl.name@))
    } else {
        post.input_mode is Normal && only_mode_and_message_changed(pre, post) && (post.message
            matches Some(msg) && msg@ == "No matching template"@)
    }))
    &&& (key is Up ==> (post.input_mode matches InputMode::SelectingTemplate(s2) && s2.input
        == state.input && (m.len() > 0 ==> s2.selected_index == (if state.selected_index > 0 {
        state.selected_index - 1
    } else {
        m.len() - 1
    })) && (m.len() == 0 ==> s2.selected_index == state.selected_index)) && only_mode_changed(
        pre,
        post,
    ))
    &&& (key is Down ==> (post.input_mode matches InputMode::SelectingTemplate(s2) && s2.input
        == state.input && (m.len() > 0 ==> s2.selected_index == (if state.selected_index < m.len()
        - 1 {
        state.selected_index + 1
    } else {
        0int
    })) && (m.len() == 0 ==> s2.selected_index == state.selected_index)) && only_mode_changed(
        pre,
        post,
    ))
    &&& (key is Backspace ==> (post.input_mode matches InputMode::SelectingTemplate(s2)
        && s2.selected_index == state.selected_index && s2.input@ == (
    if state.input@.len() > 0 {
        state.input@.drop_last()
    } else {
        state.input@
    })) && only_mode_changed(pre, post))
    &&& (key matches Key::Char(c) ==> (post.input_mode matches InputMode::SelectingTemplate(s2)
        && s2.selected_index == 0 && s2.input@ == state.input@.push(c)) && only_mode_changed(
        pre,
        post,
    ))
    &&& (key is Ctrl || key is Other ==> (post.input_mode matches InputMode::SelectingTemplate(s2)
        && s2 == state) && only_mode_changed(pre, post))
}

/// Routes one key event to the current mode's handler. From any
/// non-idle mode, an escape returns to idle and clears the transient
/// message; in the idle mode it does nothing.
#[verifier::rlimit(80)]
pub fn handle_key_event(app: &mut App, key: Key) -> (r: ShellRequest)
    requires
        old(app).wf(),
    ensures
        final(app).wf(),
        key is Esc && !(old(app).input_mode is Normal) ==> final(app).input_mode is Normal
            && final(app).message is None && (r is Nothing),
        key is Esc && old(app).input_mode is Normal ==> *final(app) == *old(app) && (r is Nothing),
        old(app).input_mode is Normal ==> normal_step(normalized(*old(app)), key, *final(app), r),
        old(app).input_mode matches InputMode::AddingCombatant(st) ==> adding_combatant_step(
            normalized(*old(app)),
            st,
            key,
            *final(app),
            r,
        ),
        old(app).input_mode matches InputMode::DealingDamage(st) ==> dealing_damage_step(
            normalized(*old(app)),
            st,
            key,
            *final(app),
            r,
        ),
        old(app).input_mode matches InputMode::Healing(st) ==> healing_step(
            normalized(*old(app)),
            st,
            key,
            *final(app),
            r,
        ),
        old(app).input_mode matches InputMode::AddingStatus(st) ==> adding_status_step(
            normalized(*old(app)),
            st,
            key,
            *final(app),
            r,
        ),
        old(app).input_mode matches InputMode::SelectingCondition(st) ==> selecting_condition_step(
            normalized(*old(app)),
            st,
            key,
            *final(app),
            r,
        ),
        old(app).input_mode matches InputMode::RollingDeathSave(st) ==> rolling_death_save_step(
            normalized(*old(app)),
            st,
            key,
            *final(app),
            r,
        ),
        old(app).input_mode matches InputMode::ConcentrationTarget(st)
            ==> concentration_target_step(normalized(*old(app)), st, key, *final(app), r),
        old(app).input_mode matches InputMode::ApplyingConcentration(st)
            ==> applying_concentration_step(normalized(*old(app)), st, key, *final(app), r),
        old(app).input_mode matches InputMode::ConcentrationCheck(st)
            ==> concentration_check_step(normalized(*old(app)), st, key, *final(app), r),
        old(app).input_mode matches InputMode::ClearingConcentration(st)
            ==> clearing_concentration_step(normalized(*old(app)), st, key, *final(app), r),
        old(app).input_mode matches InputMode::ClearActionSelection(ch) ==> clear_choice_step(
            normalized(*old(app)),
            ch,
            key,
            *final(app),
            r,
        ),
        old(app).input_mode matches InputMode::ClearingStatus(st) ==> clearing_status_step(
            normalized(*old(app)),
            st,
            key,
            *final(app),
            r,
        ),
        old(app).input_mode matches InputMode::SelectingStatusToClear(st)
            ==> status_clear_selection_step(normalized(*old(app)), st, key, *final(app), r),
        old(app).input_mode matches InputMode::SelectingTemplate(st) ==> selecting_template_step(
            normalized(*old(app)),
            st,
            key,
            *final(app),
            r,
        ),
        old(app).input_mode matches InputMode::SavingTemplate(st) ==> saving_template_step(
            normalized(*old(app)),
            st,
            key,
            *final(app),
            r,
        ),
        old(app).input_mode matches InputMode::ActionMenu(i) ==> action_menu_step(
            normalized(*old(app)),
            i,
            key,
            *final(app),
            r,
        ),
        old(app).input_mode matches InputMode::CombatantMenu(i) ==> combatant_menu_step(
            normalized(*old(app)),
            i,
            key,
            *final(app),
            r,
        ),
        old(app).input_mode matches InputMode::GrantingTempHp(st) ==> granting_temp_hp_step(
            normalized(*old(app)),
            st,
            key,
            *final(app),
            r,
        ),
        old(app).input_mode matches InputMode::QuickReference(i) ==> quick_reference_step(
            normalized(*old(app)),
            i,
            key,
            *final(app),
            r,
        ),
        old(app).input_mode matches InputMode::Removing(st) ==> removing_step(
            normalized(*old(app)),
            st,
            key,
            *final(app),
            r,
        ),
        old(app).input_mode matches InputMode::SavingEncounter(st) ==> saving_encounter_step(
            normalized(*old(app)),
            st,
            key,
            *final(app),
            r,
        ),
        old(app).input_mode matches InputMode::LoadingEncounter(st) ==> loading_encounter_step(
            normalized(*old(app)),
            st,
            key,
            *final(app),
            r,
        ),
        old(app).input_mode matches InputMode::SavingLibrary(st) ==> saving_library_step(
            normalized(*old(app)),
            st,
            key,
            *final(app),
            r,
        ),
        old(app).input_mode matches InputMode::LoadingLibrary(st) ==> loading_library_step(
            normalized(*old(app)),
            st,
            key,
            *final(app),
            r,
        ),
        old(app).input_mode matches InputMode::SettingLibraryInitiatives(st)
            ==> setting_initiatives_step(normalized(*old(app)), st, key, *final(app), r),
        old(app).input_mode matches InputMode::ConfirmingLibraryOverwrite(st)
            ==> confirming_overwrite_step(normalized(*old(app)), st, key, *final(app), r),
        old(app).input_mode matches InputMode::ConfirmingLibraryLoad(f)
            ==> confirming_load_step(normalized(*old(app)), f, key, *final(app), r),
{
    let mut mode = InputMode::Normal;
    core::mem::swap(&mut mode, &mut app.input_mode);
    proof {
        assert(*app == normalized(*old(app)));
    }
    match mode {
        InputMode::Normal => handle_normal_mode(app, key),
        InputMode::AddingCombatant(state) => handle_add_combatant_mode(app, key, state),
        InputMode::DealingDamage(state) => handle_dealing_damage_mode(app, key, state),
        InputMode::Healing(state) => handle_healing_mode(app, key, state),
        InputMode::AddingStatus(state) => handle_status_selection_mode(app, key, state),
        InputMode::SelectingCondition(state) => handle_condition_selection_mode(app, key, state),
        InputMode::RollingDeathSave(state) => handle_rolling_death_save_mode(app, key, state),
        InputMode::ConcentrationTarget(state) => handle_concentration_target_mode(app, key, state),
        InputMode::ApplyingConcentration(state) => handle_add_concentration_mode(app, key, state),
        InputMode::ConcentrationCheck(state) => handle_concentration_check_mode(app, key, state),
        InputMode::ClearingConcentration(state) => handle_clearing_concentration_mode(
            app,
            key,
            state,
        ),
        InputMode::ClearActionSelection(choice) => handle_clear_choice_mode(app, key, choice),
        InputMode::ClearingStatus(state) => handle_clearing_status_mode(app, key, state),
        InputMode::SelectingStatusToClear(state) => handle_status_clear_selection(app, key, state),
        InputMode::SelectingTemplate(state) => handle_template_selection_mode(app, key, state),
        InputMode::SavingTemplate(state) => handle_saving_template_mode(app, key, state),
        InputMode::ActionMenu(selected) => handle_action_menu_mode(app, key, selected),
        InputMode::CombatantMenu(selected) => handle_combatant_menu_mode(app, key, selected),
        InputMode::GrantingTempHp(state) => handle_granting_temp_hp_mode(app, key, state),
        InputMode::QuickReference(selected) => handle_quick_reference_mode(app, key, selected),
        InputMode::Removing(state) => handle_removing_mode(app, key, state),
        InputMode::SavingEncounter(state) => handle_save_encounter_mode(app, key, state),
        InputMode::LoadingEncounter(state) => handle_load_encounter_mode(app, key, state),
        InputMode::SavingLibrary(state) => handle_save_library_mode(app, key, state),
        InputMode::LoadingLibrary(state) => handle_loading_library_mode(app, key, state),
        InputMode::SettingLibraryInitiatives(state) => handle_setting_library_initiatives_mode(
            app,
            key,
            state,
        ),
        InputMode::ConfirmingLibraryOverwrite(state) => handle_confirm_library_overwrite(
            app,
            key,
            state,
        ),
        InputMode::ConfirmingLibraryLoad(filename) => handle_confirm_library_load(
            app,
            key,
            filename,
        ),
    }
}

/// Idle-mode key bindings: each letter starts one interaction, and the
/// control chords reach the save and load prompts.
fn handle_normal_mode(app: &mut App, key: Key) -> (r: ShellRequest)
    requires
        old(app).wf(),
        old(app).input_mode is Normal,
    ensures
        final(app).wf(),
        normal_step(*old(app), key, *final(app), r),
{
    match key {
        Key::Ctrl(c) => {
            if c == 's' || c == 'S' {
                app.start_saving_encounter();
            } else if c == 'o' || c == 'O' {
                app.start_loading_encounter();
            }
        },
        Key::Char(c) => {
            if c == 'q' {
                app.quit();
            } else if c == 'n' {
                app.encounter.next_turn();
                app.clear_message();
            } else if c == 'a' {
                app.start_adding_combatant();
            } else if c == 'd' {
                app.start_dealing_damage();
            } else if c == 'h' {
                app.start_healing();
            } else if c == 's' {
                app.start_adding_status();
            } else if c == 'v' {
                app.start_rolling_death_save();
            } else if c == 'c' {
                app.start_concentration_target();
            } else if c == 'x' {
                app.start_clear_choice();
            } else if c == 'm' {
                app.open_action_menu();
            } else if c == 'b' {
                app.open_combatant_menu();
            } else if c == '?' {
                app.input_mode = InputMode::QuickReference(0);
            }
        },
        _ => {},
    }
    ShellRequest::Nothing
}

/// The field of the wizard state the given step edits.
pub open spec fn wizard_field(s: AddCombatantState, step: int) -> Seq<char> {
    if step == 0 {
        s.name@
    } else if step == 1 {
        s.initiative@
    } else if step == 2 {
        s.hp@
    } else if step == 3 {
        s.ac@
    } else {
        s.is_player@
    }
}

/// Whether the wizard accepts a typed character into the field of the
/// given step: names take anything, the numeric fields only digits (and
/// a sign for initiative), the player flag only a y/n answer.
pub open spec fn wizard_accepts(step: int, c: char) -> bool {
    if step == 0 {
        true
    } else if step == 1 {
        is_digit_char(c) || c == '-'
    } else if step == 2 || step == 3 {
        is_digit_char(c)
    } else {
        c == 'y' || c == 'n' || c == 'Y' || c == 'N'
    }
}

/// The add-combatant wizard: Enter advances through name, initiative,
/// hit points, armor class and the player flag, with numeric fields
/// filtered at the keystroke; the last Enter hands the fields to the
/// engine.
fn handle_add_combatant_mode(app: &mut App, key: Key, state: AddCombatantState) -> (r: ShellRequest)
    requires
        old(app).wf(),
        old(app).input_mode is Normal,
    ensures
        final(app).wf(),
        adding_combatant_step(*old(app), state, key, *final(app), r),
{
    let mut state = state;
    match key {
        Key::Esc => app.cancel_input(),
        Key::Enter => {
            if state.step < 4 {
                state.step += 1;
                app.input_mode = InputMode::AddingCombatant(state);
            } else {
                match app.complete_add_combatant(state) {
                    Ok(()) => {},
                    Err(e) => {
                        app.set_message(e);
                        app.input_mode = InputMode::Normal;
                    },
                }
            }
        },
        Key::Backspace => {
            if state.step == 0 {
                crate::text::pop_char(&mut state.name);
            } else if state.step == 1 {
                crate::text::pop_char(&mut state.initiative);
            } else if state.step == 2 {
                crate::text::pop_char(&mut state.hp);
            } else if state.step == 3 {
                crate::text::pop_char(&mut state.ac);
            } else if state.step == 4 {
                crate::text::pop_char(&mut state.is_player);
            }
            app.input_mode = InputMode::AddingCombatant(state);
        },
        Key::Char(c) => {
            let u = c as u32;
            let digit = 48 <= u && u <= 57;
            if state.step == 0 {
                crate::text::push_char(&mut state.name, c);
            } else if state.step == 1 {
                if digit || c == '-' {
                    crate::text::push_char(&mut state.initiative, c);
                }
            } else if state.step == 2 {
                if digit {
                    crate::text::push_char(&mut state.hp, c);
                }
            } else if state.step == 3 {
                if digit {
                    crate::text::push_char(&mut state.ac, c);
                }
            } else if state.step == 4 {
                if c == 'y' || c == 'n' || c == 'Y' || c == 'N' {
                    state.is_player = String::new();
                    crate::text::push_char(&mut state.is_player, c);
                }
            }
            app.input_mode = InputMode::AddingCombatant(state);
        },
        _ => {
            app.input_mode = InputMode::AddingCombatant(state);
        },
    }
    ShellRequest::Nothing
}

/// Damage entry: the shared traversal, then a parsed amount into the
/// engine.
fn handle_dealing_damage_mode(app: &mut App, key: Key, state: SelectionState) -> (r: ShellRequest)
    requires
        old(app).wf(),
        old(app).input_mode is Normal,
    ensures
        final(app).wf(),
        dealing_damage_step(*old(app), state, key, *final(app), r),
{
    let len = app.encounter.combatants.len();
    match selection_step(state, key, len, false) {
        SelectionStep::Cancel => app.cancel_input(),
        SelectionStep::Keep(s) => {
            app.input_mode = InputMode::DealingDamage(s);
        },
        SelectionStep::Confirm(idx, input) => {
            match parse_i32(input.as_str()) {
                Some(damage) if damage >= 0 => {
                    match app.complete_deal_damage(idx, damage) {
                        Ok(()) => {},
                        Err(e) => {
                            app.set_message(e);
                            app.input_mode = InputMode::DealingDamage(
                                SelectionState { selected_index: idx, input },
                            );
                        },
                    }
                },
                _ => {
                    app.set_message(String::from_str("Invalid damage value!"));
                    app.input_mode = InputMode::Normal;
                },
            }
        },
    }
    ShellRequest::Nothing
}

/// Healing entry, like damage entry.
fn handle_healing_mode(app: &mut App, key: Key, state: SelectionState) -> (r: ShellRequest)
    requires
        old(app).wf(),
        old(app).input_mode is Normal,
    ensures
        final(app).wf(),
        healing_step(*old(app), state, key, *final(app), r),
{
    let len = app.encounter.combatants.len();
    match selection_step(state, key, len, false) {
        SelectionStep::Cancel => app.cancel_input(),
        SelectionStep::Keep(s) => {
            app.input_mode = InputMode::Healing(s);
        },
        SelectionStep::Confirm(idx, input) => {
            match parse_i32(input.as_str()) {
                Some(amount) if amount >= 0 => {
                    match app.complete_heal(idx, amount) {
                        Ok(()) => {},
                        Err(e) => {
                            app.set_message(e);
                            app.input_mode = InputMode::Healing(
                                SelectionState { selected_index: idx, input },
                            );
                        },
                    }
                },
                _ => {
                    app.set_message(String::from_str("Invalid heal value!"));
                    app.input_mode = InputMode::Normal;
                },
            }
        },
    }
    ShellRequest::Nothing
}

/// Temporary hit point entry, like damage entry; the engine itself
/// rejects a negative amount.
fn handle_granting_temp_hp_mode(app: &mut App, key: Key, state: SelectionState) -> (r: ShellRequest)
    requires
        old(app).wf(),
        old(app).input_mode is Normal,
    ensures
        final(app).wf(),
        granting_temp_hp_step(*old(app), state, key, *final(app), r),
{
    let len = app.encounter.combatants.len();
    match selection_step(state, key, len, false) {
        SelectionStep::Cancel => app.cancel_input(),
        SelectionStep::Keep(s) => {
            app.input_mode = InputMode::GrantingTempHp(s);
        },
        SelectionStep::Confirm(idx, input) => {
            match parse_i32(input.as_str()) {
                Some(amount) => {
                    match app.complete_grant_temp_hp(idx, amount) {
                        Ok(()) => {},
                        Err(e) => {
                            app.set_message(e);
                            app.input_mode = InputMode::GrantingTempHp(
                                SelectionState { selected_index: idx, input },
                            );
                        },
                    }
                },
                None => {
                    app.set_message(String::from_str("Invalid temp HP value!"));
                    app.input_mode = InputMode::Normal;
                },
            }
        },
    }
    ShellRequest::Nothing
}

/// Death-save entry: the rolled die goes straight to the engine, which
/// enforces who may roll.
fn handle_rolling_death_save_mode(app: &mut App, key: Key, state: SelectionState) -> (r:
    ShellRequest)
    requires
        old(app).wf(),
        old(app).input_mode is Normal,
    ensures
        final(app).wf(),
        rolling_death_save_step(*old(app), state, key, *final(app), r),
{
    let len = app.encounter.combatants.len();
    match selection_step(state, key, len, false) {
        SelectionStep::Cancel => app.cancel_input(),
        SelectionStep::Keep(s) => {
            app.input_mode = InputMode::RollingDeathSave(s);
        },
        SelectionStep::Confirm(idx, input) => {
            match parse_i32(input.as_str()) {
                Some(roll) => {
                    match app.complete_death_save_roll(idx, roll) {
                        Ok(()) => {},
                        Err(e) => {
                            app.set_message(e);
                            app.input_mode = InputMode::RollingDeathSave(
                                SelectionState { selected_index: idx, input },
                            );
                        },
                    }
                },
                None => {
                    app.set_message(String::from_str("Invalid roll value!"));
                    app.input_mode = InputMode::Normal;
                },
            }
        },
    }
    ShellRequest::Nothing
}

/// Picking the combatant who will start concentrating; Enter needs no
/// typed amount and opens the two-step concentration wizard.
fn handle_concentration_target_mode(app: &mut App, key: Key, state: SelectionState) -> (r:
    ShellRequest)
    requires
        old(app).wf(),
        old(app).input_mode is Normal,
    ensures
        final(app).wf(),
        concentration_target_step(*old(app), state, key, *final(app), r),
{
    let len = app.encounter.combatants.len();
    match selection_step(state, key, len, true) {
        SelectionStep::Cancel => app.cancel_input(),
        SelectionStep::Keep(s) => {
            app.input_mode = InputMode::ConcentrationTarget(s);
        },
        SelectionStep::Confirm(idx, _input) => {
            let mut st = AddConcentrationState::default();
            st.combatant_index = idx;
            app.input_mode = InputMode::ApplyingConcentration(st);
        },
    }
    ShellRequest::Nothing
}

/// Picking whose concentration to clear.
fn handle_clearing_concentration_mode(app: &mut App, key: Key, state: SelectionState) -> (r:
    ShellRequest)
    requires
        old(app).wf(),
        old(app).input_mode is Normal,
    ensures
        final(app).wf(),
        clearing_concentration_step(*old(app), state, key, *final(app), r),
{
    let len = app.encounter.combatants.len();
    match selection_step(state, key, len, true) {
        SelectionStep::Cancel => app.cancel_input(),
        SelectionStep::Keep(s) => {
            app.input_mode = InputMode::ClearingConcentration(s);
        },
        SelectionStep::Confirm(idx, input) => {
            match app.complete_clear_concentration(idx) {
                Ok(()) => {},
                Err(e) => {
                    app.set_message(e);
                    app.input_mode = InputMode::ClearingConcentration(
                        SelectionState { selected_index: idx, input },
                    );
                },
            }
        },
    }
    ShellRequest::Nothing
}

/// Picking whose status effects to clear: none reports so, one is
/// cleared at once, several open the per-effect picker.
fn handle_clearing_status_mode(app: &mut App, key: Key, state: SelectionState) -> (r: ShellRequest)
    requires
        old(app).wf(),
        old(app).input_mode is Normal,
    ensures
        final(app).wf(),
        clearing_status_step(*old(app), state, key, *final(app), r),
{
    let len = app.encounter.combatants.len();
    match selection_step(state, key, len, true) {
        SelectionStep::Cancel => app.cancel_input(),
        SelectionStep::Keep(s) => {
            app.input_mode = InputMode::ClearingStatus(s);
        },
        SelectionStep::Confirm(idx, _input) => {
            if idx >= app.encounter.combatants.len() {
                app.set_message(String::from_str("Invalid combatant selection"));
                app.input_mode = InputMode::Normal;
                return ShellRequest::Nothing;
            }
            let count = app.encounter.combatants[idx].status_effects.len();
            if count == 0 {
                match app.complete_clear_status_effect(idx, None) {
                    Ok(()) => {},
                    Err(e) => app.set_message(e),
                }
            } else if count == 1 {
                match app.complete_clear_status_effect(idx, Some(0)) {
                    Ok(()) => {},
                    Err(e) => app.set_message(e),
                }
            } else {
                app.input_mode = InputMode::SelectingStatusToClear(
                    StatusSelectionState { combatant_index: idx, selected_status_index: 0 },
                );
            }
        },
    }
    ShellRequest::Nothing
}

/// Picking the combatant who gains a status effect; Enter opens the
/// condition picker for the highlighted combatant.
fn handle_status_selection_mode(app: &mut App, key: Key, state: SelectionState) -> (r: ShellRequest)
    requires
        old(app).wf(),
        old(app).input_mode is Normal,
    ensures
        final(app).wf(),
        adding_status_step(*old(app), state, key, *final(app), r),
{
    let len = app.encounter.combatants.len();
    let selected = state.selected_index;
    match key {
        Key::Esc => app.cancel_input(),
        Key::Up => {
            app.input_mode = InputMode::AddingStatus(
                SelectionState { selected_index: nav_up(selected, len), input: String::new() },
            );
        },
        Key::Down => {
            app.input_mode = InputMode::AddingStatus(
                SelectionState { selected_index: nav_down(selected, len), input: String::new() },
            );
        },
        Key::Enter => {
            app.input_mode = InputMode::SelectingCondition(
                ConditionSelectionState { combatant_index: selected, input: String::new() },
            );
        },
        _ => {
            app.input_mode = InputMode::AddingStatus(state);
        },
    }
    ShellRequest::Nothing
}

/// Condition entry: a catalogue number and a duration separated by one
/// space; Enter validates both and attaches the effect.
fn handle_condition_selection_mode(app: &mut App, key: Key, state: ConditionSelectionState) -> (r:
    ShellRequest)
    requires
        old(app).wf(),
        old(app).input_mode is Normal,
    ensures
        final(app).wf(),
        selecting_condition_step(*old(app), state, key, *final(app), r),
{
    let mut state = state;
    match key {
        Key::Esc => app.cancel_input(),
        Key::Backspace => {
            crate::text::pop_char(&mut state.input);
            app.input_mode = InputMode::SelectingCondition(state);
        },
        Key::Char(c) => {
            let u = c as u32;
            if (48 <= u && u <= 57) || c == ' ' {
                if c != ' ' || !str_contains(state.input.as_str(), " ") {
                    crate::text::push_char(&mut state.input, c);
                }
            }
            app.input_mode = InputMode::SelectingCondition(state);
        },
        Key::Enter => {
            let parts = split_tokens(state.input.as_str());
            if parts.len() != 2 {
                app.set_message(
                    String::from_str("Enter condition number and duration (e.g., 1 3)"),
                );
                app.input_mode = InputMode::SelectingCondition(state);
                return ShellRequest::Nothing;
            }
            let conditions = ConditionType::all();
            let condition_idx: usize = match parse_i32(parts[0].as_str()) {
                Some(v) if 1 <= v && v as usize <= conditions.len() => (v - 1) as usize,
                _ => {
                    app.set_message(String::from_str("Invalid condition number"));
                    app.input_mode = InputMode::SelectingCondition(state);
                    return ShellRequest::Nothing;
                },
            };
            let duration = match parse_i32(parts[1].as_str()) {
                Some(d) if d >= 0 => d,
                _ => {
                    app.set_message(
                        String::from_str("Duration must be a non-negative number"),
                    );
                    app.input_mode = InputMode::SelectingCondition(state);
                    return ShellRequest::Nothing;
                },
            };
            let condition = conditions[condition_idx];
            match app.complete_add_status(state.combatant_index, condition, duration) {
                Ok(()) => {},
                Err(e) => {
                    app.set_message(e);
                    app.input_mode = InputMode::Normal;
                },
            }
        },
        _ => {
            app.input_mode = InputMode::SelectingCondition(state);
        },
    }
    ShellRequest::Nothing
}

/// The concentration wizard: spell name, then the constitution modifier.
fn handle_add_concentration_mode(app: &mut App, key: Key, state: AddConcentrationState) -> (r:
    ShellRequest)
    requires
        old(app).wf(),
        old(app).input_mode is Normal,
    ensures
        final(app).wf(),
        applying_concentration_step(*old(app), state, key, *final(app), r),
{
    let mut state = state;
    match key {
        Key::Esc => app.cancel_input(),
        Key::Enter => {
            if state.step < 1 {
                state.step += 1;
                app.input_mode = InputMode::ApplyingConcentration(state);
            } else {
                match app.complete_apply_concentration(state) {
                    Ok(()) => {},
                    Err(e) => {
                        app.set_message(e);
                        app.input_mode = InputMode::Normal;
                    },
                }
            }
        },
        Key::Backspace => {
            if state.step == 0 {
                crate::text::pop_char(&mut state.spell_name);
            } else if state.step == 1 {
                crate::text::pop_char(&mut state.con_mod);
            }
            app.input_mode = InputMode::ApplyingConcentration(state);
        },
        Key::Char(c) => {
            let u = c as u32;
            if state.step == 0 {
                crate::text::push_char(&mut state.spell_name, c);
            } else if state.step == 1 {
                if (48 <= u && u <= 57) || c == '-' {
                    crate::text::push_char(&mut state.con_mod, c);
                }
            }
            app.input_mode = InputMode::ApplyingConcentration(state);
        },
        _ => {
            app.input_mode = InputMode::ApplyingConcentration(state);
        },
    }
    ShellRequest::Nothing
}

/// A pending concentration check: digits accumulate the rolled total,
/// Enter resolves it against the stored difficulty class.
fn handle_concentration_check_mode(app: &mut App, key: Key, state: ConcentrationCheckState) -> (r:
    ShellRequest)
    requires
        old(app).wf(),
        old(app).input_mode is Normal,
    ensures
        final(app).wf(),
        concentration_check_step(*old(app), state, key, *final(app), r),
{
    let mut state = state;
    match key {
        Key::Esc => app.cancel_input(),
        Key::Backspace => {
            crate::text::pop_char(&mut state.input);
            app.input_mode = InputMode::ConcentrationCheck(state);
        },
        Key::Char(c) => {
            let u = c as u32;
            if 48 <= u && u <= 57 {
                crate::text::push_char(&mut state.input, c);
            }
            app.input_mode = InputMode::ConcentrationCheck(state);
        },
        Key::Enter => {
            match parse_i32(state.input.as_str()) {
                Some(total) => {
                    let again = ConcentrationCheckState {
                        combatant_index: state.combatant_index,
                        dc: state.dc,
                        input: state.input,
                    };
                    match app.complete_concentration_check(again, total) {
                        Ok(()) => {},
                        Err(e) => {
                            app.set_message(e);
                            app.input_mode = InputMode::Normal;
                        },
                    }
                },
                None => {
                    app.set_message(String::from_str("Invalid roll total"));
                    app.input_mode = InputMode::Normal;
                },
            }
        },
        _ => {
            app.input_mode = InputMode::ConcentrationCheck(state);
        },
    }
    ShellRequest::Nothing
}

/// Choosing between clearing concentration and clearing status effects.
fn handle_clear_choice_mode(app: &mut App, key: Key, choice: ClearAction) -> (r: ShellRequest)
    requires
        old(app).wf(),
        old(app).input_mode is Normal,
    ensures
        final(app).wf(),
        clear_choice_step(*old(app), choice, key, *final(app), r),
{
    match key {
        Key::Esc => app.cancel_input(),
        Key::Up | Key::Down => {
            let flipped = match choice {
                ClearAction::Concentration => ClearAction::StatusEffects,
                ClearAction::StatusEffects => ClearAction::Concentration,
            };
            app.input_mode = InputMode::ClearActionSelection(flipped);
        },
        Key::Enter => {
            match choice {
                ClearAction::Concentration => {
                    app.input_mode = InputMode::ClearingConcentration(SelectionState::default());
                },
                ClearAction::StatusEffects => {
                    app.input_mode = InputMode::ClearingStatus(SelectionState::default());
                },
            }
        },
        _ => {
            app.input_mode = InputMode::ClearActionSelection(choice);
        },
    }
    ShellRequest::Nothing
}

/// Picking which of one combatant's status effects to clear.
fn handle_status_clear_selection(app: &mut App, key: Key, state: StatusSelectionState) -> (r:
    ShellRequest)
    requires
        old(app).wf(),
        old(app).input_mode is Normal,
    ensures
        final(app).wf(),
        status_clear_selection_step(*old(app), state, key, *final(app), r),
{
    let combatant_index = state.combatant_index;
    let mut selected = state.selected_status_index;
    let count = if combatant_index < app.encounter.combatants.len() {
        app.encounter.combatants[combatant_index].status_effects.len()
    } else {
        0
    };
    match key {
        Key::Esc => app.cancel_input(),
        Key::Up => {
            selected = nav_up(selected, count);
            app.input_mode = InputMode::SelectingStatusToClear(
                StatusSelectionState { combatant_index, selected_status_index: selected },
            );
        },
        Key::Down => {
            selected = nav_down(selected, count);
            app.input_mode = InputMode::SelectingStatusToClear(
                StatusSelectionState { combatant_index, selected_status_index: selected },
            );
        },
        Key::Enter => {
            match app.complete_clear_status_effect(combatant_index, Some(selected)) {
                Ok(()) => {},
                Err(e) => {
                    app.set_message(e);
                    app.input_mode = InputMode::SelectingStatusToClear(
                        StatusSelectionState { combatant_index, selected_status_index: selected },
                    );
                },
            }
        },
        _ => {
            app.input_mode = InputMode::SelectingStatusToClear(
                StatusSelectionState { combatant_index, selected_status_index: selected },
            );
        },
    }
    ShellRequest::Nothing
}

/// Browsing the stored templates with a case-insensitive search entry;
/// Enter adds the highlighted template, asking only for initiative.
fn handle_template_selection_mode(app: &mut App, key: Key, state: SelectionState) -> (r:
    ShellRequest)
    requires
        old(app).wf(),
        old(app).input_mode is Normal,
    ensures
        final(app).wf(),
        selecting_template_step(*old(app), state, key, *final(app), r),
{
    let mut selected = state.selected_index;
    let mut input = state.input;
    let filtered = filter_names_of_templates(&app.templates, input.as_str());
    match key {
        Key::Esc => app.cancel_input(),
        Key::Up => {
            if filtered.len() > 0 {
                selected = nav_up(selected, filtered.len());
            }
            app.input_mode = InputMode::SelectingTemplate(
                SelectionState { selected_index: selected, input },
            );
        },
        Key::Down => {
            if filtered.len() > 0 {
                selected = nav_down(selected, filtered.len());
            }
            app.input_mode = InputMode::SelectingTemplate(
                SelectionState { selected_index: selected, input },
            );
        },
        Key::Enter => {
            if selected < filtered.len() {
                let tpl_idx = filtered[selected];
                match app.add_combatant_from_template(tpl_idx) {
                    Ok(()) => {},
                    Err(_) => {},
                }
            } else {
                app.set_message(String::from_str("No matching template"));
                app.input_mode = InputMode::Normal;
            }
        },
        Key::Backspace => {
            crate::text::pop_char(&mut input);
            app.input_mode = InputMode::SelectingTemplate(
                SelectionState { selected_index: selected, input },
            );
        },
        Key::Char(c) => {
            crate::text::push_char(&mut input, c);
            app.input_mode = InputMode::SelectingTemplate(
                SelectionState { selected_index: 0, input },
            );
        },
        _ => {
            app.input_mode = InputMode::SelectingTemplate(
                SelectionState { selected_index: selected, input },
            );
        },
    }
    ShellRequest::Nothing
}

/// Picking whose stat block to store as a reusable template.
fn handle_saving_template_mode(app: &mut App, key: Key, state: SelectionState) -> (r: ShellRequest)
    requires
        old(app).wf(),
        old(app).input_mode is Normal,
    ensures
        final(app).wf(),
        saving_template_step(*old(app), state, key, *final(app), r),
{
    let len = app.encounter.combatants.len();
    match selection_step(state, key, len, true) {
        SelectionStep::Cancel => {
            app.cancel_input();
            ShellRequest::Nothing
        },
        SelectionStep::Keep(s) => {
            app.input_mode = InputMode::SavingTemplate(s);
            ShellRequest::Nothing
        },
        SelectionStep::Confirm(idx, input) => {
            match app.save_template_from_combatant(idx) {
                Ok(()) => ShellRequest::SaveTemplates,
                Err(e) => {
                    app.set_message(e);
                    app.input_mode = InputMode::SavingTemplate(
                        SelectionState { selected_index: idx, input },
                    );
                    ShellRequest::Nothing
                },
            }
        },
    }
}

/// The seven entries of the action menu, in order.
fn handle_action_menu_mode(app: &mut App, key: Key, selected: usize) -> (r: ShellRequest)
    requires
        old(app).wf(),
        old(app).input_mode is Normal,
    ensures
        final(app).wf(),
        action_menu_step(*old(app), selected, key, *final(app), r),
{
    let count: usize = 7;
    match key {
        Key::Esc => app.cancel_input(),
        Key::Up => {
            app.input_mode = InputMode::ActionMenu(nav_up(selected, count));
        },
        Key::Down => {
            app.input_mode = InputMode::ActionMenu(nav_down(selected, count));
        },
        Key::Enter => {
            if selected == 0 {
                app.start_dealing_damage();
            } else if selected == 1 {
                app.start_healing();
            } else if selected == 2 {
                app.start_adding_status();
            } else if selected == 3 {
                app.start_rolling_death_save();
            } else if selected == 4 {
                app.start_concentration_target();
            } else if selected == 5 {
                app.start_clear_choice();
            } else if selected == 6 {
                app.start_granting_temp_hp();
            } else {
                app.input_mode = InputMode::ActionMenu(selected);
            }
        },
        _ => {
            app.input_mode = InputMode::ActionMenu(selected);
        },
    }
    ShellRequest::Nothing
}

/// The six entries of the combatant menu, in order.
fn handle_combatant_menu_mode(app: &mut App, key: Key, selected: usize) -> (r: ShellRequest)
    requires
        old(app).wf(),
        old(app).input_mode is Normal,
    ensures
        final(app).wf(),
        combatant_menu_step(*old(app), selected, key, *final(app), r),
{
    let count: usize = 6;
    match key {
        Key::Esc => app.cancel_input(),
        Key::Up => {
            app.input_mode = InputMode::CombatantMenu(nav_up(selected, count));
        },
        Key::Down => {
            app.input_mode = InputMode::CombatantMenu(nav_down(selected, count));
        },
        Key::Enter => {
            if selected == 0 {
                app.start_adding_combatant();
            } else if selected == 1 {
                app.start_removing();
            } else if selected == 2 {
                app.start_selecting_template();
            } else if selected == 3 {
                app.start_saving_template();
            } else if selected == 4 {
                app.start_loading_library();
            } else if selected == 5 {
                app.start_saving_library();
            } else {
                app.input_mode = InputMode::CombatantMenu(selected);
            }
        },
        _ => {
            app.input_mode = InputMode::CombatantMenu(selected);
        },
    }
    ShellRequest::Nothing
}

/// The scrollable condition quick reference; `q` closes it too.
fn handle_quick_reference_mode(app: &mut App, key: Key, selected: usize) -> (r: ShellRequest)
    requires
        old(app).wf(),
        old(app).input_mode is Normal,
    ensures
        final(app).wf(),
        quick_reference_step(*old(app), selected, key, *final(app), r),
{
    let total: usize = 14;
    match key {
        Key::Esc => app.cancel_input(),
        Key::Char(c) => {
            if c == 'q' {
                app.cancel_input();
            } else {
                app.input_mode = InputMode::QuickReference(selected);
            }
        },
        Key::Up => {
            app.input_mode = InputMode::QuickReference(nav_up(selected, total));
        },
        Key::Down => {
            app.input_mode = InputMode::QuickReference(nav_down(selected, total));
        },
        _ => {
            app.input_mode = InputMode::QuickReference(selected);
        },
    }
    ShellRequest::Nothing
}

/// Picking the combatant to remove from the roster.
fn handle_removing_mode(app: &mut App, key: Key, state: SelectionState) -> (r: ShellRequest)
    requires
        old(app).wf(),
        old(app).input_mode is Normal,
    ensures
        final(app).wf(),
        removing_step(*old(app), state, key, *final(app), r),
{
    let len = app.encounter.combatants.len();
    let selected = state.selected_index;
    match key {
        Key::Esc => app.cancel_input(),
        Key::Up => {
            app.input_mode = InputMode::Removing(
                SelectionState { selected_index: nav_up(selected, len), input: String::new() },
            );
        },
        Key::Down => {
            app.input_mode = InputMode::Removing(
                SelectionState { selected_index: nav_down(selected, len), input: String::new() },
            );
        },
        Key::Enter => {
            match app.complete_remove(selected) {
                Ok(()) => {},
                Err(e) => {
                    app.set_message(e);
                    app.input_mode = InputMode::Removing(state);
                },
            }
        },
        _ => {
            app.input_mode = InputMode::Removing(state);
        },
    }
    ShellRequest::Nothing
}

/// Typing the file name for the encounter to save; Enter validates the
/// name and, when it passes, asks the shell to write the snapshot.
fn handle_save_encounter_mode(app: &mut App, key: Key, state: SaveEncounterState) -> (r:
    ShellRequest)
    requires
        old(app).wf(),
        old(app).input_mode is Normal,
    ensures
        final(app).wf(),
        saving_encounter_step(*old(app), state, key, *final(app), r),
{
    let mut input = state.input;
    match key {
        Key::Esc => {
            app.cancel_input();
            ShellRequest::Nothing
        },
        Key::Enter => {
            match app.complete_save_encounter(input.as_str()) {
                Ok(()) => {
                    app.input_mode = InputMode::SavingEncounter(SaveEncounterState { input: input.clone() });
                    ShellRequest::SaveEncounter(input)
                },
                Err(e) => {
                    app.set_message(e);
                    app.input_mode = InputMode::SavingEncounter(SaveEncounterState { input });
                    ShellRequest::Nothing
                },
            }
        },
        Key::Backspace => {
            crate::text::pop_char(&mut input);
            app.input_mode = InputMode::SavingEncounter(SaveEncounterState { input });
            ShellRequest::Nothing
        },
        Key::Char(c) => {
            let u = c as u32;
            let ok = (48 <= u && u <= 57) || (65 <= u && u <= 90) || (97 <= u && u <= 122) || c
                == '_' || c == '-';
            if ok {
                crate::text::push_char(&mut input, c);
            }
            app.input_mode = InputMode::SavingEncounter(SaveEncounterState { input });
            ShellRequest::Nothing
        },
        _ => {
            app.input_mode = InputMode::SavingEncounter(SaveEncounterState { input });
            ShellRequest::Nothing
        },
    }
}

/// Browsing the saved encounters with a search entry; Enter asks the
/// shell to read the highlighted one.
fn handle_load_encounter_mode(app: &mut App, key: Key, state: SelectionState) -> (r: ShellRequest)
    requires
        old(app).wf(),
        old(app).input_mode is Normal,
    ensures
        final(app).wf(),
        loading_encounter_step(*old(app), state, key, *final(app), r),
{
    if matches!(key, Key::Esc) {
        app.cancel_input();
        return ShellRequest::Nothing;
    }
    let mut selected = state.selected_index;
    let mut input = state.input;
    let filtered = filter_names(&app.saved_encounter_files, input.as_str());
    if filtered.len() == 0 && input.as_str().is_empty() {
        app.set_message(
            String::from_str("No saved encounters found. Press Ctrl+S to save current encounter."),
        );
        app.input_mode = InputMode::Normal;
        return ShellRequest::Nothing;
    }
    match key {
        Key::Esc => {
            app.cancel_input();
            ShellRequest::Nothing
        },
        Key::Up => {
            if filtered.len() > 0 {
                selected = nav_up(selected, filtered.len());
            }
            app.input_mode = InputMode::LoadingEncounter(
                SelectionState { selected_index: selected, input },
            );
            ShellRequest::Nothing
        },
        Key::Down => {
            if filtered.len() > 0 {
                selected = nav_down(selected, filtered.len());
            }
            app.input_mode = InputMode::LoadingEncounter(
                SelectionState { selected_index: selected, input },
            );
            ShellRequest::Nothing
        },
        Key::Enter => {
            if selected < filtered.len() {
                let file_idx = filtered[selected];
                let filename = app.saved_encounter_files[file_idx].clone();
                app.input_mode = InputMode::LoadingEncounter(
                    SelectionState { selected_index: selected, input },
                );
                ShellRequest::LoadEncounter(filename)
            } else if filtered.len() > 0 {
                app.set_message(String::from_str("No encounter selected"));
                app.input_mode = InputMode::Normal;
                ShellRequest::Nothing
            } else {
                app.input_mode = InputMode::LoadingEncounter(
                    SelectionState { selected_index: selected, input },
                );
                ShellRequest::Nothing
            }
        },
        Key::Backspace => {
            crate::text::pop_char(&mut input);
            app.input_mode = InputMode::LoadingEncounter(
                SelectionState { selected_index: 0, input },
            );
            ShellRequest::Nothing
        },
        Key::Char(c) => {
            crate::text::push_char(&mut input, c);
            app.input_mode = InputMode::LoadingEncounter(
                SelectionState { selected_index: 0, input },
            );
            ShellRequest::Nothing
        },
        _ => {
            app.input_mode = InputMode::LoadingEncounter(
                SelectionState { selected_index: selected, input },
            );
            ShellRequest::Nothing
        },
    }
}

/// The save-to-library wizard: name, description, free-text difficulty;
/// the last Enter validates everything and may require an overwrite
/// confirmation before the shell writes.
fn handle_save_library_mode(app: &mut App, key: Key, state: SaveLibraryState) -> (r: ShellRequest)
    requires
        old(app).wf(),
        old(app).input_mode is Normal,
    ensures
        final(app).wf(),
        saving_library_step(*old(app), state, key, *final(app), r),
{
    let mut state = state;
    match key {
        Key::Esc => {
            app.cancel_input();
            ShellRequest::Nothing
        },
        Key::Enter => {
            if state.step == 0 {
                if state.name.as_str().is_empty() {
                    app.set_message(String::from_str("Name cannot be empty"));
                    app.input_mode = InputMode::SavingLibrary(state);
                    return ShellRequest::Nothing;
                }
                state.step = 1;
                app.input_mode = InputMode::SavingLibrary(state);
                ShellRequest::Nothing
            } else if state.step == 1 {
                if state.description.as_str().is_empty() {
                    app.set_message(String::from_str("Description cannot be empty"));
                    app.input_mode = InputMode::SavingLibrary(state);
                    return ShellRequest::Nothing;
                }
                state.step = 2;
                app.input_mode = InputMode::SavingLibrary(state);
                ShellRequest::Nothing
            } else {
                let again = SaveLibraryState {
                    step: state.step,
                    name: state.name.clone(),
                    description: state.description.clone(),
                    difficulty: state.difficulty.clone(),
                };
                match app.complete_save_library(again) {
                    Ok(Some(template)) => {
                        let name = template.name.clone();
                        ShellRequest::SaveLibrary(name, template)
                    },
                    Ok(None) => ShellRequest::Nothing,
                    Err(e) => {
                        app.set_message(e);
                        app.input_mode = InputMode::SavingLibrary(state);
                        ShellRequest::Nothing
                    },
                }
            }
        },
        Key::Backspace => {
            if state.step == 0 {
                crate::text::pop_char(&mut state.name);
            } else if state.step == 1 {
                crate::text::pop_char(&mut state.description);
            } else if state.step == 2 {
                crate::text::pop_char(&mut state.difficulty);
            }
            app.input_mode = InputMode::SavingLibrary(state);
            ShellRequest::Nothing
        },
        Key::Char(c) => {
            let u = c as u32;
            if state.step == 0 {
                let ok = (48 <= u && u <= 57) || (65 <= u && u <= 90) || (97 <= u && u <= 122) || c
                    == '_' || c == '-';
                if ok {
                    crate::text::push_char(&mut state.name, c);
                }
            } else if state.step == 1 {
                crate::text::push_char(&mut state.description, c);
            } else if state.step == 2 {
                crate::text::push_char(&mut state.difficulty, c);
            }
            app.input_mode = InputMode::SavingLibrary(state);
            ShellRequest::Nothing
        },
        _ => {
            app.input_mode = InputMode::SavingLibrary(state);
            ShellRequest::Nothing
        },
    }
}

/// Browsing the stored library blueprints; Enter picks one, which may
/// first require confirmation over a non-empty roster.
fn handle_loading_library_mode(app: &mut App, key: Key, state: SelectionState) -> (r: ShellRequest)
    requires
        old(app).wf(),
        old(app).input_mode is Normal,
    ensures
        final(app).wf(),
        loading_library_step(*old(app), state, key, *final(app), r),
{
    if matches!(key, Key::Esc) {
        app.cancel_input();
        return ShellRequest::Nothing;
    }
    let mut selected = state.selected_index;
    let mut input = state.input;
    let filtered = filter_names(&app.library_files, input.as_str());
    if filtered.len() == 0 && input.as_str().is_empty() {
        app.set_message(
            String::from_str("No library templates found. Save current encounter to library first."),
        );
        app.input_mode = InputMode::Normal;
        return ShellRequest::Nothing;
    }
    match key {
        Key::Esc => {
            app.cancel_input();
            ShellRequest::Nothing
        },
        Key::Up => {
            if filtered.len() > 0 {
                selected = nav_up(selected, filtered.len());
            }
            app.input_mode = InputMode::LoadingLibrary(
                SelectionState { selected_index: selected, input },
            );
            ShellRequest::Nothing
        },
        Key::Down => {
            if filtered.len() > 0 {
                selected = nav_down(selected, filtered.len());
            }
            app.input_mode = InputMode::LoadingLibrary(
                SelectionState { selected_index: selected, input },
            );
            ShellRequest::Nothing
        },
        Key::Enter => {
            if selected < filtered.len() {
                let file_idx = filtered[selected];
                let filename = app.library_files[file_idx].clone();
                app.input_mode = InputMode::LoadingLibrary(
                    SelectionState { selected_index: selected, input },
                );
                if app.select_library_template(filename.clone()) {
                    ShellRequest::LoadLibrary(filename)
                } else {
                    ShellRequest::Nothing
                }
            } else if filtered.len() > 0 {
                app.set_message(String::from_str("No template selected"));
                app.input_mode = InputMode::Normal;
                ShellRequest::Nothing
            } else {
                app.input_mode = InputMode::LoadingLibrary(
                    SelectionState { selected_index: selected, input },
                );
                ShellRequest::Nothing
            }
        },
        Key::Backspace => {
            crate::text::pop_char(&mut input);
            app.input_mode = InputMode::LoadingLibrary(
                SelectionState { selected_index: 0, input },
            );
            ShellRequest::Nothing
        },
        Key::Char(c) => {
            crate::text::push_char(&mut input, c);
            app.input_mode = InputMode::LoadingLibrary(
                SelectionState { selected_index: 0, input },
            );
            ShellRequest::Nothing
        },
        _ => {
            app.input_mode = InputMode::LoadingLibrary(
                SelectionState { selected_index: selected, input },
            );
            ShellRequest::Nothing
        },
    }
}

/// Walking the loaded blueprint, one initiative at a time.
fn handle_setting_library_initiatives_mode(app: &mut App, key: Key, state: LoadLibraryState) -> (r:
    ShellRequest)
    requires
        old(app).wf(),
        old(app).input_mode is Normal,
    ensures
        final(app).wf(),
        setting_initiatives_step(*old(app), state, key, *final(app), r),
{
    let mut state = state;
    if state.current_index >= state.combatants_with_init.len() {
        app.cancel_input();
        return ShellRequest::Nothing;
    }
    match key {
        Key::Esc => app.cancel_input(),
        Key::Enter => {
            let idx = state.current_index;
            let input = {
                let pair = &state.combatants_with_init[idx];
                pair.1.clone()
            };
            app.input_mode = InputMode::SettingLibraryInitiatives(state);
            match app.complete_library_initiative(input) {
                Ok(()) => {},
                Err(e) => app.set_message(e),
            }
        },
        Key::Backspace => {
            let idx = state.current_index;
            let (lc, mut entry) = state.combatants_with_init.remove(idx);
            crate::text::pop_char(&mut entry);
            state.combatants_with_init.insert(idx, (lc, entry));
            app.input_mode = InputMode::SettingLibraryInitiatives(state);
        },
        Key::Char(c) => {
            let idx = state.current_index;
            let (lc, mut entry) = state.combatants_with_init.remove(idx);
            let u = c as u32;
            if (48 <= u && u <= 57) || (c == '-' && entry.as_str().is_empty()) {
                crate::text::push_char(&mut entry, c);
            }
            state.combatants_with_init.insert(idx, (lc, entry));
            app.input_mode = InputMode::SettingLibraryInitiatives(state);
        },
        _ => {
            app.input_mode = InputMode::SettingLibraryInitiatives(state);
        },
    }
    ShellRequest::Nothing
}

/// Confirming the overwrite of an existing library entry.
fn handle_confirm_library_overwrite(app: &mut App, key: Key, state: SaveLibraryState) -> (r:
    ShellRequest)
    requires
        old(app).wf(),
        old(app).input_mode is Normal,
    ensures
        final(app).wf(),
        confirming_overwrite_step(*old(app), state, key, *final(app), r),
{
    match key {
        Key::Esc => {
            app.cancel_input();
            ShellRequest::Nothing
        },
        Key::Char(c) => {
            if c == 'y' || c == 'Y' {
                let name = state.name.clone();
                let template = app.confirm_overwrite_library(state);
                ShellRequest::SaveLibrary(name, template)
            } else if c == 'n' || c == 'N' {
                app.cancel_library_overwrite();
                ShellRequest::Nothing
            } else {
                app.input_mode = InputMode::ConfirmingLibraryOverwrite(state);
                ShellRequest::Nothing
            }
        },
        _ => {
            app.input_mode = InputMode::ConfirmingLibraryOverwrite(state);
            ShellRequest::Nothing
        },
    }
}

/// Confirming that loading a blueprint may clear the current roster.
fn handle_confirm_library_load(app: &mut App, key: Key, filename: String) -> (r: ShellRequest)
    requires
        old(app).wf(),
        old(app).input_mode is Normal,
    ensures
        final(app).wf(),
        confirming_load_step(*old(app), filename, key, *final(app), r),
{
    match key {
        Key::Esc => {
            app.cancel_input();
            ShellRequest::Nothing
        },
        Key::Char(c) => {
            if c == 'y' || c == 'Y' {
                ShellRequest::LoadLibrary(filename)
            } else if c == 'n' || c == 'N' {
                app.cancel_library_load();
                ShellRequest::Nothing
            } else {
                app.input_mode = InputMode::ConfirmingLibraryLoad(filename);
                ShellRequest::Nothing
            }
        },
        _ => {
            app.input_mode = InputMode::ConfirmingLibraryLoad(filename);
            ShellRequest::Nothing
        },
    }
}

/// Lists the indices of the stored templates whose names match the
/// search entry.
fn filter_names_of_templates(templates: &Vec<crate::combatant_template::CombatantTemplate>, query: &str) -> (r: Vec<usize>)
    ensures
        r@.map_values(|u: usize| u as int) == matching_templates(templates@, query@),
        forall|k: int| 0 <= k < r@.len() ==> (#[trigger] r@[k]) < templates@.len(),
{
    let q = lowercase(query);
    let n = templates.len();
    let mut r: Vec<usize> = Vec::new();
    let mut i: usize = 0;
    while i < n
        invariant
            0 <= i <= n,
            n == templates@.len(),
            q@ == lower_of(query@),
            r@.map_values(|u: usize| u as int) =~= matching_templates(
                templates@.take(i as int),
                query@,
            ),
            forall|k: int| 0 <= k < r@.len() ==> (#[trigger] r@[k]) < i,
        decreases n - i,
    {
        let low = lowercase(templates[i].name.as_str());
        if str_contains(low.as_str(), q.as_str()) {
            r.push(i);
        }
        proof {
            assert(templates@.take(i + 1).drop_last() =~= templates@.take(i as int));
            assert(templates@.take(i + 1).last() == templates@[i as int]);
            assert(r@.map_values(|u: usize| u as int) =~= matching_templates(
                templates@.take(i + 1),
                query@,
            ));
        }
        i += 1;
    }
    proof {
        assert(templates@.take(n as int) =~= templates@);
    }
    r
}

} // verus!
