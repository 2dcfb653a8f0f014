//! Completion handlers: the single engine call each interaction mode
//! makes when its input is confirmed, with the centralized validation
//! and the user-facing messages.
use vstd::prelude::*;

use crate::app::{log_advanced, App};
use crate::combat::lemma_replace_keeps_wf;
use crate::combatant::{granted_temp, Combatant};
use crate::combatant_template::CombatantTemplate;
use crate::concentration::ConcentrationInfo;
use crate::death_saves::{DeathSaveOutcome, DeathSaves};
use crate::log::unix_time_now;
use crate::persistence::{library_template_exists, to_library_combatant, EncounterTemplate, LibraryCombatant, SavedEncounter};
use crate::state::{AddCombatantState, AddConcentrationState, ConcentrationCheckState, InputMode, LoadLibraryState, SaveLibraryState};
use crate::status::{ConditionType, StatusEffect};
use crate::text::{all_name_chars, all_ws, dec_int, i32_to_string, int_literal_val, is_valid_name, lower_of, lowercase, parse_i32, spec_parses_i32, spec_trimmed, trim_ws};

verus! {

/// Difficulty class of the concentration check damage forces: half the
/// damage, but never below ten.
pub open spec fn spec_dc(damage: int) -> int {
    if damage / 2 > 10 {
        damage / 2
    } else {
        10
    }
}

/// Temporary pool left after damage.
pub open spec fn damaged_temp(c: Combatant, d: int) -> int {
    if c.temp_hp - d >= 0 {
        c.temp_hp - d
    } else {
        0
    }
}

/// Current hit points left after damage: the temporary pool absorbs
/// first, the rest floors at zero.
pub open spec fn damaged_hp(c: Combatant, d: int) -> int {
    let spill = if d - c.temp_hp >= 0 {
        d - c.temp_hp
    } else {
        0
    };
    if c.hp_current - spill >= 0 {
        c.hp_current - spill
    } else {
        0
    }
}

/// The death-save record a combatant holds, or a fresh one if none yet.
pub open spec fn saves_or_fresh(c: Combatant) -> DeathSaves {
    match c.death_saves {
        Some(d) => d,
        None => DeathSaves::spec_fresh(),
    }
}

/// Death-save record after damage: a player dropping to zero opens a
/// fresh record; a player already down takes one automatic failure.
pub open spec fn deal_damage_saves(c: Combatant, d: int) -> Option<DeathSaves> {
    let was_unconscious = c.hp_current <= 0;
    let now_unconscious = damaged_hp(c, d) <= 0;
    if c.is_player && !was_unconscious && now_unconscious {
        Some(saves_or_fresh(c))
    } else if c.is_player && was_unconscious {
        Some(saves_or_fresh(c).after_failure(1))
    } else {
        c.death_saves
    }
}

/// Concentration after damage: dropping unconscious clears it outright.
pub open spec fn deal_damage_concentration(c: Combatant, d: int) -> Option<ConcentrationInfo> {
    if damaged_hp(c, d) <= 0 {
        None
    } else {
        c.concentration
    }
}

/// The spell a combatant is concentrating on, for messages.
pub open spec fn spell_of(c: Combatant) -> Seq<char> {
    match c.concentration {
        Some(ci) => ci.spell_name@,
        None => Seq::<char>::empty(),
    }
}

pub open spec fn msg_invalid_index() -> Seq<char> {
    "Invalid combatant index"@
}

pub open spec fn msg_damage_base(name: Seq<char>, d: int, hp: int) -> Seq<char> {
    name + " took "@ + dec_int(d) + " damage (HP: "@ + dec_int(hp) + ")"@
}

pub open spec fn msg_down(name: Seq<char>) -> Seq<char> {
    name + " is down and starts making death saves."@
}

pub open spec fn msg_dies_at_zero(name: Seq<char>) -> Seq<char> {
    name + " takes damage at 0 HP and dies."@
}

pub open spec fn msg_down_progress(name: Seq<char>, f: int, s: int) -> Seq<char> {
    name + " takes damage at 0 HP (Death Saves F"@ + dec_int(f) + "/S"@ + dec_int(s) + ")"@
}

pub open spec fn msg_concentration_check(name: Seq<char>, spell: Seq<char>, dc: int) -> Seq<char> {
    name + " took damage while concentrating on "@ + spell + ". Roll CON save (DC "@ + dec_int(dc)
        + ")."@
}

/// The side note appended to the damage report for a player's
/// death-save book-keeping, if any.
pub open spec fn deal_damage_extra(c: Combatant, d: int) -> Option<Seq<char>> {
    let was_unconscious = c.hp_current <= 0;
    let now_unconscious = damaged_hp(c, d) <= 0;
    if c.is_player && !was_unconscious && now_unconscious {
        Some(msg_down(c.name@))
    } else if c.is_player && was_unconscious {
        let d1 = saves_or_fresh(c).after_failure(1);
        if d1.failures >= 3 {
            Some(msg_dies_at_zero(c.name@))
        } else {
            Some(msg_down_progress(c.name@, d1.failures as int, d1.successes as int))
        }
    } else {
        None
    }
}

/// The transient message the damage action leaves when no concentration
/// check is required.
pub open spec fn deal_damage_message(c: Combatant, d: int) -> Seq<char> {
    let base = msg_damage_base(c.name@, d, damaged_hp(c, d));
    match deal_damage_extra(c, d) {
        Some(extra) => base + " | "@ + extra,
        None => base,
    }
}

/// Current hit points after healing: capped at the maximum.
pub open spec fn healed_hp(c: Combatant, amount: int) -> int {
    if c.hp_current + amount <= c.hp_max {
        c.hp_current + amount
    } else {
        c.hp_max as int
    }
}

pub open spec fn msg_healed(name: Seq<char>, amount: int, hp: int) -> Seq<char> {
    name + " healed "@ + dec_int(amount) + " HP (HP: "@ + dec_int(hp) + ")"@
}

pub open spec fn msg_temp_hp(name: Seq<char>, amount: int) -> Seq<char> {
    name + " gains "@ + dec_int(amount) + " temp HP"@
}

pub open spec fn msg_status_added(condition: ConditionType, name: Seq<char>, duration: int) -> Seq<
    char,
> {
    "Added "@ + condition.spec_name() + " to "@ + name + " for "@ + dec_int(duration) + " rounds"@
}

pub open spec fn msg_status_gained(condition: ConditionType, name: Seq<char>, duration: int) -> Seq<
    char,
> {
    name + " gains "@ + condition.spec_name() + " for "@ + (if duration >= 0 {
        dec_int(duration) + " rounds"@
    } else {
        "indefinite"@
    })
}

pub open spec fn msg_removed(name: Seq<char>) -> Seq<char> {
    "Removed combatant: "@ + name
}

pub open spec fn msg_added_combatant(name: Seq<char>) -> Seq<char> {
    "Added combatant: "@ + name
}

pub open spec fn log_added_combatant(
    name: Seq<char>,
    hp: int,
    ac: int,
    init: int,
    is_player: bool,
) -> Seq<char> {
    "Added "@ + name + " (HP "@ + dec_int(hp) + ", AC "@ + dec_int(ac) + ", Init "@ + dec_int(init)
        + ", "@ + (if is_player {
        "PC"@
    } else {
        "NPC"@
    }) + ")"@
}

pub open spec fn msg_concentrating(name: Seq<char>, spell: Seq<char>) -> Seq<char> {
    name + " starts concentrating on "@ + spell + "."@
}

pub open spec fn msg_maintains_concentration(
    name: Seq<char>,
    spell: Seq<char>,
    roll: int,
    dc: int,
) -> Seq<char> {
    name + " maintains concentration on "@ + spell + " (roll "@ + dec_int(roll) + " vs DC "@
        + dec_int(dc) + ")."@
}

pub open spec fn msg_fails_concentration(
    name: Seq<char>,
    spell: Seq<char>,
    roll: int,
    dc: int,
) -> Seq<char> {
    name + " fails concentration on "@ + spell + " (roll "@ + dec_int(roll) + " vs DC "@ + dec_int(
        dc,
    ) + ")."@
}

pub open spec fn msg_stops_concentrating(name: Seq<char>) -> Seq<char> {
    name + " stops concentrating."@
}

pub open spec fn msg_no_concentration(name: Seq<char>) -> Seq<char> {
    name + " has no concentration to clear."@
}

pub open spec fn msg_removed_status(condition: ConditionType, name: Seq<char>) -> Seq<char> {
    "Removed "@ + condition.spec_name() + " from "@ + name + "."@
}

pub open spec fn msg_no_status_effects(name: Seq<char>) -> Seq<char> {
    name + " has no status effects to clear."@
}

pub open spec fn msg_cleared_status_effects(name: Seq<char>) -> Seq<char> {
    "Cleared all status effects from "@ + name + "."@
}

pub open spec fn msg_template_initiative(name: Seq<char>) -> Seq<char> {
    "Set initiative for template: "@ + name
}

pub open spec fn msg_saved_template(name: Seq<char>) -> Seq<char> {
    "Saved template: "@ + name
}

/// Index of the first stored template whose lower-cased name matches, or
/// -1.
pub open spec fn find_template(s: Seq<CombatantTemplate>, name_lower: Seq<char>) -> int
    decreases s.len(),
{
    if s.len() == 0 {
        -1
    } else if lower_of(s[0].name@) == name_lower {
        0
    } else {
        let r = find_template(s.skip(1), name_lower);
        if r < 0 {
            -1
        } else {
            r + 1
        }
    }
}

pub proof fn lemma_find_template(s: Seq<CombatantTemplate>, name_lower: Seq<char>)
    ensures
        find_template(s, name_lower) == -1 ==> (forall|j: int|
            0 <= j < s.len() ==> lower_of((#[trigger] s[j]).name@) != name_lower),
        find_template(s, name_lower) >= 0 ==> {
            let r = find_template(s, name_lower);
            &&& 0 <= r < s.len()
            &&& lower_of(s[r].name@) == name_lower
            &&& (forall|j: int| 0 <= j < r ==> lower_of((#[trigger] s[j]).name@) != name_lower)
        },
    decreases s.len(),
{
    if s.len() > 0 && lower_of(s[0].name@) != name_lower {
        lemma_find_template(s.skip(1), name_lower);
        let r1 = find_template(s.skip(1), name_lower);
        if r1 == -1 {
            assert forall|j: int| 0 <= j < s.len() implies lower_of((#[trigger] s[j]).name@)
                != name_lower by {
                if j > 0 {
                    assert(s.skip(1)[j - 1] == s[j]);
                    assert(lower_of(s.skip(1)[j - 1].name@) != name_lower);
                }
            }
        } else {
            assert(s[r1 + 1] == s.skip(1)[r1]);
            assert forall|j: int| 0 <= j < r1 + 1 implies lower_of((#[trigger] s[j]).name@)
                != name_lower by {
                if j > 0 {
                    assert(s.skip(1)[j - 1] == s[j]);
                    assert(lower_of(s.skip(1)[j - 1].name@) != name_lower);
                }
            }
        }
    }
}

/// The report a rolled death save leaves, by outcome.
pub open spec fn death_save_roll_message(c0: Combatant, roll: int) -> Seq<char> {
    if roll == 20 {
        c0.name@ + " rolled a 20 and regains consciousness at 1 HP!"@
    } else {
        let d1 = Combatant::rolled_saves(saves_or_fresh(c0), roll);
        match Combatant::rolled_outcome(saves_or_fresh(c0), roll) {
            DeathSaveOutcome::Stabilized => c0.name@
                + " succeeds the death save and is now stable (S"@ + dec_int(d1.successes as int)
                + "/F"@ + dec_int(d1.failures as int) + ")"@,
            DeathSaveOutcome::Died => c0.name@ + " failed too many death saves and has died."@,
            _ => c0.name@ + " death save result recorded (S"@ + dec_int(d1.successes as int)
                + "/F"@ + dec_int(d1.failures as int) + ")"@,
        }
    }
}

/// Everything the corresponding action fixes on its success path.
pub open spec fn deal_damage_outcome(pre: App, index: usize, damage: i32, post: App) -> bool {
                let c0 = pre.encounter.combatants@[index as int];
                let c1 = post.encounter.combatants@[index as int];
                &&& post.encounter.combatants@ == pre.encounter.combatants@.update(
                    index as int,
                    c1,
                )
                &&& c1.same_identity(c0)
                &&& c1.temp_hp == damaged_temp(c0, damage as int)
                &&& c1.hp_current == damaged_hp(c0, damage as int)
                &&& c1.status_effects == c0.status_effects
                &&& c1.death_saves == deal_damage_saves(c0, damage as int)
                &&& c1.concentration == deal_damage_concentration(c0, damage as int)
                &&& post.encounter.current_turn_index == pre.encounter.current_turn_index
                &&& post.encounter.round_number == pre.encounter.round_number
                &&& post.templates == pre.templates
                &&& post.should_quit == pre.should_quit
                &&& if damaged_hp(c0, damage as int) > 0 && c0.concentration is Some {
                    &&& (post.input_mode matches InputMode::ConcentrationCheck(st)
                        && st.combatant_index == index && st.dc == spec_dc(damage as int)
                        && st.input@.len() == 0)
                    &&& (post.message matches Some(m) && m@ == msg_concentration_check(
                        c0.name@,
                        spell_of(c0),
                        spec_dc(damage as int),
                    ))
                    &&& post.log == pre.log
                } else {
                    &&& post.input_mode is Normal
                    &&& (post.message matches Some(m) && m@ == deal_damage_message(
                        c0,
                        damage as int,
                    ))
                    &&& log_advanced(
                        pre.log@,
                        pre.encounter.round_number,
                        msg_damage_base(c0.name@, damage as int, damaged_hp(c0, damage as int)),
                        post.log@,
                    )
                }
            }

/// Everything the corresponding action fixes on its success path.
pub open spec fn heal_outcome(pre: App, index: usize, amount: i32, post: App) -> bool {
                let c0 = pre.encounter.combatants@[index as int];
                let c1 = post.encounter.combatants@[index as int];
                let hp1 = healed_hp(c0, amount as int);
                &&& post.encounter.combatants@ == pre.encounter.combatants@.update(
                    index as int,
                    c1,
                )
                &&& c1.same_identity(c0)
                &&& c1.hp_current == hp1
                &&& c1.hp_current <= c1.hp_max
                &&& c1.temp_hp == c0.temp_hp
                &&& c1.status_effects == c0.status_effects
                &&& c1.death_saves == (if hp1 > 0 {
                    Option::<DeathSaves>::None
                } else {
                    c0.death_saves
                })
                &&& c1.concentration == c0.concentration
                &&& post.encounter.current_turn_index == pre.encounter.current_turn_index
                &&& post.encounter.round_number == pre.encounter.round_number
                &&& post.input_mode is Normal
                &&& (post.message matches Some(m) && m@ == msg_healed(
                    c0.name@,
                    amount as int,
                    hp1,
                ))
                &&& log_advanced(
                    pre.log@,
                    pre.encounter.round_number,
                    msg_healed(c0.name@, amount as int, hp1),
                    post.log@,
                )
                &&& post.templates == pre.templates
                &&& post.should_quit == pre.should_quit
            }

/// Everything the corresponding action fixes on its success path.
pub open spec fn grant_temp_hp_outcome(pre: App, index: usize, amount: i32, post: App) -> bool {
                let c0 = pre.encounter.combatants@[index as int];
                let c1 = post.encounter.combatants@[index as int];
                &&& post.encounter.combatants@ == pre.encounter.combatants@.update(
                    index as int,
                    c1,
                )
                &&& c1.same_identity(c0)
                &&& c1.temp_hp == granted_temp(c0.temp_hp as int, amount as int)
                &&& c1.hp_current == c0.hp_current
                &&& c1.status_effects == c0.status_effects
                &&& c1.death_saves == c0.death_saves
                &&& c1.concentration == c0.concentration
                &&& post.encounter.current_turn_index == pre.encounter.current_turn_index
                &&& post.encounter.round_number == pre.encounter.round_number
                &&& post.input_mode is Normal
                &&& (post.message matches Some(m) && m@ == msg_temp_hp(
                    c0.name@,
                    amount as int,
                ))
                &&& log_advanced(
                    pre.log@,
                    pre.encounter.round_number,
                    msg_temp_hp(c0.name@, amount as int),
                    post.log@,
                )
                &&& post.templates == pre.templates
                &&& post.should_quit == pre.should_quit
            }

/// Everything the corresponding action fixes on its success path.
pub open spec fn add_status_outcome(pre: App, combatant_index: usize, condition: ConditionType, duration: i32, post: App) -> bool {
                let c0 = pre.encounter.combatants@[combatant_index as int];
                let c1 = post.encounter.combatants@[combatant_index as int];
                let eff = StatusEffect { condition, duration, source: None };
                let k = crate::combatant::find_condition(c0.status_effects@, condition);
                &&& post.encounter.combatants@ == pre.encounter.combatants@.update(
                    combatant_index as int,
                    c1,
                )
                &&& c1.same_identity(c0)
                &&& c1.status_effects@ == (if k >= 0 {
                    c0.status_effects@.update(k, eff)
                } else {
                    c0.status_effects@.push(eff)
                })
                &&& c1.hp_current == c0.hp_current
                &&& c1.temp_hp == c0.temp_hp
                &&& c1.death_saves == c0.death_saves
                &&& c1.concentration == c0.concentration
                &&& post.input_mode is Normal
                &&& (post.message matches Some(m) && m@ == msg_status_added(
                    condition,
                    c0.name@,
                    duration as int,
                ))
                &&& log_advanced(
                    pre.log@,
                    pre.encounter.round_number,
                    msg_status_gained(condition, c0.name@, duration as int),
                    post.log@,
                )
                &&& post.encounter.current_turn_index == pre.encounter.current_turn_index
                &&& post.encounter.round_number == pre.encounter.round_number
                &&& post.templates == pre.templates
                &&& post.should_quit == pre.should_quit
            }

/// Everything the corresponding action fixes on its success path.
pub open spec fn remove_outcome(pre: App, index: usize, post: App) -> bool {
                let c0 = pre.encounter.combatants@[index as int];
                &&& post.encounter.combatants@ == pre.encounter.combatants@.remove(
                    index as int,
                )
                &&& post.encounter.current_turn_index == (if pre.encounter.current_turn_index >= pre.encounter.combatants@.len() - 1 && pre.encounter.combatants@.len() > 1 {
                    0
                } else {
                    pre.encounter.current_turn_index as int
                })
                &&& post.encounter.round_number == pre.encounter.round_number
                &&& post.input_mode is Normal
                &&& (post.message matches Some(m) && m@ == msg_removed(c0.name@))
                &&& log_advanced(
                    pre.log@,
                    pre.encounter.round_number,
                    msg_removed(c0.name@),
                    post.log@,
                )
                &&& post.templates == pre.templates
                &&& post.should_quit == pre.should_quit
            }

/// Everything the corresponding action fixes on its success path.
pub open spec fn apply_concentration_outcome(pre: App, state: AddConcentrationState, post: App) -> bool {
                let c0 = pre.encounter.combatants@[state.combatant_index as int];
                let c1 = post.encounter.combatants@[state.combatant_index as int];
                &&& post.encounter.combatants@ == pre.encounter.combatants@.update(
                    state.combatant_index as int,
                    c1,
                )
                &&& c1.same_identity(c0)
                &&& c1.hp_current == c0.hp_current
                &&& c1.temp_hp == c0.temp_hp
                &&& c1.status_effects == c0.status_effects
                &&& c1.death_saves == c0.death_saves
                &&& (c1.concentration matches Some(ci) && ci.spell_name@ == state.spell_name@
                    && ci.constitution_modifier == int_literal_val(state.con_mod@))
                &&& post.input_mode is Normal
                &&& (post.message matches Some(m) && m@ == msg_concentrating(
                    c0.name@,
                    state.spell_name@,
                ))
                &&& log_advanced(
                    pre.log@,
                    pre.encounter.round_number,
                    msg_concentrating(c0.name@, state.spell_name@),
                    post.log@,
                )
                &&& post.encounter.current_turn_index == pre.encounter.current_turn_index
                &&& post.encounter.round_number == pre.encounter.round_number
                &&& post.templates == pre.templates
                &&& post.should_quit == pre.should_quit
            }

/// Everything the corresponding action fixes on its success path.
pub open spec fn concentration_check_outcome(pre: App, state: ConcentrationCheckState, roll_total: i32, post: App) -> bool {
                let c0 = pre.encounter.combatants@[state.combatant_index as int];
                let c1 = post.encounter.combatants@[state.combatant_index as int];
                &&& post.encounter.combatants@ == pre.encounter.combatants@.update(
                    state.combatant_index as int,
                    c1,
                )
                &&& c1.same_identity(c0)
                &&& c1.hp_current == c0.hp_current
                &&& c1.temp_hp == c0.temp_hp
                &&& c1.status_effects == c0.status_effects
                &&& c1.death_saves == c0.death_saves
                &&& c1.concentration == (if roll_total >= state.dc {
                    c0.concentration
                } else {
                    Option::<ConcentrationInfo>::None
                })
                &&& post.input_mode is Normal
                &&& (post.message matches Some(m) && m@ == (if roll_total >= state.dc {
                    msg_maintains_concentration(
                        c0.name@,
                        spell_of(c0),
                        roll_total as int,
                        state.dc as int,
                    )
                } else {
                    msg_fails_concentration(
                        c0.name@,
                        spell_of(c0),
                        roll_total as int,
                        state.dc as int,
                    )
                }))
                &&& post.log == pre.log
                &&& post.encounter.current_turn_index == pre.encounter.current_turn_index
                &&& post.encounter.round_number == pre.encounter.round_number
                &&& post.templates == pre.templates
                &&& post.should_quit == pre.should_quit
            }

/// Everything the corresponding action fixes on its success path.
pub open spec fn clear_concentration_outcome(pre: App, index: usize, post: App) -> bool {
                let c0 = pre.encounter.combatants@[index as int];
                let c1 = post.encounter.combatants@[index as int];
                &&& post.encounter.combatants@ == pre.encounter.combatants@.update(
                    index as int,
                    c1,
                )
                &&& c1.same_identity(c0)
                &&& c1.hp_current == c0.hp_current
                &&& c1.temp_hp == c0.temp_hp
                &&& c1.status_effects == c0.status_effects
                &&& c1.death_saves == c0.death_saves
                &&& c1.concentration is None
                &&& post.input_mode is Normal
                &&& (post.message matches Some(m) && m@ == (if c0.concentration is Some {
                    msg_stops_concentrating(c0.name@)
                } else {
                    msg_no_concentration(c0.name@)
                }))
                &&& post.log == pre.log
                &&& post.encounter.current_turn_index == pre.encounter.current_turn_index
                &&& post.encounter.round_number == pre.encounter.round_number
                &&& post.templates == pre.templates
                &&& post.should_quit == pre.should_quit
            }

/// Everything the corresponding action fixes on its success path.
pub open spec fn from_template_outcome(pre: App, template_index: usize, post: App) -> bool {
                let tpl = pre.templates@[template_index as int];
                &&& (post.input_mode matches InputMode::AddingCombatant(st) && st.step == 1
                    && st.name@ == tpl.name@ && st.initiative@.len() == 0 && st.hp@ == dec_int(
                    tpl.hp_max as int,
                ) && st.ac@ == dec_int(tpl.armor_class as int) && st.is_player@ == (if tpl.is_player {
                    "y"@
                } else {
                    "n"@
                }))
                &&& (post.message matches Some(m) && m@ == msg_template_initiative(
                    tpl.name@,
                ))
                &&& post.encounter == pre.encounter
                &&& post.log == pre.log
                &&& post.templates == pre.templates
                &&& post.should_quit == pre.should_quit
            }

/// Everything the corresponding action fixes on its success path.
pub open spec fn save_template_outcome(pre: App, combatant_index: usize, post: App) -> bool {
                let c0 = pre.encounter.combatants@[combatant_index as int];
                let k = find_template(pre.templates@, lower_of(c0.name@));
                let stored = if k >= 0 {
                    post.templates@[k]
                } else {
                    post.templates@.last()
                };
                &&& stored.name@ == c0.name@
                &&& stored.hp_max == c0.hp_max
                &&& stored.armor_class == c0.armor_class
                &&& stored.initiative == c0.initiative
                &&& stored.is_player == c0.is_player
                &&& (k >= 0 ==> post.templates@ == pre.templates@.update(k, stored))
                &&& (k < 0 ==> post.templates@ == pre.templates@.push(stored))
                &&& post.input_mode is Normal
                &&& (post.message matches Some(m) && m@ == msg_saved_template(c0.name@))
                &&& post.encounter == pre.encounter
                &&& post.log == pre.log
                &&& post.should_quit == pre.should_quit
            }

/// Everything the corresponding action fixes on its success path.
pub open spec fn add_combatant_outcome(pre: App, state: AddCombatantState, post: App) -> bool {
                let init = int_literal_val(state.initiative@);
                let hp = int_literal_val(state.hp@);
                let ac = int_literal_val(state.ac@);
                let is_p = lower_of(state.is_player@) == "y"@ || lower_of(state.is_player@)
                    == "yes"@;
                &&& post.encounter.combatants@.len() == pre.encounter.combatants@.len() + 1
                &&& exists|k: int|
                    {
                        &&& 0 <= k < post.encounter.combatants@.len()
                        &&& (#[trigger] post.encounter.combatants@[k]).name@ == state.name@
                        &&& post.encounter.combatants@[k].initiative == init
                        &&& post.encounter.combatants@[k].hp_max == hp
                        &&& post.encounter.combatants@[k].hp_current == hp
                        &&& post.encounter.combatants@[k].temp_hp == 0
                        &&& post.encounter.combatants@[k].armor_class == ac
                        &&& post.encounter.combatants@[k].is_player == is_p
                        &&& post.encounter.combatants@[k].status_effects@.len() == 0
                        &&& post.encounter.combatants@[k].death_saves is None
                        &&& post.encounter.combatants@[k].concentration is None
                        &&& (forall|i: int|
                            0 <= i < k ==> (#[trigger] pre.encounter.combatants@[i]).initiative >= init)
                        &&& (k < pre.encounter.combatants@.len() ==> pre.encounter.combatants@[k].initiative < init)
                        &&& post.encounter.combatants@ == pre.encounter.combatants@.subrange(0, k).push(
                            post.encounter.combatants@[k],
                        ) + pre.encounter.combatants@.skip(k)
                    }
                &&& post.encounter.current_turn_index == (if pre.encounter.combatants@.len() == 0 {
                    0
                } else {
                    pre.encounter.current_turn_index as int
                })
                &&& post.encounter.round_number == pre.encounter.round_number
                &&& post.input_mode is Normal
                &&& (post.message matches Some(m) && m@ == msg_added_combatant(state.name@))
                &&& log_advanced(
                    pre.log@,
                    pre.encounter.round_number,
                    log_added_combatant(state.name@, hp, ac, init, is_p),
                    post.log@,
                )
                &&& post.templates == pre.templates
                &&& post.should_quit == pre.should_quit
            }

/// Everything a rolled death save fixes on its success path.
pub open spec fn death_save_roll_outcome(pre: App, index: usize, roll: i32, post: App) -> bool {
    let c0 = pre.encounter.combatants@[index as int];
    let c1 = post.encounter.combatants@[index as int];
    &&& post.encounter.combatants@ == pre.encounter.combatants@.update(index as int, c1)
    &&& c1.same_identity(c0)
    &&& c1.temp_hp == c0.temp_hp
    &&& c1.status_effects == c0.status_effects
    &&& c1.concentration == c0.concentration
    &&& (roll == 20 ==> c1.hp_current == 1 && c1.death_saves is None)
    &&& (roll != 20 ==> c1.hp_current == c0.hp_current && c1.death_saves == Some(
        Combatant::rolled_saves(saves_or_fresh(c0), roll as int),
    ))
    &&& post.input_mode is Normal
    &&& (post.message matches Some(m) && m@ == death_save_roll_message(c0, roll as int))
    &&& log_advanced(
        pre.log@,
        pre.encounter.round_number,
        death_save_roll_message(c0, roll as int),
        post.log@,
    )
    &&& post.encounter.current_turn_index == pre.encounter.current_turn_index
    &&& post.encounter.round_number == pre.encounter.round_number
    &&& post.templates == pre.templates
    &&& post.should_quit == pre.should_quit
}

/// Everything clearing one selected status effect fixes.
pub open spec fn clear_one_status_outcome(
    pre: App,
    combatant_index: usize,
    idx: usize,
    post: App,
) -> bool {
    let c0 = pre.encounter.combatants@[combatant_index as int];
    let c1 = post.encounter.combatants@[combatant_index as int];
    &&& post.encounter.combatants@ == pre.encounter.combatants@.update(combatant_index as int, c1)
    &&& c1.same_identity(c0)
    &&& c1.hp_current == c0.hp_current
    &&& c1.temp_hp == c0.temp_hp
    &&& c1.death_saves == c0.death_saves
    &&& c1.concentration == c0.concentration
    &&& c1.status_effects@ == c0.status_effects@.remove(idx as int)
    &&& post.input_mode is Normal
    &&& (post.message matches Some(m) && m@ == msg_removed_status(
        c0.status_effects@[idx as int].condition,
        c0.name@,
    ))
}

/// Everything clearing all of one combatant's status effects fixes.
pub open spec fn clear_all_statuses_outcome(pre: App, combatant_index: usize, post: App) -> bool {
    let c0 = pre.encounter.combatants@[combatant_index as int];
    let c1 = post.encounter.combatants@[combatant_index as int];
    &&& post.encounter.combatants@ == pre.encounter.combatants@.update(combatant_index as int, c1)
    &&& c1.same_identity(c0)
    &&& c1.hp_current == c0.hp_current
    &&& c1.temp_hp == c0.temp_hp
    &&& c1.death_saves == c0.death_saves
    &&& c1.concentration == c0.concentration
    &&& c1.status_effects@.len() == 0
    &&& post.input_mode is Normal
    &&& (post.message matches Some(m) && m@ == (if c0.status_effects@.len() == 0 {
        msg_no_status_effects(c0.name@)
    } else {
        msg_cleared_status_effects(c0.name@)
    }))
}

/// One typed initiative was recorded and the walk moved to the next
/// blueprint combatant.
pub open spec fn initiative_recorded(
    pre: App,
    st: LoadLibraryState,
    initiative: Seq<char>,
    post: App,
) -> bool {
    &&& (post.input_mode matches InputMode::SettingLibraryInitiatives(st2) && st2.template
        == st.template && st2.current_index == st.current_index + 1
        && st2.combatants_with_init@.len() == st.combatants_with_init@.len() && (forall|j: int|
        0 <= j < st.combatants_with_init@.len() && j != st.current_index
            ==> #[trigger] st2.combatants_with_init@[j] == st.combatants_with_init@[j])
        && st2.combatants_with_init@[st.current_index as int].0
            == st.combatants_with_init@[st.current_index as int].0
        && st2.combatants_with_init@[st.current_index as int].1@ == dec_int(
        int_literal_val(initiative),
    ))
    &&& post.encounter == pre.encounter
    &&& post.log == pre.log
    &&& post.message == pre.message
    &&& post.templates == pre.templates
    &&& post.should_quit == pre.should_quit
    &&& post.saved_encounter_files == pre.saved_encounter_files
    &&& post.library_files == pre.library_files
}

/// The bulk commit at the end of the initiative walk: the roster is
/// rebuilt with one fresh combatant per blueprint pair — the walked
/// pairs with the last typed initiative recorded — sorted, at round one,
/// and the load is reported in a cleared log.
pub open spec fn library_committed(
    pre: App,
    st: LoadLibraryState,
    initiative: Seq<char>,
    post: App,
) -> bool {
    &&& post.templates == pre.templates
    &&& post.should_quit == pre.should_quit
    &&& post.saved_encounter_files == pre.saved_encounter_files
    &&& post.library_files == pre.library_files
    &&& post.input_mode is Normal
    &&& post.encounter.wf()
    &&& post.encounter.combatants@.len() == st.combatants_with_init@.len()
    &&& exists|pairs2: Seq<(LibraryCombatant, String)>|
        {
            &&& pairs2.len() == st.combatants_with_init@.len()
            &&& (forall|j: int|
                0 <= j < pairs2.len() && j != st.current_index ==> #[trigger] pairs2[j]
                    == st.combatants_with_init@[j])
            &&& pairs2[st.current_index as int].0
                == st.combatants_with_init@[st.current_index as int].0
            &&& pairs2[st.current_index as int].1@ == dec_int(int_literal_val(initiative))
            &&& #[trigger] all_fresh_from(post.encounter.combatants@, pairs2)
        }
    &&& post.encounter.round_number == 1
    &&& post.encounter.current_turn_index == 0
    &&& (post.message matches Some(m) && m@ == msg_loaded_library(st.template.name@))
    &&& log_advanced(
        Seq::<crate::log::LogEntry>::empty(),
        1u32,
        log_loaded_library(st.template.name@),
        post.log@,
    )
}

/// The blueprint the save-to-library wizard builds: the trimmed
/// metadata over the stripped stat blocks of the current roster.
pub open spec fn library_blueprint_built(pre: App, state: SaveLibraryState, t: EncounterTemplate) -> bool {
    &&& t.name@ == spec_trimmed(state.name@)
    &&& t.description@ == spec_trimmed(state.description@)
    &&& t.difficulty@ == spec_trimmed(state.difficulty@)
    &&& t.combatants@.len() == pre.encounter.combatants@.len()
    &&& forall|i: int|
        0 <= i < t.combatants@.len() ==> crate::persistence::is_blueprint_of(
            #[trigger] t.combatants@[i],
            pre.encounter.combatants@[i],
        )
}

impl App {
    /// Applies damage to the selected combatant: the temporary pool
    /// absorbs first; a player dropping to zero starts death saves and
    /// one already down takes an automatic failure; dropping unconscious
    /// clears concentration, while a conscious concentrator is handed a
    /// required check instead of a closing report.
    pub fn complete_deal_damage(&mut self, index: usize, damage: i32) -> (r: Result<(), String>)
        requires
            old(self).wf(),
            damage >= 0,
        ensures
            final(self).wf(),
            index >= old(self).encounter.combatants@.len() ==> (r matches Err(e) && e@
                == msg_invalid_index()) && *final(self) == *old(self),
            index < old(self).encounter.combatants@.len() ==> r is Ok && deal_damage_outcome(*old(self), index, damage, *final(self)),
    {
        if index >= self.encounter.combatants.len() {
            return Err(String::from_str("Invalid combatant index"));
        }
        let ghost c0 = self.encounter.combatants@[index as int];
        let mut combatant = self.encounter.combatants.remove(index);
        let was_unconscious = combatant.is_unconscious();
        let had_concentration = combatant.concentration.is_some();
        let spell: String = match &combatant.concentration {
            Some(ci) => ci.spell_name.clone(),
            None => String::new(),
        };
        combatant.take_damage(damage);
        let name = combatant.name.clone();
        let hp = combatant.hp_current;
        let mut extra: Option<String> = None;
        if combatant.is_player {
            if !was_unconscious && combatant.is_unconscious() {
                combatant.ensure_death_saves();
                extra = Some(name.clone().concat(" is down and starts making death saves."));
            } else if was_unconscious && combatant.is_unconscious() {
                match combatant.fail_death_save_from_damage() {
                    DeathSaveOutcome::Died => {
                        extra = Some(name.clone().concat(" takes damage at 0 HP and dies."));
                    },
                    DeathSaveOutcome::Ongoing => {
                        match &combatant.death_saves {
                            Some(ds) => {
                                let m = name.clone().concat(
                                    " takes damage at 0 HP (Death Saves F",
                                ).concat(i32_to_string(ds.failures as i32).as_str()).concat(
                                    "/S",
                                ).concat(i32_to_string(ds.successes as i32).as_str()).concat(")");
                                proof {
                                    assert(m@ =~= msg_down_progress(
                                        c0.name@,
                                        deal_damage_saves(c0, damage as int).unwrap().failures as int,
                                        deal_damage_saves(c0, damage as int).unwrap().successes as int,
                                    ));
                                }
                                extra = Some(m);
                            },
                            None => {},
                        }
                    },
                    _ => {},
                }
            }
        }
        let now_unconscious = combatant.is_unconscious();
        if now_unconscious {
            combatant.clear_concentration();
        }
        proof {
            assert(combatant.wf());
        }
        self.encounter.combatants.insert(index, combatant);
        proof {
            assert(self.encounter.combatants@ =~= old(self).encounter.combatants@.update(
                index as int,
                self.encounter.combatants@[index as int],
            ));
            lemma_replace_keeps_wf(
                old(self).encounter,
                self.encounter,
                index as int,
                self.encounter.combatants@[index as int],
            );
        }
        if !now_unconscious && had_concentration {
            let dc: i32 = if damage / 2 > 10 {
                damage / 2
            } else {
                10
            };
            self.input_mode = InputMode::ConcentrationCheck(
                ConcentrationCheckState { combatant_index: index, dc, input: String::new() },
            );
            let m = name.clone().concat(" took damage while concentrating on ").concat(
                spell.as_str(),
            ).concat(". Roll CON save (DC ").concat(i32_to_string(dc).as_str()).concat(").");
            proof {
                assert(m@ =~= msg_concentration_check(c0.name@, spell_of(c0), spec_dc(damage as int)));
            }
            self.set_message(m);
            return Ok(());
        }
        self.input_mode = InputMode::Normal;
        let base = name.clone().concat(" took ").concat(i32_to_string(damage).as_str()).concat(
            " damage (HP: ",
        ).concat(i32_to_string(hp).as_str()).concat(")");
        proof {
            assert(base@ =~= msg_damage_base(c0.name@, damage as int, damaged_hp(c0, damage as int)));
        }
        let msg = match extra {
            Some(e) => {
                let m = base.clone().concat(" | ").concat(e.as_str());
                proof {
                    assert(m@ =~= deal_damage_message(c0, damage as int));
                }
                m
            },
            None => base.clone(),
        };
        self.set_message(msg);
        self.push_log(base);
        Ok(())
    }

    /// Heals the selected combatant, capped at its maximum; reaching
    /// positive hit points clears any death-save record.
    pub fn complete_heal(&mut self, index: usize, amount: i32) -> (r: Result<(), String>)
        requires
            old(self).wf(),
            amount >= 0,
        ensures
            final(self).wf(),
            index >= old(self).encounter.combatants@.len() ==> (r matches Err(e) && e@
                == msg_invalid_index()) && *final(self) == *old(self),
            index < old(self).encounter.combatants@.len() ==> r is Ok && heal_outcome(*old(self), index, amount, *final(self)),
    {
        if index >= self.encounter.combatants.len() {
            return Err(String::from_str("Invalid combatant index"));
        }
        let ghost c0 = self.encounter.combatants@[index as int];
        let mut combatant = self.encounter.combatants.remove(index);
        combatant.heal(amount);
        let name = combatant.name.clone();
        let hp = combatant.hp_current;
        self.encounter.combatants.insert(index, combatant);
        proof {
            assert(self.encounter.combatants@ =~= old(self).encounter.combatants@.update(
                index as int,
                self.encounter.combatants@[index as int],
            ));
            lemma_replace_keeps_wf(
                old(self).encounter,
                self.encounter,
                index as int,
                self.encounter.combatants@[index as int],
            );
        }
        self.input_mode = InputMode::Normal;
        let msg = name.concat(" healed ").concat(i32_to_string(amount).as_str()).concat(
            " HP (HP: ",
        ).concat(i32_to_string(hp).as_str()).concat(")");
        proof {
            assert(msg@ =~= msg_healed(c0.name@, amount as int, healed_hp(c0, amount as int)));
        }
        self.set_message(msg.clone());
        self.push_log(msg);
        Ok(())
    }

    /// Grants temporary hit points; the larger of the existing pool and
    /// the grant wins, never their sum.
    pub fn complete_grant_temp_hp(&mut self, index: usize, amount: i32) -> (r: Result<(), String>)
        requires
            old(self).wf(),
        ensures
            final(self).wf(),
            index >= old(self).encounter.combatants@.len() ==> (r matches Err(e) && e@
                == msg_invalid_index()) && *final(self) == *old(self),
            index < old(self).encounter.combatants@.len() && amount < 0 ==> (r matches Err(e) && e@
                == "Temp HP must be non-negative"@) && *final(self) == *old(self),
            index < old(self).encounter.combatants@.len() && amount >= 0 ==> r is Ok && grant_temp_hp_outcome(*old(self), index, amount, *final(self)),
    {
        if index >= self.encounter.combatants.len() {
            return Err(String::from_str("Invalid combatant index"));
        }
        if amount < 0 {
            return Err(String::from_str("Temp HP must be non-negative"));
        }
        let ghost c0 = self.encounter.combatants@[index as int];
        let mut combatant = self.encounter.combatants.remove(index);
        let name = combatant.name.clone();
        combatant.grant_temp_hp(amount);
        self.encounter.combatants.insert(index, combatant);
        proof {
            assert(self.encounter.combatants@ =~= old(self).encounter.combatants@.update(
                index as int,
                self.encounter.combatants@[index as int],
            ));
            lemma_replace_keeps_wf(
                old(self).encounter,
                self.encounter,
                index as int,
                self.encounter.combatants@[index as int],
            );
        }
        self.input_mode = InputMode::Normal;
        let msg = name.concat(" gains ").concat(i32_to_string(amount).as_str()).concat(" temp HP");
        proof {
            assert(msg@ =~= msg_temp_hp(c0.name@, amount as int));
        }
        self.set_message(msg.clone());
        self.push_log(msg);
        Ok(())
    }

    /// Attaches a status effect; an effect of a condition the combatant
    /// already carries replaces the old entry instead of stacking.
    pub fn complete_add_status(
        &mut self,
        combatant_index: usize,
        condition: ConditionType,
        duration: i32,
    ) -> (r: Result<(), String>)
        requires
            old(self).wf(),
        ensures
            final(self).wf(),
            combatant_index >= old(self).encounter.combatants@.len() ==> (r matches Err(e) && e@
                == msg_invalid_index()) && *final(self) == *old(self),
            combatant_index < old(self).encounter.combatants@.len() ==> r is Ok && add_status_outcome(*old(self), combatant_index, condition, duration, *final(self)),
    {
        if combatant_index >= self.encounter.combatants.len() {
            return Err(String::from_str("Invalid combatant index"));
        }
        let ghost c0 = self.encounter.combatants@[combatant_index as int];
        let effect = StatusEffect::new(condition, duration, None);
        let mut combatant = self.encounter.combatants.remove(combatant_index);
        combatant.add_status_effect(effect);
        let name = combatant.name.clone();
        self.encounter.combatants.insert(combatant_index, combatant);
        proof {
            assert(self.encounter.combatants@ =~= old(self).encounter.combatants@.update(
                combatant_index as int,
                self.encounter.combatants@[combatant_index as int],
            ));
            lemma_replace_keeps_wf(
                old(self).encounter,
                self.encounter,
                combatant_index as int,
                self.encounter.combatants@[combatant_index as int],
            );
        }
        self.input_mode = InputMode::Normal;
        let shown = String::from_str("Added ").concat(condition.as_str()).concat(" to ").concat(
            name.as_str(),
        ).concat(" for ").concat(i32_to_string(duration).as_str()).concat(" rounds");
        proof {
            assert(shown@ =~= msg_status_added(condition, c0.name@, duration as int));
        }
        self.set_message(shown);
        let logged = if duration >= 0 {
            name.clone().concat(" gains ").concat(condition.as_str()).concat(" for ").concat(
                i32_to_string(duration).as_str(),
            ).concat(" rounds")
        } else {
            name.clone().concat(" gains ").concat(condition.as_str()).concat(" for ").concat(
                "indefinite",
            )
        };
        proof {
            assert(logged@ =~= msg_status_gained(condition, c0.name@, duration as int));
        }
        self.push_log(logged);
        Ok(())
    }

    /// Removes the selected combatant from the roster entirely.
    pub fn complete_remove(&mut self, index: usize) -> (r: Result<(), String>)
        requires
            old(self).wf(),
        ensures
            final(self).wf(),
            index >= old(self).encounter.combatants@.len() ==> (r matches Err(e) && e@
                == msg_invalid_index()) && *final(self) == *old(self),
            index < old(self).encounter.combatants@.len() ==> r is Ok && remove_outcome(*old(self), index, *final(self)),
    {
        if index >= self.encounter.combatants.len() {
            return Err(String::from_str("Invalid combatant index"));
        }
        let name = self.encounter.combatants[index].name.clone();
        self.encounter.remove_combatant(index);
        self.input_mode = InputMode::Normal;
        let msg = String::from_str("Removed combatant: ").concat(name.as_str());
        self.set_message(msg.clone());
        self.push_log(msg);
        Ok(())
    }

    /// Applies one rolled death save to the selected combatant: only a
    /// player at zero hit points who is not already dead may roll; a
    /// natural 20 revives at one hit point, ten or more is a success,
    /// a one counts as two failures, anything else as one.
    pub fn complete_death_save_roll(&mut self, index: usize, roll: i32) -> (r: Result<(), String>)
        requires
            old(self).wf(),
        ensures
            final(self).wf(),
            index >= old(self).encounter.combatants@.len() ==> (r matches Err(e) && e@
                == msg_invalid_index()) && *final(self) == *old(self),
            index < old(self).encounter.combatants@.len() ==> {
                let c0 = old(self).encounter.combatants@[index as int];
                if !c0.is_player {
                    (r matches Err(e) && e@ == "Only player characters roll death saves"@)
                        && *final(self) == *old(self)
                } else if c0.hp_current > 0 {
                    (r matches Err(e) && e@ == "Combatant is not at 0 HP"@) && *final(self) == *old(
                        self,
                    )
                } else if c0.spec_is_dead() {
                    (r matches Err(e) && e@ == "Combatant is already dead"@) && *final(self)
                        == *old(self)
                } else {
                    r is Ok && death_save_roll_outcome(*old(self), index, roll, *final(self))
                }
            },
    {
        if index >= self.encounter.combatants.len() {
            return Err(String::from_str("Invalid combatant index"));
        }
        let ghost c0 = self.encounter.combatants@[index as int];
        if !self.encounter.combatants[index].is_player {
            return Err(String::from_str("Only player characters roll death saves"));
        }
        if self.encounter.combatants[index].hp_current > 0 {
            return Err(String::from_str("Combatant is not at 0 HP"));
        }
        if self.encounter.combatants[index].is_dead() {
            return Err(String::from_str("Combatant is already dead"));
        }
        let mut combatant = self.encounter.combatants.remove(index);
        let name = combatant.name.clone();
        let outcome = combatant.apply_death_save_roll(roll);
        let message = match outcome {
            DeathSaveOutcome::Revived => name.clone().concat(
                " rolled a 20 and regains consciousness at 1 HP!",
            ),
            DeathSaveOutcome::Stabilized => {
                let (s, f): (i32, i32) = match &combatant.death_saves {
                    Some(d) => (d.successes as i32, d.failures as i32),
                    None => (3, 0),
                };
                name.clone().concat(" succeeds the death save and is now stable (S").concat(
                    i32_to_string(s).as_str(),
                ).concat("/F").concat(i32_to_string(f).as_str()).concat(")")
            },
            DeathSaveOutcome::Died => name.clone().concat(
                " failed too many death saves and has died.",
            ),
            DeathSaveOutcome::Ongoing => {
                match &combatant.death_saves {
                    Some(d) => {
                        let (s, f): (i32, i32) = (d.successes as i32, d.failures as i32);
                        name.clone().concat(" death save result recorded (S").concat(
                            i32_to_string(s).as_str(),
                        ).concat("/F").concat(i32_to_string(f).as_str()).concat(")")
                    },
                    None => name.clone().concat(" death save recorded."),
                }
            },
        };
        proof {
            assert(message@ =~= death_save_roll_message(c0, roll as int));
        }
        self.encounter.combatants.insert(index, combatant);
        proof {
            assert(self.encounter.combatants@ =~= old(self).encounter.combatants@.update(
                index as int,
                self.encounter.combatants@[index as int],
            ));
            lemma_replace_keeps_wf(
                old(self).encounter,
                self.encounter,
                index as int,
                self.encounter.combatants@[index as int],
            );
        }
        self.input_mode = InputMode::Normal;
        self.set_message(message.clone());
        self.push_log(message);
        Ok(())
    }

    /// Finishes the add-combatant wizard: parses the numeric fields,
    /// requires a name, reads the player flag from a y/yes answer, and
    /// inserts the new combatant at its initiative rank.
    pub fn complete_add_combatant(&mut self, state: AddCombatantState) -> (r: Result<(), String>)
        requires
            old(self).wf(),
        ensures
            final(self).wf(),
            !spec_parses_i32(state.initiative@) ==> (r matches Err(e) && e@
                == "Invalid initiative value"@) && *final(self) == *old(self),
            spec_parses_i32(state.initiative@) && !(spec_parses_i32(state.hp@) && int_literal_val(
                state.hp@,
            ) >= 0) ==> (r matches Err(e) && e@ == "Invalid HP value"@) && *final(self) == *old(
                self,
            ),
            spec_parses_i32(state.initiative@) && spec_parses_i32(state.hp@) && int_literal_val(
                state.hp@,
            ) >= 0 && !spec_parses_i32(state.ac@) ==> (r matches Err(e) && e@
                == "Invalid AC value"@) && *final(self) == *old(self),
            spec_parses_i32(state.initiative@) && spec_parses_i32(state.hp@) && int_literal_val(
                state.hp@,
            ) >= 0 && spec_parses_i32(state.ac@) && state.name@.len() == 0 ==> (r matches Err(e)
                && e@ == "Name cannot be empty"@) && *final(self) == *old(self),
            spec_parses_i32(state.initiative@) && spec_parses_i32(state.hp@) && int_literal_val(
                state.hp@,
            ) >= 0 && spec_parses_i32(state.ac@) && state.name@.len() > 0 ==> r is Ok && add_combatant_outcome(*old(self), state, *final(self)),
    {
        let initiative = match parse_i32(state.initiative.as_str()) {
            Some(v) => v,
            None => {
                return Err(String::from_str("Invalid initiative value"));
            },
        };
        let hp = match parse_i32(state.hp.as_str()) {
            Some(v) => {
                if v < 0 {
                    return Err(String::from_str("Invalid HP value"));
                }
                v
            },
            None => {
                return Err(String::from_str("Invalid HP value"));
            },
        };
        let ac = match parse_i32(state.ac.as_str()) {
            Some(v) => v,
            None => {
                return Err(String::from_str("Invalid AC value"));
            },
        };
        let low = lowercase(state.is_player.as_str());
        let is_player = low == String::from_str("y") || low == String::from_str("yes");
        if state.name.as_str().is_empty() {
            return Err(String::from_str("Name cannot be empty"));
        }
        let combatant = Combatant::new(state.name.clone(), initiative, hp, ac, is_player);
        let ghost cnew = combatant;
        let ghost s0 = self.encounter.combatants@;
        self.encounter.add_combatant(combatant);
        proof {
            let k = choose|k: int|
                {
                    &&& 0 <= k <= s0.len()
                    &&& (forall|i: int| 0 <= i < k ==> (#[trigger] s0[i]).initiative >= cnew.initiative)
                    &&& (k < s0.len() ==> s0[k].initiative < cnew.initiative)
                    &&& self.encounter.combatants@ == s0.subrange(0, k).push(cnew) + s0.skip(k)
                };
            assert(self.encounter.combatants@[k] == cnew);
            assert((#[trigger] self.encounter.combatants@[k]).name@ == state.name@);
        }
        self.input_mode = InputMode::Normal;
        let msg = String::from_str("Added combatant: ").concat(state.name.as_str());
        self.set_message(msg);
        let logged = String::from_str("Added ").concat(state.name.as_str()).concat(" (HP ").concat(
            i32_to_string(hp).as_str(),
        ).concat(", AC ").concat(i32_to_string(ac).as_str()).concat(", Init ").concat(
            i32_to_string(initiative).as_str(),
        ).concat(", ").concat(
            if is_player {
                "PC"
            } else {
                "NPC"
            },
        ).concat(")");
        proof {
            assert(logged@ =~= log_added_combatant(
                state.name@,
                hp as int,
                ac as int,
                initiative as int,
                is_player,
            ));
        }
        self.push_log(logged);
        Ok(())
    }

    /// Attaches concentration to the selected combatant once the wizard
    /// has a spell name and a parsed constitution modifier.
    pub fn complete_apply_concentration(&mut self, state: AddConcentrationState) -> (r: Result<
        (),
        String,
    >)
        requires
            old(self).wf(),
        ensures
            final(self).wf(),
            state.combatant_index >= old(self).encounter.combatants@.len() ==> (r matches Err(e)
                && e@ == msg_invalid_index()) && *final(self) == *old(self),
            state.combatant_index < old(self).encounter.combatants@.len() && !spec_parses_i32(
                state.con_mod@,
            ) ==> (r matches Err(e) && e@ == "Invalid constitution modifier"@) && *final(self)
                == *old(self),
            state.combatant_index < old(self).encounter.combatants@.len() && spec_parses_i32(
                state.con_mod@,
            ) && all_ws(state.spell_name@) ==> (r matches Err(e) && e@
                == "Spell name cannot be empty"@) && *final(self) == *old(self),
            state.combatant_index < old(self).encounter.combatants@.len() && spec_parses_i32(
                state.con_mod@,
            ) && !all_ws(state.spell_name@) ==> r is Ok && apply_concentration_outcome(*old(self), state, *final(self)),
    {
        if state.combatant_index >= self.encounter.combatants.len() {
            return Err(String::from_str("Invalid combatant index"));
        }
        let con_mod = match parse_i32(state.con_mod.as_str()) {
            Some(v) => v,
            None => {
                return Err(String::from_str("Invalid constitution modifier"));
            },
        };
        proof {
            crate::text::lemma_trimmed_empty(state.spell_name@);
        }
        if trim_ws(state.spell_name.as_str()).is_empty() {
            return Err(String::from_str("Spell name cannot be empty"));
        }
        let ghost c0 = self.encounter.combatants@[state.combatant_index as int];
        let info = ConcentrationInfo::new(state.spell_name.clone(), con_mod);
        let mut combatant = self.encounter.combatants.remove(state.combatant_index);
        let name = combatant.name.clone();
        combatant.set_concentration(info);
        self.encounter.combatants.insert(state.combatant_index, combatant);
        proof {
            assert(self.encounter.combatants@ =~= old(self).encounter.combatants@.update(
                state.combatant_index as int,
                self.encounter.combatants@[state.combatant_index as int],
            ));
            lemma_replace_keeps_wf(
                old(self).encounter,
                self.encounter,
                state.combatant_index as int,
                self.encounter.combatants@[state.combatant_index as int],
            );
        }
        self.input_mode = InputMode::Normal;
        let msg = name.concat(" starts concentrating on ").concat(state.spell_name.as_str()).concat(
            ".",
        );
        proof {
            assert(msg@ =~= msg_concentrating(c0.name@, state.spell_name@));
        }
        self.set_message(msg.clone());
        self.push_log(msg);
        Ok(())
    }

    /// Resolves a required concentration check: meeting the difficulty
    /// class keeps the spell, failing it clears concentration.
    pub fn complete_concentration_check(
        &mut self,
        state: ConcentrationCheckState,
        roll_total: i32,
    ) -> (r: Result<(), String>)
        requires
            old(self).wf(),
        ensures
            final(self).wf(),
            state.combatant_index >= old(self).encounter.combatants@.len() ==> (r matches Err(e)
                && e@ == msg_invalid_index()) && *final(self) == *old(self),
            state.combatant_index < old(self).encounter.combatants@.len() && old(
                self,
            ).encounter.combatants@[state.combatant_index as int].concentration is None ==> (r
                matches Err(e) && e@ == "Combatant is not concentrating"@) && *final(self) == *old(
                self,
            ),
            state.combatant_index < old(self).encounter.combatants@.len() && old(
                self,
            ).encounter.combatants@[state.combatant_index as int].concentration is Some ==> r is Ok && concentration_check_outcome(*old(self), state, roll_total, *final(self)),
    {
        if state.combatant_index >= self.encounter.combatants.len() {
            return Err(String::from_str("Invalid combatant index"));
        }
        if self.encounter.combatants[state.combatant_index].concentration.is_none() {
            return Err(String::from_str("Combatant is not concentrating"));
        }
        let ghost c0 = self.encounter.combatants@[state.combatant_index as int];
        let mut combatant = self.encounter.combatants.remove(state.combatant_index);
        let spell: String = match &combatant.concentration {
            Some(ci) => ci.spell_name.clone(),
            None => String::new(),
        };
        let name = combatant.name.clone();
        let maintained = roll_total >= state.dc;
        if !maintained {
            combatant.clear_concentration();
        }
        self.encounter.combatants.insert(state.combatant_index, combatant);
        proof {
            assert(self.encounter.combatants@ =~= old(self).encounter.combatants@.update(
                state.combatant_index as int,
                self.encounter.combatants@[state.combatant_index as int],
            ));
            lemma_replace_keeps_wf(
                old(self).encounter,
                self.encounter,
                state.combatant_index as int,
                self.encounter.combatants@[state.combatant_index as int],
            );
        }
        self.input_mode = InputMode::Normal;
        let msg = if maintained {
            name.concat(" maintains concentration on ").concat(spell.as_str()).concat(
                " (roll ",
            ).concat(i32_to_string(roll_total).as_str()).concat(" vs DC ").concat(
                i32_to_string(state.dc).as_str(),
            ).concat(").")
        } else {
            name.concat(" fails concentration on ").concat(spell.as_str()).concat(" (roll ").concat(
                i32_to_string(roll_total).as_str(),
            ).concat(" vs DC ").concat(i32_to_string(state.dc).as_str()).concat(").")
        };
        proof {
            if maintained {
                assert(msg@ =~= msg_maintains_concentration(
                    c0.name@,
                    spell_of(c0),
                    roll_total as int,
                    state.dc as int,
                ));
            } else {
                assert(msg@ =~= msg_fails_concentration(
                    c0.name@,
                    spell_of(c0),
                    roll_total as int,
                    state.dc as int,
                ));
            }
        }
        self.set_message(msg);
        Ok(())
    }

    /// Detaches concentration from the selected combatant, reporting
    /// whether there was anything to clear.
    pub fn complete_clear_concentration(&mut self, index: usize) -> (r: Result<(), String>)
        requires
            old(self).wf(),
        ensures
            final(self).wf(),
            index >= old(self).encounter.combatants@.len() ==> (r matches Err(e) && e@
                == msg_invalid_index()) && *final(self) == *old(self),
            index < old(self).encounter.combatants@.len() ==> r is Ok && clear_concentration_outcome(*old(self), index, *final(self)),
    {
        if index >= self.encounter.combatants.len() {
            return Err(String::from_str("Invalid combatant index"));
        }
        let ghost c0 = self.encounter.combatants@[index as int];
        let mut combatant = self.encounter.combatants.remove(index);
        let name = combatant.name.clone();
        let msg = if combatant.concentration.is_some() {
            combatant.clear_concentration();
            name.concat(" stops concentrating.")
        } else {
            name.concat(" has no concentration to clear.")
        };
        self.encounter.combatants.insert(index, combatant);
        proof {
            assert(self.encounter.combatants@ =~= old(self).encounter.combatants@.update(
                index as int,
                self.encounter.combatants@[index as int],
            ));
            lemma_replace_keeps_wf(
                old(self).encounter,
                self.encounter,
                index as int,
                self.encounter.combatants@[index as int],
            );
        }
        self.set_message(msg);
        self.input_mode = InputMode::Normal;
        Ok(())
    }

    /// Clears one selected status effect, or all of them when no index
    /// is given.
    pub fn complete_clear_status_effect(
        &mut self,
        combatant_index: usize,
        status_index: Option<usize>,
    ) -> (r: Result<(), String>)
        requires
            old(self).wf(),
        ensures
            final(self).wf(),
            combatant_index >= old(self).encounter.combatants@.len() ==> (r matches Err(e) && e@
                == msg_invalid_index()) && *final(self) == *old(self),
            combatant_index < old(self).encounter.combatants@.len() ==> {
                let c0 = old(self).encounter.combatants@[combatant_index as int];
                match status_index {
                    Some(idx) => {
                        if idx < c0.status_effects@.len() {
                            r is Ok && clear_one_status_outcome(
                                *old(self),
                                combatant_index,
                                idx,
                                *final(self),
                            )
                        } else {
                            (r matches Err(e) && e@ == "Invalid status selection"@) && *final(self)
                                == *old(self)
                        }
                    },
                    None => r is Ok && clear_all_statuses_outcome(
                        *old(self),
                        combatant_index,
                        *final(self),
                    ),
                }
            },
            final(self).log == old(self).log,
            final(self).templates == old(self).templates,
            final(self).should_quit == old(self).should_quit,
            final(self).encounter.current_turn_index == old(self).encounter.current_turn_index,
            final(self).encounter.round_number == old(self).encounter.round_number,
    {
        if combatant_index >= self.encounter.combatants.len() {
            return Err(String::from_str("Invalid combatant index"));
        }
        if let Some(idx) = status_index {
            if idx >= self.encounter.combatants[combatant_index].status_effects.len() {
                return Err(String::from_str("Invalid status selection"));
            }
        }
        let ghost c0 = self.encounter.combatants@[combatant_index as int];
        let mut combatant = self.encounter.combatants.remove(combatant_index);
        let name = combatant.name.clone();
        let msg: String;
        match status_index {
            Some(idx) => {
                let cond = combatant.status_effects[idx].condition;
                combatant.remove_status_effect(idx);
                msg = String::from_str("Removed ").concat(cond.as_str()).concat(" from ").concat(
                    name.as_str(),
                ).concat(".");
                proof {
                    assert(msg@ =~= msg_removed_status(
                        c0.status_effects@[idx as int].condition,
                        c0.name@,
                    ));
                }
            },
            None => {
                if combatant.status_effects.is_empty() {
                    msg = name.clone().concat(" has no status effects to clear.");
                } else {
                    combatant.status_effects.clear();
                    msg = String::from_str("Cleared all status effects from ").concat(
                        name.as_str(),
                    ).concat(".");
                }
            },
        }
        self.encounter.combatants.insert(combatant_index, combatant);
        proof {
            assert(self.encounter.combatants@ =~= old(self).encounter.combatants@.update(
                combatant_index as int,
                self.encounter.combatants@[combatant_index as int],
            ));
            lemma_replace_keeps_wf(
                old(self).encounter,
                self.encounter,
                combatant_index as int,
                self.encounter.combatants@[combatant_index as int],
            );
        }
        self.set_message(msg);
        self.input_mode = InputMode::Normal;
        Ok(())
    }

    /// Starts the add-combatant wizard pre-filled from a stored
    /// template, asking only for the initiative roll.
    pub fn add_combatant_from_template(&mut self, template_index: usize) -> (r: Result<(), String>)
        requires
            old(self).wf(),
        ensures
            final(self).wf(),
            template_index >= old(self).templates@.len() ==> (r matches Err(e) && e@
                == "Invalid template selection"@) && *final(self) == *old(self),
            template_index < old(self).templates@.len() ==> r is Ok && from_template_outcome(*old(self), template_index, *final(self)),
    {
        if template_index >= self.templates.len() {
            return Err(String::from_str("Invalid template selection"));
        }
        let tpl = &self.templates[template_index];
        let state = AddCombatantState {
            step: 1,
            name: tpl.name.clone(),
            initiative: String::new(),
            hp: i32_to_string(tpl.hp_max),
            ac: i32_to_string(tpl.armor_class),
            is_player: if tpl.is_player {
                String::from_str("y")
            } else {
                String::from_str("n")
            },
        };
        let msg = String::from_str("Set initiative for template: ").concat(tpl.name.as_str());
        self.input_mode = InputMode::AddingCombatant(state);
        self.set_message(msg);
        Ok(())
    }

    /// Stores the selected combatant's stat block as a reusable
    /// template, replacing any stored template of the same name compared
    /// case-insensitively. The shell persists the template list
    /// afterwards.
    pub fn save_template_from_combatant(&mut self, combatant_index: usize) -> (r: Result<
        (),
        String,
    >)
        requires
            old(self).wf(),
        ensures
            final(self).wf(),
            combatant_index >= old(self).encounter.combatants@.len() ==> (r matches Err(e) && e@
                == msg_invalid_index()) && *final(self) == *old(self),
            combatant_index < old(self).encounter.combatants@.len() ==> r is Ok && save_template_outcome(*old(self), combatant_index, *final(self)),
    {
        if combatant_index >= self.encounter.combatants.len() {
            return Err(String::from_str("Invalid combatant index"));
        }
        let ghost c0 = self.encounter.combatants@[combatant_index as int];
        let ghost templates0 = self.templates@;
        let tpl = {
            let c = &self.encounter.combatants[combatant_index];
            CombatantTemplate::from_stats(
                c.name.clone(),
                c.initiative,
                c.hp_max,
                c.armor_class,
                c.is_player,
            )
        };
        let tname = tpl.name.clone();
        let target = lowercase(tname.as_str());
        proof {
            lemma_find_template(templates0, lower_of(c0.name@));
        }
        let n = self.templates.len();
        let mut i: usize = 0;
        let mut found: Option<usize> = None;
        while i < n && found.is_none()
            invariant
                0 <= i <= n,
                n == templates0.len(),
                self.templates@ == templates0,
                target@ == lower_of(c0.name@),
                found is None ==> (forall|j: int|
                    0 <= j < i ==> lower_of((#[trigger] templates0[j]).name@) != lower_of(c0.name@)),
                found matches Some(k) ==> 0 < i && k == i - 1 && k < n && lower_of(
                    templates0[k as int].name@,
                ) == lower_of(c0.name@) && (forall|j: int|
                    0 <= j < k ==> lower_of((#[trigger] templates0[j]).name@) != lower_of(c0.name@)),
            decreases n - i,
        {
            let low = lowercase(self.templates[i].name.as_str());
            if low == target {
                found = Some(i);
            }
            i += 1;
        }
        proof {
            lemma_find_template(templates0, lower_of(c0.name@));
        }
        match found {
            Some(k) => {
                proof {
                    assert(find_template(templates0, lower_of(c0.name@)) == k);
                }
                self.templates[k] = tpl;
            },
            None => {
                self.templates.push(tpl);
            },
        }
        self.input_mode = InputMode::Normal;
        let msg = String::from_str("Saved template: ").concat(tname.as_str());
        self.set_message(msg);
        Ok(())
    }

    /// Notes that the template list could not be written to disk after a
    /// template was saved in memory.
    pub fn note_template_write_error(&mut self, err: String)
        ensures
            *final(self) == (App { message: final(self).message, ..*old(self) }),
            final(self).message matches Some(m) && m@
                == "Saved template in memory but failed to write file: "@ + err@,
    {
        let msg = String::from_str("Saved template in memory but failed to write file: ").concat(
            err.as_str(),
        );
        self.set_message(msg);
    }
}

/// Two library combatants carrying the same stat block.
pub open spec fn lc_like(a: LibraryCombatant, b: LibraryCombatant) -> bool {
    &&& a.name@ == b.name@
    &&& a.hp_max == b.hp_max
    &&& a.armor_class == b.armor_class
    &&& a.is_player == b.is_player
}

pub open spec fn msg_saved_encounter(name: Seq<char>) -> Seq<char> {
    "Successfully saved encounter: "@ + name
}

pub open spec fn msg_save_encounter_failed(err: Seq<char>) -> Seq<char> {
    "Failed to save encounter: "@ + err
}

pub open spec fn msg_loaded_encounter(name: Seq<char>) -> Seq<char> {
    "Successfully loaded encounter: "@ + name
}

pub open spec fn msg_load_encounter_failed(err: Seq<char>) -> Seq<char> {
    "Failed to load encounter: "@ + err
}

pub open spec fn msg_library_exists(name: Seq<char>) -> Seq<char> {
    "Library entry '"@ + name + "' already exists. Overwrite? (y/n)"@
}

pub open spec fn msg_saved_library(name: Seq<char>) -> Seq<char> {
    "Successfully saved to library: "@ + name
}

pub open spec fn msg_save_library_failed(err: Seq<char>) -> Seq<char> {
    "Failed to save library template: "@ + err
}

pub open spec fn msg_load_library_failed(err: Seq<char>) -> Seq<char> {
    "Failed to load library template: "@ + err
}

pub open spec fn msg_loaded_library(name: Seq<char>) -> Seq<char> {
    "Loaded encounter from library: "@ + name
}

pub open spec fn log_loaded_library(name: Seq<char>) -> Seq<char> {
    "Loaded encounter '"@ + name + "' from library"@
}

/// Whether a stored library entry of this name is in the listing.
pub open spec fn spec_library_has(files: Seq<String>, name: Seq<char>) -> bool {
    exists|i: int| 0 <= i < files.len() && (#[trigger] files[i])@ == name
}

impl App {
    /// Validates the file name for a saved encounter: non-blank, and
    /// only letters, digits, underscore and hyphen. On success the shell
    /// writes the snapshot and reports back through
    /// `finish_save_encounter`.
    pub fn complete_save_encounter(&mut self, filename: &str) -> (r: Result<(), String>)
        requires
            old(self).wf(),
        ensures
            final(self).wf(),
            *final(self) == *old(self),
            all_ws(filename@) ==> (r matches Err(e) && e@ == "Filename cannot be empty"@),
            !all_ws(filename@) && !all_name_chars(filename@) ==> (r matches Err(e) && e@
                == "Filename can only contain letters, numbers, underscore, and hyphen"@),
            !all_ws(filename@) && all_name_chars(filename@) ==> r is Ok,
    {
        proof {
            crate::text::lemma_trimmed_empty(filename@);
        }
        if trim_ws(filename).is_empty() {
            return Err(String::from_str("Filename cannot be empty"));
        }
        if !is_valid_name(filename) {
            return Err(
                String::from_str("Filename can only contain letters, numbers, underscore, and hyphen"),
            );
        }
        Ok(())
    }

    /// Takes the shell's report of the write: a success or failure
    /// message either way, and back to the idle mode.
    pub fn finish_save_encounter(&mut self, filename: &str, written: Result<(), String>) -> (r:
        Result<(), String>)
        ensures
            *final(self) == (App {
                input_mode: InputMode::Normal,
                message: final(self).message,
                ..*old(self)
            }),
            written matches Ok(()) ==> r is Ok && (final(self).message matches Some(m) && m@
                == msg_saved_encounter(filename@)),
            written matches Err(err) ==> (r matches Err(e) && e@ == err@) && (final(self).message
                matches Some(m) && m@ == msg_save_encounter_failed(err@)),
    {
        let r = match written {
            Ok(()) => {
                self.set_message(
                    String::from_str("Successfully saved encounter: ").concat(filename),
                );
                Ok(())
            },
            Err(err) => {
                self.set_message(
                    String::from_str("Failed to save encounter: ").concat(err.as_str()),
                );
                Err(err)
            },
        };
        self.input_mode = InputMode::Normal;
        r
    }

    /// Takes the shell's attempt to read a saved encounter and installs
    /// it: the whole roster, cursor, round and log are restored exactly
    /// as saved. A record that parses but breaks the engine's
    /// invariants is refused as corrupt.
    pub fn complete_load_encounter(&mut self, filename: &str, loaded: Result<
        SavedEncounter,
        String,
    >) -> (r: Result<(), String>)
        requires
            old(self).wf(),
        ensures
            final(self).wf(),
            final(self).input_mode is Normal,
            loaded matches Ok(saved) ==> ((saved.encounter.wf() && saved.log@.len() <= 200)
                ==> {
                &&& r is Ok
                &&& final(self).encounter == saved.encounter
                &&& final(self).log == saved.log
                &&& (final(self).message matches Some(m) && m@ == msg_loaded_encounter(filename@))
                &&& final(self).templates == old(self).templates
                &&& final(self).should_quit == old(self).should_quit
            }),
            loaded matches Ok(saved) ==> (!(saved.encounter.wf() && saved.log@.len() <= 200)
                ==> {
                &&& (r matches Err(e) && e@ == "Encounter file is corrupted"@)
                &&& final(self).encounter == old(self).encounter
                &&& final(self).log == old(self).log
                &&& (final(self).message matches Some(m) && m@ == msg_load_encounter_failed(
                    "Encounter file is corrupted"@,
                ))
            }),
            loaded matches Err(err) ==> {
                &&& (r matches Err(e) && e@ == err@)
                &&& final(self).encounter == old(self).encounter
                &&& final(self).log == old(self).log
                &&& (final(self).message matches Some(m) && m@ == msg_load_encounter_failed(err@))
            },
    {
        match loaded {
            Ok(saved) => {
                if saved.encounter.check_wf() && saved.log.len() <= 200 {
                    self.encounter = saved.encounter;
                    self.log = saved.log;
                    self.set_message(
                        String::from_str("Successfully loaded encounter: ").concat(filename),
                    );
                    self.input_mode = InputMode::Normal;
                    Ok(())
                } else {
                    self.set_message(
                        String::from_str("Failed to load encounter: ").concat(
                            "Encounter file is corrupted",
                        ),
                    );
                    self.input_mode = InputMode::Normal;
                    Err(String::from_str("Encounter file is corrupted"))
                }
            },
            Err(err) => {
                self.set_message(
                    String::from_str("Failed to load encounter: ").concat(err.as_str()),
                );
                self.input_mode = InputMode::Normal;
                Err(err)
            },
        }
    }

    /// Builds the stripped library blueprint of the current roster: the
    /// stat blocks only, under the given trimmed metadata.
    fn build_library_template(
        &self,
        name: String,
        description: String,
        difficulty: String,
    ) -> (t: EncounterTemplate)
        ensures
            t.name == name,
            t.description == description,
            t.difficulty == difficulty,
            t.combatants@.len() == self.encounter.combatants@.len(),
            forall|i: int|
                0 <= i < t.combatants@.len() ==> crate::persistence::is_blueprint_of(
                    #[trigger] t.combatants@[i],
                    self.encounter.combatants@[i],
                ),
    {
        let mut combatants: Vec<LibraryCombatant> = Vec::new();
        let n = self.encounter.combatants.len();
        let mut i: usize = 0;
        while i < n
            invariant
                0 <= i <= n,
                n == self.encounter.combatants@.len(),
                combatants@.len() == i,
                forall|j: int|
                    0 <= j < i ==> crate::persistence::is_blueprint_of(
                        #[trigger] combatants@[j],
                        self.encounter.combatants@[j],
                    ),
            decreases n - i,
        {
            combatants.push(to_library_combatant(&self.encounter.combatants[i]));
            i += 1;
        }
        let created_at = unix_time_now();
        EncounterTemplate { name, description, difficulty, combatants, created_at }
    }

    /// Finishes the save-to-library wizard: validates and trims the
    /// metadata, asks for confirmation when an entry of that name
    /// already exists, and otherwise hands the shell the blueprint to
    /// store.
    pub fn complete_save_library(&mut self, state: SaveLibraryState) -> (r: Result<
        Option<EncounterTemplate>,
        String,
    >)
        requires
            old(self).wf(),
        ensures
            final(self).wf(),
            all_ws(state.name@) ==> (r matches Err(e) && e@ == "Name cannot be empty"@) && *final(self) == *old(self),
            !all_ws(state.name@) && !all_name_chars(state.name@) ==> (r matches Err(e) && e@
                == "Name can only contain letters, numbers, underscore, and hyphen"@) && *final(self) == *old(self),
            !all_ws(state.name@) && all_name_chars(state.name@) && all_ws(state.description@) ==> (
            r matches Err(e) && e@ == "Description cannot be empty"@) && *final(self) == *old(self),
            !all_ws(state.name@) && all_name_chars(state.name@) && !all_ws(state.description@)
                ==> {
                let name_t = spec_trimmed(state.name@);
                if spec_library_has(old(self).library_files@, name_t) {
                    &&& r matches Ok(t) && t is None
                    &&& (final(self).input_mode matches InputMode::ConfirmingLibraryOverwrite(st)
                        && st.step == state.step && st.name@ == name_t && st.description@
                        == spec_trimmed(state.description@) && st.difficulty@ == spec_trimmed(
                        state.difficulty@,
                    ))
                    &&& (final(self).message matches Some(m) && m@ == msg_library_exists(name_t))
                    &&& final(self).encounter == old(self).encounter
                    &&& final(self).log == old(self).log
                    &&& final(self).templates == old(self).templates
                    &&& final(self).should_quit == old(self).should_quit
                    &&& final(self).saved_encounter_files == old(self).saved_encounter_files
                    &&& final(self).library_files == old(self).library_files
                } else {
                    &&& r matches Ok(t) && (t matches Some(template) && library_blueprint_built(
                        *old(self),
                        state,
                        template,
                    ))
                    &&& *final(self) == *old(self)
                }
            },
    {
        proof {
            crate::text::lemma_trimmed_empty(state.name@);
            crate::text::lemma_trimmed_empty(state.description@);
        }
        if trim_ws(state.name.as_str()).is_empty() {
            return Err(String::from_str("Name cannot be empty"));
        }
        if !is_valid_name(state.name.as_str()) {
            return Err(
                String::from_str("Name can only contain letters, numbers, underscore, and hyphen"),
            );
        }
        if trim_ws(state.description.as_str()).is_empty() {
            return Err(String::from_str("Description cannot be empty"));
        }
        let name_t = trim_ws(state.name.as_str()).to_owned();
        let desc_t = trim_ws(state.description.as_str()).to_owned();
        let diff_t = trim_ws(state.difficulty.as_str()).to_owned();
        if library_template_exists(name_t.as_str(), &self.library_files) {
            let msg = String::from_str("Library entry '").concat(name_t.as_str()).concat(
                "' already exists. Overwrite? (y/n)",
            );
            self.input_mode = InputMode::ConfirmingLibraryOverwrite(
                SaveLibraryState {
                    step: state.step,
                    name: name_t,
                    description: desc_t,
                    difficulty: diff_t,
                },
            );
            self.set_message(msg);
            return Ok(None);
        }
        let template = self.build_library_template(name_t, desc_t, diff_t);
        Ok(Some(template))
    }

    /// Builds the blueprint to store once the user has confirmed the
    /// overwrite of an existing library entry.
    pub fn confirm_overwrite_library(&mut self, state: SaveLibraryState) -> (t: EncounterTemplate)
        requires
            old(self).wf(),
        ensures
            final(self).wf(),
            *final(self) == *old(self),
            t.name == state.name,
            t.description == state.description,
            t.difficulty == state.difficulty,
            t.combatants@.len() == old(self).encounter.combatants@.len(),
            forall|i: int|
                0 <= i < t.combatants@.len() ==> crate::persistence::is_blueprint_of(
                    #[trigger] t.combatants@[i],
                    old(self).encounter.combatants@[i],
                ),
    {
        self.build_library_template(state.name, state.description, state.difficulty)
    }

    /// Takes the shell's report of the library write.
    pub fn finish_save_library(&mut self, name: &str, written: Result<(), String>) -> (r: Result<
        (),
        String,
    >)
        ensures
            *final(self) == (App {
                input_mode: InputMode::Normal,
                message: final(self).message,
                ..*old(self)
            }),
            written matches Ok(()) ==> r is Ok && (final(self).message matches Some(m) && m@
                == msg_saved_library(name@)),
            written matches Err(err) ==> (r matches Err(e) && e@ == err@) && (final(self).message
                matches Some(m) && m@ == msg_save_library_failed(err@)),
    {
        let r = match written {
            Ok(()) => {
                self.set_message(String::from_str("Successfully saved to library: ").concat(name));
                Ok(())
            },
            Err(err) => {
                self.set_message(
                    String::from_str("Failed to save library template: ").concat(err.as_str()),
                );
                Err(err)
            },
        };
        self.input_mode = InputMode::Normal;
        r
    }

    pub fn cancel_library_overwrite(&mut self)
        ensures
            *final(self) == (App {
                input_mode: InputMode::Normal,
                message: final(self).message,
                ..*old(self)
            }),
            final(self).message matches Some(m) && m@ == "Save cancelled"@,
    {
        self.input_mode = InputMode::Normal;
        self.set_message(String::from_str("Save cancelled"));
    }

    pub fn cancel_library_load(&mut self)
        ensures
            *final(self) == (App {
                input_mode: InputMode::Normal,
                message: final(self).message,
                ..*old(self)
            }),
            final(self).message matches Some(m) && m@ == "Load cancelled"@,
    {
        self.input_mode = InputMode::Normal;
        self.set_message(String::from_str("Load cancelled"));
    }

    /// Decides whether a picked library entry can be loaded at once:
    /// over a non-empty roster the load must be confirmed first, so the
    /// pending name is parked in the confirmation mode. Returns whether
    /// the shell should read the entry now.
    pub fn select_library_template(&mut self, filename: String) -> (load_now: bool)
        requires
            old(self).wf(),
        ensures
            final(self).wf(),
            old(self).encounter.combatants@.len() == 0 ==> load_now && *final(self) == *old(self),
            old(self).encounter.combatants@.len() > 0 ==> !load_now && (final(self).input_mode
                matches InputMode::ConfirmingLibraryLoad(f) && f@ == filename@) && (final(self).message matches Some(m) && m@
                == "This will clear the current encounter. Continue? (y/n)"@) && final(self).encounter == old(self).encounter && final(self).log == old(self).log && final(self).templates == old(self).templates && final(self).should_quit == old(self).should_quit && final(self).saved_encounter_files == old(self).saved_encounter_files && final(self).library_files == old(self).library_files,
    {
        if self.encounter.combatants.is_empty() {
            true
        } else {
            self.input_mode = InputMode::ConfirmingLibraryLoad(filename);
            self.set_message(
                String::from_str("This will clear the current encounter. Continue? (y/n)"),
            );
            false
        }
    }

    /// Takes the shell's attempt to read a library blueprint and starts
    /// the initiative walk over its combatants; an unreadable or invalid
    /// blueprint is reported and the session returns to idle. A
    /// blueprint with no combatants commits at once, leaving an empty
    /// roster.
    pub fn confirm_load_library(&mut self, loaded: Result<EncounterTemplate, String>) -> (r: Result<
        (),
        String,
    >)
        requires
            old(self).wf(),
        ensures
            final(self).wf(),
            loaded matches Err(err) ==> {
                &&& (r matches Err(e) && e@ == err@)
                &&& (final(self).message matches Some(m) && m@ == msg_load_library_failed(err@))
                &&& final(self).input_mode is Normal
                &&& final(self).encounter == old(self).encounter
                &&& final(self).log == old(self).log
            },
            loaded matches Ok(template) ==> (!spec_blueprints_loadable(template.combatants@)
                ==> {
                &&& (r matches Err(e) && e@ == "Library file is corrupted"@)
                &&& (final(self).message matches Some(m) && m@ == msg_load_library_failed(
                    "Library file is corrupted"@,
                ))
                &&& final(self).input_mode is Normal
                &&& final(self).encounter == old(self).encounter
                &&& final(self).log == old(self).log
            }),
            loaded matches Ok(template) ==> ((spec_blueprints_loadable(template.combatants@)
                && template.combatants@.len() > 0) ==> {
                &&& r is Ok
                &&& (final(self).input_mode matches InputMode::SettingLibraryInitiatives(st)
                    && st.template == template && st.current_index == 0
                    && st.combatants_with_init@.len() == template.combatants@.len() && (forall|
                    i: int,
                |
                    0 <= i < st.combatants_with_init@.len() ==> lc_like(
                        (#[trigger] st.combatants_with_init@[i]).0,
                        template.combatants@[i],
                    ) && st.combatants_with_init@[i].1@.len() == 0))
                &&& final(self).encounter == old(self).encounter
                &&& final(self).log == old(self).log
            }),
            loaded matches Ok(template) ==> ((spec_blueprints_loadable(template.combatants@)
                && template.combatants@.len() == 0) ==> {
                &&& r is Ok
                &&& final(self).input_mode is Normal
                &&& final(self).encounter.combatants@.len() == 0
                &&& final(self).encounter.round_number == 1
                &&& (final(self).message matches Some(m) && m@ == msg_loaded_library(
                    template.name@,
                ))
            }),
    {
        match loaded {
            Ok(template) => {
                let n = template.combatants.len();
                let mut ok = true;
                let mut i: usize = 0;
                while i < n
                    invariant
                        0 <= i <= n,
                        n == template.combatants@.len(),
                        ok == (forall|j: int|
                            0 <= j < i ==> (#[trigger] template.combatants@[j]).hp_max >= 0),
                    decreases n - i,
                {
                    if template.combatants[i].hp_max < 0 {
                        ok = false;
                    }
                    i += 1;
                }
                if !ok {
                    self.set_message(
                        String::from_str("Failed to load library template: ").concat(
                            "Library file is corrupted",
                        ),
                    );
                    self.input_mode = InputMode::Normal;
                    return Err(String::from_str("Library file is corrupted"));
                }
                let mut pairs: Vec<(LibraryCombatant, String)> = Vec::new();
                let mut i: usize = 0;
                while i < n
                    invariant
                        0 <= i <= n,
                        n == template.combatants@.len(),
                        pairs@.len() == i,
                        forall|j: int|
                            0 <= j < i ==> lc_like(
                                (#[trigger] pairs@[j]).0,
                                template.combatants@[j],
                            ) && pairs@[j].1@.len() == 0,
                    decreases n - i,
                {
                    let lc = &template.combatants[i];
                    pairs.push(
                        (
                            LibraryCombatant {
                                name: lc.name.clone(),
                                hp_max: lc.hp_max,
                                armor_class: lc.armor_class,
                                is_player: lc.is_player,
                            },
                            String::new(),
                        ),
                    );
                    i += 1;
                }
                if n == 0 {
                    let state = LoadLibraryState {
                        template,
                        combatants_with_init: pairs,
                        current_index: 0,
                    };
                    self.finalize_library_load(state);
                    return Ok(());
                }
                self.input_mode = InputMode::SettingLibraryInitiatives(
                    LoadLibraryState { template, combatants_with_init: pairs, current_index: 0 },
                );
                Ok(())
            },
            Err(err) => {
                self.set_message(
                    String::from_str("Failed to load library template: ").concat(err.as_str()),
                );
                self.input_mode = InputMode::Normal;
                Err(err)
            },
        }
    }

    /// Records the typed initiative for the current blueprint combatant
    /// and steps to the next; after the last one the whole encounter is
    /// rebuilt in one commit.
    pub fn complete_library_initiative(&mut self, initiative: String) -> (r: Result<(), String>)
        requires
            old(self).wf(),
        ensures
            final(self).wf(),
            !(old(self).input_mode matches InputMode::SettingLibraryInitiatives(st)
                && st.current_index < st.combatants_with_init@.len()) ==> (r matches Err(e) && e@
                == "Not in library initiative setting mode"@),
            old(self).input_mode matches InputMode::SettingLibraryInitiatives(st)
                && st.current_index < st.combatants_with_init@.len() && !spec_parses_i32(
                initiative@,
            ) ==> (r matches Err(e) && e@ == "Invalid initiative value"@) && (final(self).message
                matches Some(m) && m@ == "Invalid initiative value"@) && final(self).input_mode
                == old(self).input_mode && final(self).encounter == old(self).encounter && final(self).log == old(self).log && final(self).templates == old(self).templates && final(self).should_quit == old(self).should_quit && final(self).saved_encounter_files == old(self).saved_encounter_files && final(self).library_files == old(self).library_files,
            old(self).input_mode matches InputMode::SettingLibraryInitiatives(st)
                && st.current_index < st.combatants_with_init@.len() && spec_parses_i32(
                initiative@,
            ) && st.current_index + 1 < st.combatants_with_init@.len() ==> r is Ok
                && initiative_recorded(
                *old(self),
                spec_setting_state(old(self).input_mode),
                initiative@,
                *final(self),
            ),
            old(self).input_mode matches InputMode::SettingLibraryInitiatives(st)
                && st.current_index < st.combatants_with_init@.len() && spec_parses_i32(
                initiative@,
            ) && st.current_index + 1 >= st.combatants_with_init@.len() ==> r is Ok
                && library_committed(
                *old(self),
                spec_setting_state(old(self).input_mode),
                initiative@,
                *final(self),
            ),
    {
        if !(matches!(&self.input_mode, InputMode::SettingLibraryInitiatives(_))) {
            return Err(String::from_str("Not in library initiative setting mode"));
        }
        let idx_ok = match &self.input_mode {
            InputMode::SettingLibraryInitiatives(st) => st.current_index
                < st.combatants_with_init.len(),
            _ => false,
        };
        if !idx_ok {
            return Err(String::from_str("Not in library initiative setting mode"));
        }
        let init_value = match parse_i32(initiative.as_str()) {
            Some(v) => v,
            None => {
                self.set_message(String::from_str("Invalid initiative value"));
                return Err(String::from_str("Invalid initiative value"));
            },
        };
        let mut taken = InputMode::Normal;
        core::mem::swap(&mut taken, &mut self.input_mode);
        match taken {
            InputMode::SettingLibraryInitiatives(st) => {
                let LoadLibraryState { template, combatants_with_init, current_index } = st;
                let mut pairs = combatants_with_init;
                let (lc, _discarded) = pairs.remove(current_index);
                pairs.insert(current_index, (lc, i32_to_string(init_value)));
                proof {
                    assert(pairs@ =~= spec_setting_state(old(self).input_mode)
                        .combatants_with_init@.update(
                        current_index as int,
                        pairs@[current_index as int],
                    ));
                }
                if current_index + 1 < pairs.len() {
                    self.input_mode = InputMode::SettingLibraryInitiatives(
                        LoadLibraryState {
                            template,
                            combatants_with_init: pairs,
                            current_index: current_index + 1,
                        },
                    );
                    Ok(())
                } else {
                    let ghost pairs2 = pairs@;
                    self.finalize_library_load(
                        LoadLibraryState { template, combatants_with_init: pairs, current_index },
                    );
                    proof {
                        assert(all_fresh_from(self.encounter.combatants@, pairs2));
                    }
                    Ok(())
                }
            },
            _ => Err(String::from_str("Not in library initiative setting mode")),
        }
    }

    /// The one batched commit: clears the roster and the log, then
    /// inserts a fresh combatant for every blueprint entry with its
    /// typed initiative (ten when the entry was left unparsable), and
    /// reports the load.
    fn finalize_library_load(&mut self, state: LoadLibraryState)
        requires
            old(self).wf(),
        ensures
            final(self).wf(),
            final(self).input_mode is Normal,
            final(self).encounter.wf(),
            final(self).encounter.combatants@.len() == state.combatants_with_init@.len(),
            final(self).encounter.round_number == 1,
            final(self).encounter.current_turn_index == 0,
            all_fresh_from(final(self).encounter.combatants@, state.combatants_with_init@),
            final(self).message matches Some(m) && m@ == msg_loaded_library(state.template.name@),
            log_advanced(
                Seq::<crate::log::LogEntry>::empty(),
                1u32,
                log_loaded_library(state.template.name@),
                final(self).log@,
            ),
            final(self).templates == old(self).templates,
            final(self).should_quit == old(self).should_quit,
            final(self).saved_encounter_files == old(self).saved_encounter_files,
            final(self).library_files == old(self).library_files,
    {
        self.encounter.combatants.clear();
        self.encounter.current_turn_index = 0;
        self.encounter.round_number = 1;
        self.log.clear();
        let LoadLibraryState { template, combatants_with_init, current_index: _ } = state;
        let ghost pairs0 = combatants_with_init@;
        let mut pairs = combatants_with_init;
        let n = pairs.len();
        let ghost done: int = 0;
        proof {
            assert(all_fresh_from(self.encounter.combatants@, pairs0));
        }
        while pairs.len() > 0
            invariant
                pairs@ =~= pairs0.skip(done),
                0 <= done <= pairs0.len(),
                self.encounter.wf(),
                self.encounter.combatants@.len() == done,
                self.encounter.round_number == 1,
                self.encounter.current_turn_index == 0,
                all_fresh_from(self.encounter.combatants@, pairs0),
                self.log@ =~= Seq::<crate::log::LogEntry>::empty(),
                self.input_mode == old(self).input_mode,
                self.templates == old(self).templates,
                self.should_quit == old(self).should_quit,
                self.message == old(self).message,
                self.saved_encounter_files == old(self).saved_encounter_files,
                self.library_files == old(self).library_files,
            decreases pairs@.len(),
        {
            let (lc, init_str) = pairs.remove(0);
            let initiative = match parse_i32(init_str.as_str()) {
                Some(v) => v,
                None => 10,
            };
            let hp_max = if lc.hp_max >= 0 {
                lc.hp_max
            } else {
                0
            };
            let combatant = Combatant::new(
                lc.name,
                initiative,
                hp_max,
                lc.armor_class,
                lc.is_player,
            );
            let ghost cnew = combatant;
            let ghost pre = self.encounter.combatants@;
            self.encounter.add_combatant(combatant);
            proof {
                assert(pairs@ =~= pairs0.skip(done + 1));
                assert(spec_fresh_from_pair(cnew, pairs0[done]));
                let k = choose|k: int|
                    0 <= k <= pre.len() && self.encounter.combatants@ == #[trigger] pre.subrange(
                        0,
                        k,
                    ).push(cnew) + pre.skip(k);
                lemma_all_fresh_insert(
                    pre,
                    self.encounter.combatants@,
                    cnew,
                    k,
                    pairs0,
                    done,
                );
                done = done + 1;
            }
        }
        proof {
            assert(done == pairs0.len());
            assert(pairs0 == state.combatants_with_init@);
        }
        let msg = String::from_str("Loaded encounter from library: ").concat(template.name.as_str());
        self.set_message(msg);
        let logged = String::from_str("Loaded encounter '").concat(template.name.as_str()).concat(
            "' from library",
        );
        self.input_mode = InputMode::Normal;
        self.push_log(logged);
    }
}

/// All blueprint entries can be loaded: no negative maximum hit points.
pub open spec fn spec_blueprints_loadable(s: Seq<LibraryCombatant>) -> bool {
    forall|i: int| 0 <= i < s.len() ==> (#[trigger] s[i]).hp_max >= 0
}

/// The interaction state parked in the initiative-setting mode.
pub open spec fn spec_setting_state(mode: InputMode) -> LoadLibraryState
    recommends
        mode is SettingLibraryInitiatives,
{
    match mode {
        InputMode::SettingLibraryInitiatives(st) => st,
        _ => arbitrary(),
    }
}

/// Whether a combatant comes fresh from one of the blueprint pairs.
pub open spec fn fresh_from_some(c: Combatant, pairs: Seq<(LibraryCombatant, String)>) -> bool {
    exists|i: int| 0 <= i < pairs.len() && #[trigger] spec_fresh_from_pair(c, pairs[i])
}

/// Every combatant of the rebuilt roster comes fresh from one of the
/// blueprint pairs.
pub open spec fn all_fresh_from(
    roster: Seq<Combatant>,
    pairs: Seq<(LibraryCombatant, String)>,
) -> bool {
    forall|j: int| 0 <= j < roster.len() ==> #[trigger] fresh_from_some(roster[j], pairs)
}

/// Inserting one fresh-from-a-pair combatant anywhere into a roster
/// whose members all come fresh from the pairs keeps that true.
proof fn lemma_all_fresh_insert(
    pre: Seq<Combatant>,
    post: Seq<Combatant>,
    cnew: Combatant,
    k: int,
    pairs: Seq<(LibraryCombatant, String)>,
    d: int,
)
    requires
        all_fresh_from(pre, pairs),
        0 <= k <= pre.len(),
        post == pre.subrange(0, k).push(cnew) + pre.skip(k),
        0 <= d < pairs.len(),
        spec_fresh_from_pair(cnew, pairs[d]),
    ensures
        all_fresh_from(post, pairs),
{
    assert forall|j: int| 0 <= j < post.len() implies #[trigger] fresh_from_some(
        post[j],
        pairs,
    ) by {
        if j == k {
            assert(post[j] == cnew);
            assert(spec_fresh_from_pair(post[j], pairs[d]));
        } else {
            let j0 = if j < k {
                j
            } else {
                j - 1
            };
            assert(post[j] == pre[j0]);
            assert(fresh_from_some(pre[j0], pairs));
        }
    }
}

/// A combatant rebuilt fresh from one blueprint pair: the typed
/// initiative when it parses (ten otherwise), full hit points from the
/// blueprint's maximum floored at zero, and no live state.
pub open spec fn spec_fresh_from_pair(c: Combatant, pair: (LibraryCombatant, String)) -> bool {
    let hp = if pair.0.hp_max >= 0 {
        pair.0.hp_max as int
    } else {
        0
    };
    &&& c.name@ == pair.0.name@
    &&& c.hp_max == hp
    &&& c.hp_current == hp
    &&& c.temp_hp == 0
    &&& c.armor_class == pair.0.armor_class
    &&& c.is_player == pair.0.is_player
    &&& c.status_effects@.len() == 0
    &&& c.death_saves is None
    &&& c.concentration is None
    &&& c.initiative == (if spec_parses_i32(pair.1@) {
        int_literal_val(pair.1@)
    } else {
        10
    })
}

} // verus!
