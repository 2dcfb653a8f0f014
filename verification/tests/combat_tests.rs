use combat_tracker::combat::CombatEncounter;
use combat_tracker::combatant::Combatant;
use combat_tracker::status::{ConditionType, StatusEffect};

fn combatant(name: &str, init: i32) -> Combatant {
    Combatant::new(name.to_string(), init, 10, 10, false)
}

#[test]
fn add_combatant_sorts_by_initiative() {
    let mut enc = CombatEncounter::new();
    enc.add_combatant(combatant("A", 5));
    enc.add_combatant(combatant("B", 15));
    enc.add_combatant(combatant("C", 10));
    let names: Vec<_> = enc.combatants.iter().map(|c| c.name.as_str()).collect();
    assert_eq!(names, vec!["B", "C", "A"]);
    assert_eq!(enc.current_turn_index, 0);
}

#[test]
fn next_turn_wraps_and_increments_round() {
    let mut enc = CombatEncounter::new();
    enc.add_combatant(combatant("A", 5));
    enc.add_combatant(combatant("B", 15));
    assert_eq!(enc.round_number, 1);
    enc.next_turn();
    assert_eq!(enc.current_turn_index, 1);
    assert_eq!(enc.round_number, 1);
    enc.next_turn();
    assert_eq!(enc.current_turn_index, 0);
    assert_eq!(enc.round_number, 2);
}

#[test]
fn previous_turn_wraps_backwards() {
    let mut enc = CombatEncounter::new();
    enc.add_combatant(combatant("A", 5));
    enc.add_combatant(combatant("B", 15));
    enc.next_turn();
    enc.previous_turn();
    assert_eq!(enc.current_turn_index, 0);
    assert_eq!(enc.round_number, 1);
    enc.previous_turn();
    assert_eq!(enc.current_turn_index, 1);
    assert_eq!(enc.round_number, 1);
}

#[test]
fn full_round_returns_cursor_and_advances_round_once() {
    let mut enc = CombatEncounter::new();
    for (name, init) in [("A", 5), ("B", 15), ("C", 10)] {
        let mut c = combatant(name, init);
        c.add_status_effect(StatusEffect::new(ConditionType::Stunned, 5, None));
        enc.add_combatant(c);
    }
    enc.next_turn();
    let start = enc.current_turn_index;
    let round = enc.round_number;
    for _ in 0..3 {
        enc.next_turn();
    }
    assert_eq!(enc.current_turn_index, start);
    assert_eq!(enc.round_number, round + 1);
    // the opening turn ticked the first combatant once, and the measured
    // full round then ticked every combatant exactly once more
    let durations: Vec<i32> = enc.combatants.iter().map(|c| c.status_effects[0].duration).collect();
    assert_eq!(durations, vec![3, 4, 4]);
}

#[test]
fn ties_keep_insertion_order() {
    let mut enc = CombatEncounter::new();
    enc.add_combatant(combatant("First", 10));
    enc.add_combatant(combatant("Second", 10));
    enc.add_combatant(combatant("Higher", 12));
    let names: Vec<_> = enc.combatants.iter().map(|c| c.name.as_str()).collect();
    assert_eq!(names, vec!["Higher", "First", "Second"]);
}

#[test]
fn next_turn_decrements_current_combatant_statuses() {
    let mut enc = CombatEncounter::new();
    let mut a = combatant("A", 15);
    a.add_status_effect(StatusEffect::new(ConditionType::Stunned, 2, None));
    a.add_status_effect(StatusEffect::new(ConditionType::Prone, 0, None));
    enc.add_combatant(a);
    enc.add_combatant(combatant("B", 5));
    enc.next_turn();
    assert_eq!(enc.combatants[0].status_effects.len(), 2);
    assert_eq!(enc.combatants[0].status_effects[0].duration, 1);
    enc.next_turn();
    enc.next_turn();
    // the timed effect has now expired and is gone; the indefinite stays
    assert_eq!(enc.combatants[0].status_effects.len(), 1);
    assert_eq!(enc.combatants[0].status_effects[0].condition, ConditionType::Prone);
    assert_eq!(enc.combatants[0].status_effects[0].duration, 0);
}

#[test]
fn remove_combatant_wraps_cursor() {
    let mut enc = CombatEncounter::new();
    enc.add_combatant(combatant("A", 15));
    enc.add_combatant(combatant("B", 5));
    enc.next_turn();
    assert_eq!(enc.current_turn_index, 1);
    enc.remove_combatant(1);
    assert_eq!(enc.current_turn_index, 0);
    assert_eq!(enc.combatants.len(), 1);
}

#[test]
fn sort_by_initiative_is_stable() {
    let mut enc = CombatEncounter::new();
    enc.combatants.push(combatant("Low", 1));
    enc.combatants.push(combatant("TieOne", 7));
    enc.combatants.push(combatant("High", 9));
    enc.combatants.push(combatant("TieTwo", 7));
    enc.sort_by_initiative();
    let names: Vec<_> = enc.combatants.iter().map(|c| c.name.as_str()).collect();
    assert_eq!(names, vec!["High", "TieOne", "TieTwo", "Low"]);
}
