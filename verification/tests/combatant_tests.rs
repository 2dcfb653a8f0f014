use combat_tracker::combatant::Combatant;
use combat_tracker::death_saves::DeathSaveOutcome;
use combat_tracker::status::{ConditionType, StatusEffect};

fn player(name: &str, hp: i32) -> Combatant {
    Combatant::new(name.to_string(), 10, hp, 10, true)
}

#[test]
fn temp_hp_absorbs_damage() {
    let mut c = player("Hero", 20);
    c.grant_temp_hp(5);
    c.take_damage(3);
    assert_eq!(c.temp_hp, 2);
    assert_eq!(c.hp_current, 20);
    c.take_damage(5);
    assert_eq!(c.temp_hp, 0);
    assert_eq!(c.hp_current, 17);
}

#[test]
fn temp_hp_replaces_only_if_higher() {
    let mut c = player("Hero", 10);
    c.grant_temp_hp(5);
    c.grant_temp_hp(3);
    assert_eq!(c.temp_hp, 5);
}

#[test]
fn heal_caps_at_max() {
    let mut c = player("Hero", 10);
    c.take_damage(9);
    c.heal(20);
    assert_eq!(c.hp_current, 10);
}

#[test]
fn death_save_crit_success_revives() {
    let mut c = player("Hero", 10);
    c.take_damage(15);
    let outcome = c.apply_death_save_roll(20);
    assert_eq!(outcome, DeathSaveOutcome::Revived);
    assert_eq!(c.hp_current, 1);
    assert!(c.death_saves.is_none());
}

#[test]
fn death_save_crit_fail_counts_two() {
    let mut c = player("Hero", 10);
    c.take_damage(11);
    let _ = c.apply_death_save_roll(1);
    let ds = c.death_saves.as_ref().unwrap();
    assert_eq!(ds.failures, 2);
    assert_eq!(ds.successes, 0);
}

#[test]
fn add_status_replaces_same_condition() {
    let mut c = player("Hero", 10);
    c.add_status_effect(StatusEffect::new(ConditionType::Poisoned, 3, None));
    c.add_status_effect(StatusEffect::new(ConditionType::Poisoned, 5, None));
    assert_eq!(c.status_effects.len(), 1);
    assert_eq!(c.status_effects[0].duration, 5);
}

#[test]
fn crit_fails_cap_at_three_and_die() {
    let mut c = player("Hero", 10);
    c.take_damage(10);
    let first = c.apply_death_save_roll(1);
    assert_eq!(first, DeathSaveOutcome::Ongoing);
    assert_eq!(c.death_saves.as_ref().unwrap().failures, 2);
    let second = c.apply_death_save_roll(1);
    assert_eq!(second, DeathSaveOutcome::Died);
    assert_eq!(c.death_saves.as_ref().unwrap().failures, 3);
    assert!(c.is_dead());
}

#[test]
fn crit_success_clears_record_regardless_of_progress() {
    let mut c = player("Hero", 10);
    c.take_damage(10);
    let _ = c.apply_death_save_roll(1);
    let _ = c.apply_death_save_roll(12);
    let outcome = c.apply_death_save_roll(20);
    assert_eq!(outcome, DeathSaveOutcome::Revived);
    assert_eq!(c.hp_current, 1);
    assert!(c.death_saves.is_none());
}

#[test]
fn damage_at_zero_counts_one_automatic_failure() {
    let mut c = player("Hero", 5);
    c.take_damage(5);
    c.ensure_death_saves();
    let outcome = c.fail_death_save_from_damage();
    assert_eq!(outcome, DeathSaveOutcome::Ongoing);
    assert_eq!(c.death_saves.as_ref().unwrap().failures, 1);
}

#[test]
fn three_successes_stabilize() {
    let mut c = player("Hero", 5);
    c.take_damage(9);
    assert_eq!(c.apply_death_save_roll(10), DeathSaveOutcome::Ongoing);
    assert_eq!(c.apply_death_save_roll(15), DeathSaveOutcome::Ongoing);
    assert_eq!(c.apply_death_save_roll(19), DeathSaveOutcome::Stabilized);
    let ds = c.death_saves.as_ref().unwrap();
    assert!(ds.is_stable);
    assert_eq!(ds.successes, 3);
}

#[test]
fn damage_exact_split_formula() {
    // hp' = max(0, hp - max(0, d - temp)); temp' = max(0, temp - d)
    let mut c = player("Hero", 20);
    c.grant_temp_hp(4);
    c.take_damage(10);
    assert_eq!(c.temp_hp, 0);
    assert_eq!(c.hp_current, 14);
    c.take_damage(100);
    assert_eq!(c.hp_current, 0);
}

#[test]
fn hp_bar_marks_rounded_share() {
    let mut c = player("Hero", 20);
    c.take_damage(10);
    assert_eq!(combat_tracker::combatant::hp_bar(&c), "[######......]");
    let full = player("Hero", 20);
    assert_eq!(combat_tracker::combatant::hp_bar(&full), "[############]");
    let zero_max = Combatant::new("Husk".to_string(), 0, 0, 10, false);
    assert_eq!(combat_tracker::combatant::hp_bar(&zero_max), "[............]");
}
