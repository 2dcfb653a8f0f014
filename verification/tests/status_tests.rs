use combat_tracker::status::{ConditionType, StatusEffect};

#[test]
fn timed_status_expires_below_zero() {
    let mut s = StatusEffect::new(ConditionType::Poisoned, 2, None);
    s.decrement_duration();
    assert_eq!(s.duration, 1);
    assert!(!s.is_expired());
    s.decrement_duration();
    assert_eq!(s.duration, -1);
    assert!(s.is_expired());
}

#[test]
fn indefinite_status_not_expired() {
    let s = StatusEffect::new(ConditionType::Prone, 0, None);
    assert!(!s.is_expired());
}

#[test]
fn all_conditions_have_mechanical_effects() {
    let all_conditions = ConditionType::all();
    assert_eq!(all_conditions.len(), 14);

    for condition in all_conditions {
        let effects = condition.mechanical_effects();
        assert!(
            !effects.is_empty(),
            "Condition {:?} has no mechanical effects",
            condition
        );
    }
}

#[test]
fn mechanical_effects_are_concise() {
    let all_conditions = ConditionType::all();

    for condition in all_conditions {
        let effects = condition.mechanical_effects();
        assert!(
            effects.len() <= 80,
            "Condition {:?} mechanical effects too long ({} chars): {}",
            condition,
            effects.len(),
            effects
        );
    }
}

#[test]
fn all_conditions_have_descriptions() {
    let all_conditions = ConditionType::all();

    assert_eq!(all_conditions.len(), 14);

    for condition in all_conditions {
        let desc = condition.description();
        assert!(!desc.is_empty(), "Condition {:?} has no description", condition);
    }
}

#[test]
fn indefinite_effect_survives_many_decrements() {
    let mut s = StatusEffect::new(ConditionType::Prone, 0, None);
    for _ in 0..50 {
        s.decrement_duration();
        assert_eq!(s.duration, 0);
        assert!(!s.is_expired());
    }
}
