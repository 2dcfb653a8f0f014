use combat_tracker::app::App;
use combat_tracker::combat::CombatEncounter;
use combat_tracker::combatant::Combatant;
use combat_tracker::concentration::ConcentrationInfo;
use combat_tracker::input::{handle_key_event, Key, ShellRequest};
use combat_tracker::persistence::{
    from_library_combatant, library_template_exists, to_library_combatant, EncounterTemplate,
    LibraryCombatant, SavedEncounter,
};
use combat_tracker::state::{AddCombatantState, AddConcentrationState, InputMode, SelectionState};
use combat_tracker::status::{ConditionType, StatusEffect};

fn add_basic_combatant(app: &mut App, name: &str) {
    let state = AddCombatantState {
        step: 4,
        name: name.to_string(),
        initiative: "10".to_string(),
        hp: "20".to_string(),
        ac: "15".to_string(),
        is_player: "y".to_string(),
    };
    app.complete_add_combatant(state).unwrap();
}

#[test]
fn saved_snapshot_restores_all_live_state() {
    let mut encounter = CombatEncounter::new();
    let mut c = Combatant::new("Wizard".to_string(), 10, 20, 15, true);
    c.take_damage(5);
    c.grant_temp_hp(5);
    c.add_status_effect(StatusEffect::new(ConditionType::Poisoned, 10, None));
    c.set_concentration(ConcentrationInfo::new("Shield".to_string(), 3));
    encounter.add_combatant(c);

    let saved = SavedEncounter {
        encounter,
        log: Vec::new(),
        saved_at: 1234567890,
        version: "1.0.0".to_string(),
    };

    let mut app = App::new();
    app.complete_load_encounter("wizard_fight", Ok(saved)).unwrap();

    let restored = &app.encounter.combatants[0];
    assert_eq!(restored.name, "Wizard");
    assert_eq!(restored.hp_current, 15);
    assert_eq!(restored.temp_hp, 5);
    assert_eq!(restored.status_effects.len(), 1);
    assert_eq!(restored.status_effects[0].condition, ConditionType::Poisoned);
    assert_eq!(restored.status_effects[0].duration, 10);
    assert_eq!(restored.concentration.as_ref().unwrap().spell_name, "Shield");
    assert_eq!(restored.concentration.as_ref().unwrap().constitution_modifier, 3);
    assert!(app.message.as_ref().unwrap().contains("Successfully loaded"));
}

#[test]
fn corrupt_snapshot_is_refused() {
    let mut encounter = CombatEncounter::new();
    encounter.add_combatant(Combatant::new("Orc".to_string(), 10, 20, 15, false));
    // tamper: current hit points above the maximum
    encounter.combatants[0].hp_current = 99;

    let saved = SavedEncounter { encounter, log: Vec::new(), saved_at: 0, version: "1".to_string() };

    let mut app = App::new();
    let result = app.complete_load_encounter("bad", Ok(saved));
    assert!(result.is_err());
    assert!(result.unwrap_err().contains("corrupted"));
    assert_eq!(app.encounter.combatants.len(), 0);
}

#[test]
fn library_blueprint_round_trip_strips_live_state() {
    let mut c = Combatant::new("Orc".to_string(), 4, 15, 13, false);
    c.take_damage(9);
    c.grant_temp_hp(8);
    c.add_status_effect(StatusEffect::new(ConditionType::Poisoned, 3, None));
    c.set_concentration(ConcentrationInfo::new("Bless".to_string(), 2));

    let blueprint = to_library_combatant(&c);
    assert_eq!(blueprint.name, "Orc");
    assert_eq!(blueprint.hp_max, 15);
    assert_eq!(blueprint.armor_class, 13);
    assert!(!blueprint.is_player);

    let fresh = from_library_combatant(&blueprint, 17);
    assert_eq!(fresh.name, "Orc");
    assert_eq!(fresh.initiative, 17);
    assert_eq!(fresh.hp_max, 15);
    assert_eq!(fresh.hp_current, 15);
    assert_eq!(fresh.temp_hp, 0);
    assert!(fresh.status_effects.is_empty());
    assert!(fresh.death_saves.is_none());
    assert!(fresh.concentration.is_none());
}

#[test]
fn library_load_walks_initiatives_and_commits_fresh_roster() {
    let template = EncounterTemplate {
        name: "ambush".to_string(),
        description: "orcs in the woods".to_string(),
        difficulty: "Medium".to_string(),
        combatants: vec![
            LibraryCombatant {
                name: "Orc".to_string(),
                hp_max: 15,
                armor_class: 13,
                is_player: false,
            },
            LibraryCombatant {
                name: "Goblin".to_string(),
                hp_max: 7,
                armor_class: 15,
                is_player: false,
            },
        ],
        created_at: 0,
    };

    let mut app = App::new();
    app.confirm_load_library(Ok(template)).unwrap();
    assert!(matches!(app.input_mode, InputMode::SettingLibraryInitiatives(_)));

    app.complete_library_initiative("15".to_string()).unwrap();
    app.complete_library_initiative("16".to_string()).unwrap();

    assert!(matches!(app.input_mode, InputMode::Normal));
    assert_eq!(app.encounter.combatants.len(), 2);
    // sorted by initiative, highest first
    assert_eq!(app.encounter.combatants[0].name, "Goblin");
    assert_eq!(app.encounter.combatants[0].initiative, 16);
    assert_eq!(app.encounter.combatants[0].hp_current, 7);
    assert_eq!(app.encounter.combatants[1].name, "Orc");
    assert_eq!(app.encounter.combatants[1].initiative, 15);
    assert_eq!(app.encounter.round_number, 1);
    assert!(app.message.as_ref().unwrap().contains("Loaded encounter from library"));
}

#[test]
fn overwrite_requires_confirmation_when_name_exists() {
    let mut app = App::new();
    add_basic_combatant(&mut app, "Troll");
    app.refresh_file_lists(Vec::new(), vec!["lair".to_string()]);

    let state = combat_tracker::state::SaveLibraryState {
        step: 2,
        name: "lair".to_string(),
        description: "a deep cave".to_string(),
        difficulty: "Hard".to_string(),
    };
    let result = app.complete_save_library(state).unwrap();
    assert!(result.is_none());
    assert!(matches!(app.input_mode, InputMode::ConfirmingLibraryOverwrite(_)));
    assert!(app.message.as_ref().unwrap().contains("already exists"));
    assert!(app.message.as_ref().unwrap().contains("Overwrite?"));
}

#[test]
fn save_library_builds_stripped_blueprint() {
    let mut app = App::new();
    add_basic_combatant(&mut app, "Dragon");
    app.encounter.combatants[0].take_damage(5);
    app.encounter.combatants[0].grant_temp_hp(10);

    let state = combat_tracker::state::SaveLibraryState {
        step: 2,
        name: "den".to_string(),
        description: "the dragon's den".to_string(),
        difficulty: "".to_string(),
    };
    let template = app.complete_save_library(state).unwrap().unwrap();
    assert_eq!(template.name, "den");
    assert_eq!(template.description, "the dragon's den");
    assert_eq!(template.combatants.len(), 1);
    assert_eq!(template.combatants[0].name, "Dragon");
    assert_eq!(template.combatants[0].hp_max, 20);
    assert_eq!(template.combatants[0].armor_class, 15);
}

#[test]
fn library_template_exists_checks_listing() {
    let files = vec!["alpha".to_string(), "beta".to_string()];
    assert!(library_template_exists("beta", &files));
    assert!(!library_template_exists("gamma", &files));
}

#[test]
fn error_paths_report_and_leave_state_alone() {
    let mut app = App::new();
    assert_eq!(app.complete_deal_damage(0, 5).unwrap_err(), "Invalid combatant index");
    assert_eq!(app.complete_heal(3, 5).unwrap_err(), "Invalid combatant index");
    assert_eq!(app.complete_remove(0).unwrap_err(), "Invalid combatant index");
    assert_eq!(
        app.add_combatant_from_template(0).unwrap_err(),
        "Invalid template selection"
    );
    assert_eq!(
        app.complete_library_initiative("5".to_string()).unwrap_err(),
        "Not in library initiative setting mode"
    );

    add_basic_combatant(&mut app, "Hero");
    assert_eq!(
        app.complete_grant_temp_hp(0, -3).unwrap_err(),
        "Temp HP must be non-negative"
    );
    assert_eq!(
        app.complete_death_save_roll(0, 10).unwrap_err(),
        "Combatant is not at 0 HP"
    );
    app.encounter.combatants[0].take_damage(20);
    app.encounter.combatants[0].is_player = false;
    assert_eq!(
        app.complete_death_save_roll(0, 10).unwrap_err(),
        "Only player characters roll death saves"
    );
    app.encounter.combatants[0].is_player = true;

    let conc = AddConcentrationState {
        combatant_index: 0,
        step: 1,
        spell_name: "Haste".to_string(),
        con_mod: "x".to_string(),
    };
    assert_eq!(
        app.complete_apply_concentration(conc).unwrap_err(),
        "Invalid constitution modifier"
    );
    let blank_spell = AddConcentrationState {
        combatant_index: 0,
        step: 1,
        spell_name: "   ".to_string(),
        con_mod: "2".to_string(),
    };
    assert_eq!(
        app.complete_apply_concentration(blank_spell).unwrap_err(),
        "Spell name cannot be empty"
    );
}

#[test]
fn dead_combatant_cannot_keep_rolling() {
    let mut app = App::new();
    add_basic_combatant(&mut app, "Hero");
    app.complete_deal_damage(0, 25).unwrap();
    app.complete_death_save_roll(0, 1).unwrap();
    app.complete_death_save_roll(0, 1).unwrap();
    assert!(app.encounter.combatants[0].is_dead());
    assert_eq!(
        app.complete_death_save_roll(0, 15).unwrap_err(),
        "Combatant is already dead"
    );
}

#[test]
fn escape_cancels_any_mode_and_clears_message() {
    let mut app = App::new();
    add_basic_combatant(&mut app, "Hero");
    app.start_dealing_damage();
    app.set_message("halfway through".to_string());
    let r = handle_key_event(&mut app, Key::Esc);
    assert!(matches!(r, ShellRequest::Nothing));
    assert!(matches!(app.input_mode, InputMode::Normal));
    assert!(app.message.is_none());

    app.start_saving_encounter();
    handle_key_event(&mut app, Key::Char('a'));
    let r = handle_key_event(&mut app, Key::Esc);
    assert!(matches!(r, ShellRequest::Nothing));
    assert!(matches!(app.input_mode, InputMode::Normal));
    assert!(app.message.is_none());
}

#[test]
fn wizard_keystrokes_filter_and_accumulate() {
    let mut app = App::new();
    handle_key_event(&mut app, Key::Char('a'));
    assert!(matches!(app.input_mode, InputMode::AddingCombatant(_)));
    handle_key_event(&mut app, Key::Char('B'));
    handle_key_event(&mut app, Key::Char('o'));
    handle_key_event(&mut app, Key::Char('b'));
    handle_key_event(&mut app, Key::Backspace);
    handle_key_event(&mut app, Key::Enter);
    // initiative step rejects letters, accepts digits and a minus sign
    handle_key_event(&mut app, Key::Char('x'));
    handle_key_event(&mut app, Key::Char('-'));
    handle_key_event(&mut app, Key::Char('2'));
    handle_key_event(&mut app, Key::Enter);
    handle_key_event(&mut app, Key::Char('9'));
    handle_key_event(&mut app, Key::Enter);
    handle_key_event(&mut app, Key::Char('1'));
    handle_key_event(&mut app, Key::Char('4'));
    handle_key_event(&mut app, Key::Enter);
    handle_key_event(&mut app, Key::Char('y'));
    handle_key_event(&mut app, Key::Enter);

    assert!(matches!(app.input_mode, InputMode::Normal));
    assert_eq!(app.encounter.combatants.len(), 1);
    let c = &app.encounter.combatants[0];
    assert_eq!(c.name, "Bo");
    assert_eq!(c.initiative, -2);
    assert_eq!(c.hp_max, 9);
    assert_eq!(c.armor_class, 14);
    assert!(c.is_player);
}

#[test]
fn selection_traversal_wraps_both_ways() {
    let mut app = App::new();
    add_basic_combatant(&mut app, "A");
    add_basic_combatant(&mut app, "B");
    add_basic_combatant(&mut app, "C");
    app.start_dealing_damage();
    handle_key_event(&mut app, Key::Up);
    match &app.input_mode {
        InputMode::DealingDamage(s) => assert_eq!(s.selected_index, 2),
        _ => panic!("Expected DealingDamage mode"),
    }
    handle_key_event(&mut app, Key::Down);
    match &app.input_mode {
        InputMode::DealingDamage(s) => assert_eq!(s.selected_index, 0),
        _ => panic!("Expected DealingDamage mode"),
    }
}

#[test]
fn damage_entry_applies_through_keystrokes() {
    let mut app = App::new();
    add_basic_combatant(&mut app, "Hero");
    app.start_dealing_damage();
    handle_key_event(&mut app, Key::Char('7'));
    handle_key_event(&mut app, Key::Enter);
    assert_eq!(app.encounter.combatants[0].hp_current, 13);
    assert!(app.message.as_ref().unwrap().contains("took 7 damage (HP: 13)"));
}

#[test]
fn condition_entry_validates_number_and_duration() {
    let mut app = App::new();
    add_basic_combatant(&mut app, "Hero");
    app.start_adding_status();
    handle_key_event(&mut app, Key::Enter);
    assert!(matches!(app.input_mode, InputMode::SelectingCondition(_)));
    // "10 3" picks the tenth condition, Poisoned, for three rounds
    handle_key_event(&mut app, Key::Char('1'));
    handle_key_event(&mut app, Key::Char('0'));
    handle_key_event(&mut app, Key::Char(' '));
    handle_key_event(&mut app, Key::Char('3'));
    handle_key_event(&mut app, Key::Enter);
    assert!(matches!(app.input_mode, InputMode::Normal));
    assert_eq!(app.encounter.combatants[0].status_effects.len(), 1);
    assert_eq!(
        app.encounter.combatants[0].status_effects[0].condition,
        ConditionType::Poisoned
    );
    assert_eq!(app.encounter.combatants[0].status_effects[0].duration, 3);

    app.start_adding_status();
    handle_key_event(&mut app, Key::Enter);
    handle_key_event(&mut app, Key::Char('9'));
    handle_key_event(&mut app, Key::Char('9'));
    handle_key_event(&mut app, Key::Char(' '));
    handle_key_event(&mut app, Key::Char('3'));
    handle_key_event(&mut app, Key::Enter);
    assert_eq!(app.message.as_ref().unwrap(), "Invalid condition number");
}

#[test]
fn template_names_replace_case_insensitively() {
    let mut app = App::new();
    add_basic_combatant(&mut app, "ORC");
    add_basic_combatant(&mut app, "orc");
    app.save_template_from_combatant(0).unwrap();
    assert_eq!(app.templates.len(), 1);
    // saving the lower-case twin replaces the stored template
    app.save_template_from_combatant(1).unwrap();
    assert_eq!(app.templates.len(), 1);
    assert_eq!(app.templates[0].name, "orc");
}

#[test]
fn template_search_filters_case_insensitively() {
    let mut app = App::new();
    add_basic_combatant(&mut app, "Goblin");
    app.save_template_from_combatant(0).unwrap();
    app.input_mode = InputMode::SelectingTemplate(SelectionState {
        selected_index: 0,
        input: String::new(),
    });
    handle_key_event(&mut app, Key::Char('x'));
    handle_key_event(&mut app, Key::Enter);
    assert_eq!(app.message.as_ref().unwrap(), "No matching template");

    app.input_mode = InputMode::SelectingTemplate(SelectionState {
        selected_index: 0,
        input: String::new(),
    });
    handle_key_event(&mut app, Key::Char('G'));
    handle_key_event(&mut app, Key::Enter);
    assert!(matches!(app.input_mode, InputMode::AddingCombatant(_)));
    assert!(app.message.as_ref().unwrap().contains("Set initiative for template: Goblin"));
}

#[test]
fn saving_encounter_request_leaves_through_the_shell() {
    let mut app = App::new();
    add_basic_combatant(&mut app, "Hero");
    app.start_saving_encounter();
    handle_key_event(&mut app, Key::Char('c'));
    handle_key_event(&mut app, Key::Char('a'));
    handle_key_event(&mut app, Key::Char('v'));
    handle_key_event(&mut app, Key::Char('e'));
    let r = handle_key_event(&mut app, Key::Enter);
    match r {
        ShellRequest::SaveEncounter(name) => assert_eq!(name, "cave"),
        _ => panic!("Expected a save request"),
    }
    app.finish_save_encounter("cave", Ok(())).unwrap();
    assert!(matches!(app.input_mode, InputMode::Normal));
    assert!(app.message.as_ref().unwrap().contains("Successfully saved encounter: cave"));
}

#[test]
fn concentration_check_resolution_keeps_or_breaks_the_spell() {
    let mut app = App::new();
    add_basic_combatant(&mut app, "Mage");
    app.encounter.combatants[0]
        .set_concentration(ConcentrationInfo::new("Haste".to_string(), 3));
    app.complete_deal_damage(0, 12).unwrap();
    let state = match &app.input_mode {
        InputMode::ConcentrationCheck(s) => s.clone(),
        _ => panic!("Expected ConcentrationCheck mode"),
    };
    app.complete_concentration_check(state.clone(), 15).unwrap();
    assert!(app.encounter.combatants[0].concentration.is_some());
    assert!(app.message.as_ref().unwrap().contains("maintains concentration"));

    app.complete_deal_damage(0, 2).unwrap();
    let state = match &app.input_mode {
        InputMode::ConcentrationCheck(s) => s.clone(),
        _ => panic!("Expected ConcentrationCheck mode"),
    };
    app.complete_concentration_check(state, 9).unwrap();
    assert!(app.encounter.combatants[0].concentration.is_none());
    assert!(app.message.as_ref().unwrap().contains("fails concentration"));
}

#[test]
fn dropping_unconscious_clears_concentration_without_a_check() {
    let mut app = App::new();
    add_basic_combatant(&mut app, "Mage");
    app.encounter.combatants[0]
        .set_concentration(ConcentrationInfo::new("Haste".to_string(), 3));
    app.complete_deal_damage(0, 30).unwrap();
    assert!(matches!(app.input_mode, InputMode::Normal));
    assert!(app.encounter.combatants[0].concentration.is_none());
    assert_eq!(app.encounter.combatants[0].hp_current, 0);
}
