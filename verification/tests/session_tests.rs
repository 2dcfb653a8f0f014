use combat_tracker::app::App;
use combat_tracker::concentration::ConcentrationInfo;
use combat_tracker::state::{AddCombatantState, InputMode, SaveLibraryState};

fn add_basic_combatant(app: &mut App, name: &str) {
    let state = AddCombatantState {
        step: 4,
        name: name.to_string(),
        initiative: "10".to_string(),
        hp: "20".to_string(),
        ac: "15".to_string(),
        is_player: "n".to_string(),
    };
    app.complete_add_combatant(state).unwrap();
}

fn granting_temp_hp_updates_combatant_and_logs_case() {
    let mut app = App::new();
    add_basic_combatant(&mut app, "Orc");
    app.complete_grant_temp_hp(0, 7).unwrap();
    assert_eq!(app.encounter.combatants[0].temp_hp, 7);
    assert!(app.message.as_ref().unwrap().contains("gains 7 temp HP"));
    assert!(app.log.last().unwrap().message.contains("gains 7 temp HP"));
}

#[test]
fn app_granting_temp_hp_updates_combatant_and_logs() {
    granting_temp_hp_updates_combatant_and_logs_case();
}

#[test]
fn actions_granting_temp_hp_updates_combatant_and_logs() {
    granting_temp_hp_updates_combatant_and_logs_case();
}

fn log_is_capped_at_200_entries_case() {
    let mut app = App::new();
    for i in 0..205 {
        app.push_log(format!("entry {}", i));
    }
    assert_eq!(app.log.len(), 200);
    assert_eq!(app.log.first().unwrap().message, "entry 5");
}

#[test]
fn app_log_is_capped_at_200_entries() {
    log_is_capped_at_200_entries_case();
}

#[test]
fn actions_log_is_capped_at_200_entries() {
    log_is_capped_at_200_entries_case();
}

fn damage_triggers_concentration_check_case() {
    let mut app = App::new();
    add_basic_combatant(&mut app, "Mage");
    app.encounter.combatants[0].set_concentration(ConcentrationInfo::new("Haste".to_string(), 3));
    app.complete_deal_damage(0, 12).unwrap();
    match &app.input_mode {
        InputMode::ConcentrationCheck(state) => {
            assert_eq!(state.dc, 10);
            assert!(app.message.as_ref().unwrap().contains("Roll CON save"));
        }
        _ => panic!("Expected ConcentrationCheck mode"),
    }
    assert!(app.encounter.combatants[0].concentration.is_some());
}

#[test]
fn app_damage_triggers_concentration_check() {
    damage_triggers_concentration_check_case();
}

#[test]
fn actions_damage_triggers_concentration_check() {
    damage_triggers_concentration_check_case();
}

fn start_saving_encounter_enters_correct_mode_case() {
    let mut app = App::new();
    add_basic_combatant(&mut app, "Orc");

    app.start_saving_encounter();

    match &app.input_mode {
        InputMode::SavingEncounter(state) => {
            assert_eq!(state.input, "");
        }
        _ => panic!("Expected SavingEncounter mode"),
    }
}

#[test]
fn app_start_saving_encounter_enters_correct_mode() {
    start_saving_encounter_enters_correct_mode_case();
}

#[test]
fn actions_start_saving_encounter_enters_correct_mode() {
    start_saving_encounter_enters_correct_mode_case();
}

fn start_loading_encounter_enters_correct_mode_case() {
    let mut app = App::new();

    app.start_loading_encounter();

    match &app.input_mode {
        InputMode::LoadingEncounter(state) => {
            assert_eq!(state.selected_index, 0);
            assert_eq!(state.input, "");
        }
        _ => panic!("Expected LoadingEncounter mode"),
    }
}

#[test]
fn app_start_loading_encounter_enters_correct_mode() {
    start_loading_encounter_enters_correct_mode_case();
}

#[test]
fn actions_start_loading_encounter_enters_correct_mode() {
    start_loading_encounter_enters_correct_mode_case();
}

fn complete_save_encounter_validates_empty_filename_case() {
    let mut app = App::new();
    add_basic_combatant(&mut app, "Goblin");

    let result = app.complete_save_encounter("");

    assert!(result.is_err());
    assert!(result.unwrap_err().contains("Filename cannot be empty"));
}

#[test]
fn app_complete_save_encounter_validates_empty_filename() {
    complete_save_encounter_validates_empty_filename_case();
}

#[test]
fn actions_complete_save_encounter_validates_empty_filename() {
    complete_save_encounter_validates_empty_filename_case();
}

fn complete_save_encounter_validates_invalid_characters_case() {
    let mut app = App::new();
    add_basic_combatant(&mut app, "Goblin");

    let result = app.complete_save_encounter("invalid/filename");

    assert!(result.is_err());
    assert!(result.unwrap_err().contains("letters, numbers"));
}

#[test]
fn app_complete_save_encounter_validates_invalid_characters() {
    complete_save_encounter_validates_invalid_characters_case();
}

#[test]
fn actions_complete_save_encounter_validates_invalid_characters() {
    complete_save_encounter_validates_invalid_characters_case();
}

fn complete_load_encounter_fails_for_missing_file_case() {
    let mut app = App::new();

    let result = app.complete_load_encounter(
        "nonexistent_file_12345",
        Err("Encounter file not found: nonexistent_file_12345".to_string()),
    );

    assert!(result.is_err());
    assert!(result.unwrap_err().contains("not found"));
}

#[test]
fn app_complete_load_encounter_fails_for_missing_file() {
    complete_load_encounter_fails_for_missing_file_case();
}

#[test]
fn actions_complete_load_encounter_fails_for_missing_file() {
    complete_load_encounter_fails_for_missing_file_case();
}

fn start_saving_library_validates_non_empty_encounter_case() {
    let mut app = App::new();
    app.start_saving_library();

    assert!(matches!(app.input_mode, InputMode::Normal));
    assert_eq!(
        app.message.as_ref().unwrap(),
        "Cannot save empty encounter to library"
    );
}

#[test]
fn app_start_saving_library_validates_non_empty_encounter() {
    start_saving_library_validates_non_empty_encounter_case();
}

#[test]
fn actions_start_saving_library_validates_non_empty_encounter() {
    start_saving_library_validates_non_empty_encounter_case();
}

fn complete_save_library_validates_empty_name_case() {
    let state = SaveLibraryState {
        step: 2,
        name: "".to_string(),
        description: "Test description".to_string(),
        difficulty: "Easy".to_string(),
    };

    let mut app = App::new();
    let result = app.complete_save_library(state);

    assert!(result.is_err());
    assert_eq!(result.unwrap_err(), "Name cannot be empty");
}

#[test]
fn app_complete_save_library_validates_empty_name() {
    complete_save_library_validates_empty_name_case();
}

#[test]
fn actions_complete_save_library_validates_empty_name() {
    complete_save_library_validates_empty_name_case();
}

fn complete_save_library_validates_invalid_characters_case() {
    let state = SaveLibraryState {
        step: 2,
        name: "invalid/name".to_string(),
        description: "Test description".to_string(),
        difficulty: "Easy".to_string(),
    };

    let mut app = App::new();
    let result = app.complete_save_library(state);

    assert!(result.is_err());
    assert!(result.unwrap_err().contains("can only contain"));
}

#[test]
fn app_complete_save_library_validates_invalid_characters() {
    complete_save_library_validates_invalid_characters_case();
}

#[test]
fn actions_complete_save_library_validates_invalid_characters() {
    complete_save_library_validates_invalid_characters_case();
}

fn complete_save_library_validates_empty_description_case() {
    let state = SaveLibraryState {
        step: 2,
        name: "valid_name".to_string(),
        description: "".to_string(),
        difficulty: "Easy".to_string(),
    };

    let mut app = App::new();
    let result = app.complete_save_library(state);

    assert!(result.is_err());
    assert_eq!(result.unwrap_err(), "Description cannot be empty");
}

#[test]
fn app_complete_save_library_validates_empty_description() {
    complete_save_library_validates_empty_description_case();
}

#[test]
fn actions_complete_save_library_validates_empty_description() {
    complete_save_library_validates_empty_description_case();
}
