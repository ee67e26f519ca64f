//! Application states, menu entries and the settings window state.

use voxai::config::Config;
use voxai::menu::{recording_entry_for_state, AppState, MenuAction, OutputMethod};
use voxai::settings::SettingsWindow;

#[test]
fn test_app_states() {
    assert_ne!(AppState::Idle, AppState::Recording);
    assert_ne!(AppState::Recording, AppState::Processing);
}

#[test]
fn tray_linux_test_state_transitions() {
    let states = [AppState::Idle, AppState::Recording, AppState::Processing];
    for state in states {
        assert_eq!(state, state);
    }
}

#[test]
fn tray_macos_test_state_transitions() {
    let states = [AppState::Idle, AppState::Recording, AppState::Processing];
    for state in states {
        assert_eq!(state, state);
    }
}

#[test]
fn tray_windows_test_state_transitions() {
    let states = [AppState::Idle, AppState::Recording, AppState::Processing];
    for state in states {
        assert_eq!(state, state);
    }
}

#[test]
fn test_menu_entries_per_state() {
    assert_eq!(recording_entry_for_state(AppState::Idle), ("Start Recording", true));
    assert_eq!(recording_entry_for_state(AppState::Recording), ("Stop Recording", true));
    assert_eq!(recording_entry_for_state(AppState::Processing), ("Processing...", false));
}

#[test]
fn test_menu_actions_distinct() {
    assert_ne!(MenuAction::ToggleRecording, MenuAction::Quit);
    assert_ne!(MenuAction::OpenSettings, MenuAction::Quit);
    assert_eq!(OutputMethod::default(), OutputMethod::TypeText);
}

#[test]
fn test_settings_window_creation() {
    let config = Config::default();
    let settings = SettingsWindow::new(config);
    assert!(!settings.has_changes);
    assert!(settings.status_message.is_none());
    assert!(!settings.show_advanced);
}

#[test]
fn test_reset_to_defaults() {
    let mut config = Config::default();
    config.transcription.model = "medium".to_string();

    let mut settings = SettingsWindow::new(config);
    settings.reset_to_defaults();

    assert_eq!(settings.config.transcription.model, "base");
    assert!(settings.has_changes);
}

#[test]
fn test_save_outcomes() {
    let mut settings = SettingsWindow::new(Config::default());
    settings.reset_to_defaults();
    assert!(settings.has_changes);

    settings.apply_save_outcome(Ok(()));
    assert!(!settings.has_changes);
    assert_eq!(settings.status_message.as_deref(), Some("Settings saved successfully!"));

    settings.reset_to_defaults();
    settings.apply_save_outcome(Err("disk full".to_string()));
    assert!(settings.has_changes);
    assert_eq!(settings.status_message.as_deref(), Some("Error saving settings: disk full"));
}
