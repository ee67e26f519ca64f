//! Configuration defaults and validation.

use voxai::config::{
    get_config_path, validate_config, AudioConfig, Config, ConfigError, HotkeyConfig,
    TranscriptionConfig, UiConfig,
};

#[test]
fn test_config_load_and_save() {
    // Test loading default config
    let config = Config::default();

    // Verify defaults
    assert_eq!(config.version, "1.0.0");
    assert_eq!(config.audio.sample_rate, 16000);
    assert_eq!(config.transcription.model, "base");
    assert!(config.audio.noise_reduction);
}

#[test]
fn test_audio_config_defaults() {
    let audio = AudioConfig::default();
    assert_eq!(audio.input_device, "default");
    assert_eq!(audio.sample_rate, 16000);
    assert!(audio.noise_reduction);
}

#[test]
fn test_transcription_config_defaults() {
    let transcription = TranscriptionConfig::default();
    assert_eq!(transcription.model, "base");
    assert_eq!(transcription.language, "auto");
    assert!(transcription.enable_gpu);
    assert_eq!(transcription.vad_aggressiveness, 1);
}

#[test]
fn test_hotkey_config_platform_specific() {
    let hotkey = HotkeyConfig::default();

    assert!(hotkey.toggle_recording.contains("Ctrl"));
}

#[test]
fn test_ui_config_defaults() {
    let ui = UiConfig::default();
    assert!(ui.show_overlay);
    assert!(ui.system_notifications);
    assert!(ui.auto_capitalization);
}

#[test]
fn test_default_config() {
    let config = Config::default();
    assert_eq!(config.version, "1.0.0");
    assert_eq!(config.audio.sample_rate, 16000);
    assert_eq!(config.transcription.model, "base");
}

#[test]
fn test_get_config_path() {
    let path = get_config_path().unwrap();
    assert!(path.contains("voxai"));
    assert!(path.ends_with("config.json"));
}

#[test]
fn test_validate_config_valid() {
    let config = Config::default();
    assert!(validate_config(&config).is_ok());
}

#[test]
fn test_validate_config_invalid_model() {
    let mut config = Config::default();
    config.transcription.model = "invalid".to_string();
    assert!(validate_config(&config).is_err());
}

#[test]
fn test_validate_config_invalid_sample_rate() {
    let mut config = Config::default();
    config.audio.sample_rate = 48000;
    assert!(validate_config(&config).is_err());
}

#[test]
fn test_validate_config_invalid_vad() {
    let mut config = Config::default();
    config.transcription.vad_aggressiveness = 5;
    assert!(validate_config(&config).is_err());
}

#[test]
fn test_validate_config_error_variants() {
    let mut config = Config::default();
    config.transcription.model = "huge".to_string();
    assert_eq!(validate_config(&config), Err(ConfigError::InvalidModel));

    let mut config = Config::default();
    config.audio.sample_rate = 44100;
    assert_eq!(validate_config(&config), Err(ConfigError::InvalidSampleRate));

    let mut config = Config::default();
    config.transcription.vad_aggressiveness = 4;
    assert_eq!(validate_config(&config), Err(ConfigError::InvalidVadAggressiveness));

    let mut config = Config::default();
    config.hotkeys.toggle_recording = String::new();
    assert_eq!(validate_config(&config), Err(ConfigError::EmptyHotkey));
}
