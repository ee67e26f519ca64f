//! Application configuration: the settings schema, its defaults, the
//! validation rules, and where the configuration file lives.
//!
//! Reading and writing the file is the surrounding runtime's business;
//! this module owns the values and the rules.

use vstd::prelude::*;

verus! {

use crate::paths::{config_dir_string, join_path, path_exists};
use crate::strutil::str_eq;
use vstd::string::{StrSliceExecFns, StringExecFns};

/// Main application configuration.
#[derive(Debug, Clone)]
pub struct Config {
    /// Configuration schema version for migration support.
    pub version: String,
    /// Audio capture and processing settings.
    pub audio: AudioConfig,
    /// Transcription and model settings.
    pub transcription: TranscriptionConfig,
    /// Global hotkey configuration.
    pub hotkeys: HotkeyConfig,
    /// UI and visual settings.
    pub ui: UiConfig,
}

/// Audio configuration.
#[derive(Debug, Clone)]
pub struct AudioConfig {
    /// Input device name; "default" for the system default.
    pub input_device: String,
    /// Enable noise reduction.
    pub noise_reduction: bool,
    /// Sample rate in Hz; the transcription engine wants 16000.
    pub sample_rate: u32,
}

/// Transcription configuration.
#[derive(Debug, Clone)]
pub struct TranscriptionConfig {
    /// Model size name: "tiny", "base", "small" or "medium".
    pub model: String,
    /// Language code, or "auto" for automatic detection.
    pub language: String,
    /// Enable GPU acceleration if available.
    pub enable_gpu: bool,
    /// Voice activity detection aggressiveness, 0 to 3.
    pub vad_aggressiveness: u8,
}

/// Hotkey configuration.
#[derive(Debug, Clone)]
pub struct HotkeyConfig {
    /// Hotkey that toggles recording.
    pub toggle_recording: String,
}

/// UI configuration.
#[derive(Debug, Clone)]
pub struct UiConfig {
    /// Show a status overlay while recording.
    pub show_overlay: bool,
    /// Enable system notifications.
    pub system_notifications: bool,
    /// Capitalize the first letter of output automatically.
    pub auto_capitalization: bool,
}

/// Rejected configuration values, in the order they are checked, and the
/// missing platform configuration directory.
#[derive(Debug, Clone, Copy, PartialEq, Eq, Structural)]
pub enum ConfigError {
    InvalidModel,
    InvalidSampleRate,
    InvalidVadAggressiveness,
    EmptyHotkey,
    NoConfigDirectory,
}

/// The model names a configuration may carry.
pub open spec fn valid_model_name(m: Seq<char>) -> bool {
    m == "tiny"@ || m == "base"@ || m == "small"@ || m == "medium"@
}

/// A configuration the pipeline accepts: a known model, the fixed
/// 16 kHz rate, an aggressiveness of at most 3 and a nonempty hotkey.
pub open spec fn config_valid(c: &Config) -> bool {
    &&& valid_model_name(c.transcription.model@)
    &&& c.audio.sample_rate == 16000
    &&& c.transcription.vad_aggressiveness <= 3
    &&& c.hotkeys.toggle_recording@.len() > 0
}

/// The default values, field by field.
pub open spec fn is_default_audio(a: AudioConfig) -> bool {
    a.input_device@ == "default"@ && a.noise_reduction && a.sample_rate == 16000
}

pub open spec fn is_default_transcription(t: TranscriptionConfig) -> bool {
    t.model@ == "base"@ && t.language@ == "auto"@ && t.enable_gpu && t.vad_aggressiveness == 1
}

pub open spec fn is_default_hotkeys(h: HotkeyConfig) -> bool {
    h.toggle_recording@ == "Ctrl+Shift+Space"@
}

pub open spec fn is_default_ui(u: UiConfig) -> bool {
    u.show_overlay && u.system_notifications && u.auto_capitalization
}

pub open spec fn is_default_config(c: Config) -> bool {
    &&& c.version@ == "1.0.0"@
    &&& is_default_audio(c.audio)
    &&& is_default_transcription(c.transcription)
    &&& is_default_hotkeys(c.hotkeys)
    &&& is_default_ui(c.ui)
}

impl Default for AudioConfig {
    /// System default device, noise reduction on, 16 kHz.
    fn default() -> (r: AudioConfig)
        ensures
            is_default_audio(r),
    {
        AudioConfig {
            input_device: String::from_str("default"),
            noise_reduction: true,
            sample_rate: 16000,
        }
    }
}

impl Default for TranscriptionConfig {
    /// Base model, automatic language, GPU on, aggressiveness 1.
    fn default() -> (r: TranscriptionConfig)
        ensures
            is_default_transcription(r),
    {
        TranscriptionConfig {
            model: String::from_str("base"),
            language: String::from_str("auto"),
            enable_gpu: true,
            vad_aggressiveness: 1,
        }
    }
}

impl Default for HotkeyConfig {
    /// Control, shift and space toggle recording.
    fn default() -> (r: HotkeyConfig)
        ensures
            is_default_hotkeys(r),
    {
        HotkeyConfig { toggle_recording: String::from_str("Ctrl+Shift+Space") }
    }
}

impl Default for UiConfig {
    /// Overlay, notifications and auto-capitalization all on.
    fn default() -> (r: UiConfig)
        ensures
            is_default_ui(r),
    {
        UiConfig { show_overlay: true, system_notifications: true, auto_capitalization: true }
    }
}

impl Default for Config {
    /// Version 1.0.0 with every section at its defaults.
    fn default() -> (r: Config)
        ensures
            is_default_config(r),
    {
        Config {
            version: String::from_str("1.0.0"),
            audio: AudioConfig::default(),
            transcription: TranscriptionConfig::default(),
            hotkeys: HotkeyConfig::default(),
            ui: UiConfig::default(),
        }
    }
}

/// Check a configuration, reporting the first broken rule: the model
/// name, then the sample rate, then the aggressiveness, then the hotkey.
pub fn validate_config(config: &Config) -> (r: Result<(), ConfigError>)
    ensures
        r is Ok <==> config_valid(config),
        !valid_model_name(config.transcription.model@) ==> r == Err::<(), ConfigError>(
            ConfigError::InvalidModel,
        ),
        valid_model_name(config.transcription.model@) && config.audio.sample_rate != 16000 ==> r
            == Err::<(), ConfigError>(ConfigError::InvalidSampleRate),
        valid_model_name(config.transcription.model@) && config.audio.sample_rate == 16000
            && config.transcription.vad_aggressiveness > 3 ==> r == Err::<(), ConfigError>(
            ConfigError::InvalidVadAggressiveness,
        ),
        valid_model_name(config.transcription.model@) && config.audio.sample_rate == 16000
            && config.transcription.vad_aggressiveness <= 3
            && config.hotkeys.toggle_recording@.len() == 0 ==> r == Err::<(), ConfigError>(
            ConfigError::EmptyHotkey,
        ),
{
    let m = config.transcription.model.as_str();
    let model_ok = str_eq(m, "tiny") || str_eq(m, "base") || str_eq(m, "small") || str_eq(
        m,
        "medium",
    );
    if !model_ok {
        return Err(ConfigError::InvalidModel);
    }
    if config.audio.sample_rate != 16000 {
        return Err(ConfigError::InvalidSampleRate);
    }
    if config.transcription.vad_aggressiveness > 3 {
        return Err(ConfigError::InvalidVadAggressiveness);
    }
    if config.hotkeys.toggle_recording.as_str().unicode_len() == 0 {
        return Err(ConfigError::EmptyHotkey);
    }
    Ok(())
}

/// The default configuration passes validation.
pub proof fn lemma_default_config_valid(c: Config)
    requires
        is_default_config(c),
    ensures
        config_valid(&c),
{
    reveal_strlit("base");
    reveal_strlit("Ctrl+Shift+Space");
    assert("Ctrl+Shift+Space"@.len() == 16);
}

/// The application's configuration directory: `voxai` under the
/// platform configuration directory. Fails only when the platform
/// reports no configuration directory; the caller creates the directory
/// if it wants it on disk.
pub fn get_config_dir() -> (r: Result<String, ConfigError>)
    ensures
        r is Err ==> r == Err::<String, ConfigError>(ConfigError::NoConfigDirectory),
        r is Ok ==> r.unwrap()@.len() >= "/voxai"@.len() && r.unwrap()@.skip(
            r.unwrap()@.len() - "/voxai"@.len(),
        ) == "/voxai"@,
{
    match config_dir_string() {
        Some(base) => {
            let dir = join_path(base.as_str(), "voxai");
            proof {
                reveal_strlit("/");
                reveal_strlit("voxai");
                reveal_strlit("/voxai");
                assert(dir@.skip(dir@.len() - "/voxai"@.len()) =~= "/voxai"@);
            }
            Ok(dir)
        },
        None => Err(ConfigError::NoConfigDirectory),
    }
}

/// The full path of the configuration file: `config.json` inside the
/// configuration directory.
pub fn get_config_path() -> (r: Result<String, ConfigError>)
    ensures
        r is Err ==> r == Err::<String, ConfigError>(ConfigError::NoConfigDirectory),
        r is Ok ==> r.unwrap()@.len() >= "/voxai/config.json"@.len() && r.unwrap()@.skip(
            r.unwrap()@.len() - "/voxai/config.json"@.len(),
        ) == "/voxai/config.json"@,
{
    let dir = match get_config_dir() {
        Ok(d) => d,
        Err(e) => {
            return Err(e);
        },
    };
    let p = join_path(dir.as_str(), "config.json");
    proof {
        reveal_strlit("/");
        reveal_strlit("voxai");
        reveal_strlit("/voxai");
        reveal_strlit("config.json");
        reveal_strlit("/voxai/config.json");
        assert("/voxai"@.len() == 6 && "/"@.len() == 1 && "config.json"@.len() == 11
            && "/voxai/config.json"@.len() == 18);
        assert(dir@.skip(dir@.len() - 6) == "/voxai"@);
        assert(("/voxai"@ + "/"@) + "config.json"@ =~= "/voxai/config.json"@);
        assert forall|i: int| 0 <= i < 18 implies p@.skip(p@.len() - 18)[i]
            == "/voxai/config.json"@[i] by {
            if i < 6 {
                assert(p@[p@.len() - 18 + i] == dir@[dir@.len() - 6 + i]);
                assert(dir@[dir@.len() - 6 + i] == dir@.skip(dir@.len() - 6)[i]);
            }
        }
        assert(p@.skip(p@.len() - "/voxai/config.json"@.len()) =~= "/voxai/config.json"@);
    }
    Ok(p)
}

/// Whether the configuration file exists on disk right now; false when
/// no configuration directory is known.
pub fn config_exists() -> bool {
    match get_config_path() {
        Ok(p) => path_exists(p.as_str()),
        Err(_) => false,
    }
}

} // verus!
