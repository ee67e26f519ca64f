//! Hotkey description parsing on the three platforms.

use voxai::hotkeys::{
    default_hotkey, parse_hotkey_linux, parse_hotkey_macos, parse_hotkey_windows, HotkeyError,
    HotkeyEvent, KeyCode,
};

#[test]
fn test_parse_hotkey_ctrl_shift_r() {
    let hotkey = parse_hotkey_linux("Ctrl+Shift+R");
    assert!(hotkey.is_ok());
}

#[test]
fn test_parse_hotkey_super_shift_v() {
    let hotkey = parse_hotkey_linux("Super+Shift+V");
    assert!(hotkey.is_ok());
}

#[test]
fn linux_test_parse_hotkey_invalid() {
    let hotkey = parse_hotkey_linux("Ctrl+Invalid");
    assert!(hotkey.is_err());
}

#[test]
fn test_parse_hotkey_cmd_shift_r() {
    let hotkey = parse_hotkey_macos("Cmd+Shift+R");
    assert!(hotkey.is_ok());
}

#[test]
fn test_parse_hotkey_ctrl_opt_space() {
    let hotkey = parse_hotkey_macos("Ctrl+Opt+Space");
    assert!(hotkey.is_ok());
}

#[test]
fn macos_test_parse_hotkey_invalid() {
    let hotkey = parse_hotkey_macos("Cmd+Invalid");
    assert!(hotkey.is_err());
}

#[test]
fn test_parse_hotkey_ctrl_shift_space() {
    let hotkey = parse_hotkey_windows("Ctrl+Shift+Space");
    assert!(hotkey.is_ok());
}

#[test]
fn test_parse_hotkey_ctrl_alt_v() {
    let hotkey = parse_hotkey_windows("Ctrl+Alt+V");
    assert!(hotkey.is_ok());
}

#[test]
fn windows_test_parse_hotkey_invalid() {
    let hotkey = parse_hotkey_windows("Ctrl+Unknown");
    assert!(hotkey.is_err());
}

#[test]
fn test_parse_hotkey_empty() {
    let hotkey = parse_hotkey_windows("");
    assert!(hotkey.is_err());
}

#[test]
fn test_default_hotkeys() {
    // Verify a default hotkey is defined and parses
    assert!(!default_hotkey().is_empty());
    assert!(parse_hotkey_linux(default_hotkey()).is_ok());
}

#[test]
fn test_parsed_fields() {
    let hk = parse_hotkey_linux("Ctrl+Shift+R").unwrap();
    assert!(hk.modifiers.control);
    assert!(hk.modifiers.shift);
    assert!(!hk.modifiers.alt);
    assert!(!hk.modifiers.meta);
    assert_eq!(hk.key, KeyCode::KeyR);

    let hk = parse_hotkey_macos(" cmd + f5 ").unwrap();
    assert!(hk.modifiers.meta);
    assert_eq!(hk.key, KeyCode::F5);

    // only macOS reads "delete" as backspace
    assert!(parse_hotkey_macos("Cmd+Delete").is_ok());
    assert!(parse_hotkey_linux("Ctrl+Delete").is_err());
}

#[test]
fn test_no_key_reported() {
    assert_eq!(parse_hotkey_linux("Ctrl+Shift"), Err(HotkeyError::NoKey));
    assert_eq!(parse_hotkey_linux("Ctrl+Oops"), Err(HotkeyError::UnknownKey));
}

#[test]
fn test_hotkey_events_distinct() {
    assert_ne!(HotkeyEvent::Pressed, HotkeyEvent::Released);
}
