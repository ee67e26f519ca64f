//! Language codes and names.

use voxai::language::Language;

#[test]
fn test_language_to_code() {
    assert_eq!(Language::English.to_code(), "en");
    assert_eq!(Language::French.to_code(), "fr");
    assert_eq!(Language::Auto.to_code(), "auto");
}

#[test]
fn test_language_from_code() {
    assert_eq!(Language::from_code("en"), Language::English);
    assert_eq!(Language::from_code("fr"), Language::French);
    assert_eq!(Language::from_code("auto"), Language::Auto);
}

#[test]
fn test_custom_language() {
    let custom = Language::Custom("custom".to_string());
    assert_eq!(custom.to_code(), "custom");
}

#[test]
fn test_all_languages() {
    let languages = Language::all();
    assert!(languages.len() >= 10);
    assert!(languages.contains(&Language::English));
}

#[test]
fn test_unknown_code_round_trips() {
    let l = Language::from_code("eo");
    assert_eq!(l, Language::Custom("eo".to_string()));
    assert_eq!(l.to_code(), "eo");
    assert_eq!(l.display_name(), "eo");
}

#[test]
fn test_language_default() {
    assert_eq!(Language::default(), Language::Auto);
}
