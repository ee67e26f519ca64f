//! Text formatting: trimming, capitalization, punctuation, fillers and
//! case transforms.

use voxai::formatter::{format_text, remove_fillers, to_lower, to_title_case, to_upper, FormattingOptions};

#[test]
fn test_format_basic() {
    let options = FormattingOptions::default();
    let result = format_text("hello world", &options).unwrap();
    assert_eq!(result, "Hello world");
}

#[test]
fn test_format_with_period() {
    let mut options = FormattingOptions::default();
    options.add_final_period = true;
    let result = format_text("hello world", &options).unwrap();
    assert_eq!(result, "Hello world.");
}

#[test]
fn test_format_trim() {
    let options = FormattingOptions::default();
    let result = format_text("  hello   world  ", &options).unwrap();
    assert_eq!(result, "Hello world");
}

#[test]
fn test_remove_fillers() {
    let text = "um hello uh world like you know";
    let result = remove_fillers(text);
    assert_eq!(result, "hello world");
}

#[test]
fn test_title_case() {
    let result = to_title_case("hello world foo bar");
    assert_eq!(result, "Hello World Foo Bar");
}

#[test]
fn test_title_case_collapses_whitespace() {
    assert_eq!(to_title_case("  one   two "), "One Two");
    assert_eq!(to_title_case(""), "");
}

#[test]
fn test_format_empty() {
    let options = FormattingOptions::default();
    assert_eq!(format_text("", &options).unwrap(), "");
    // a final period is only added to nonempty text
    let mut options = FormattingOptions::default();
    options.add_final_period = true;
    assert_eq!(format_text("   ", &options).unwrap(), "");
}

#[test]
fn test_format_keeps_existing_punctuation() {
    let mut options = FormattingOptions::default();
    options.add_final_period = true;
    assert_eq!(format_text("done!", &options).unwrap(), "Done!");
    assert_eq!(format_text("done?", &options).unwrap(), "Done?");
    assert_eq!(format_text("done.", &options).unwrap(), "Done.");
}

#[test]
fn test_format_no_options() {
    let options = FormattingOptions {
        add_punctuation: false,
        capitalize_sentences: false,
        trim_whitespace: false,
        add_final_period: false,
    };
    assert_eq!(format_text("  as is  ", &options).unwrap(), "  as is  ");
}

#[test]
fn test_to_upper_and_lower() {
    assert_eq!(to_upper("Hello, World!"), "HELLO, WORLD!");
    assert_eq!(to_lower("Hello, World!"), "hello, world!");
    assert_eq!(to_upper(""), "");
    assert_eq!(to_lower(""), "");
}

#[test]
fn test_default_formatting_options() {
    let o = FormattingOptions::default();
    assert!(!o.add_punctuation);
    assert!(o.capitalize_sentences);
    assert!(o.trim_whitespace);
    assert!(!o.add_final_period);
}
