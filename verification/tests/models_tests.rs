//! Model catalogue, paths and machine-based selection.

use voxai::models::{
    get_models_dir, list_downloaded_models, parse_model_size, select_model_for,
    size_within_tolerance, ModelSize,
};
use voxai::whisper::WhisperContext;

#[test]
fn test_model_size_parsing() {
    assert_eq!("base".parse::<ModelSize>().unwrap(), ModelSize::Base);
    assert_eq!("TINY".parse::<ModelSize>().unwrap(), ModelSize::Tiny);
    assert!("invalid".parse::<ModelSize>().is_err());
}

#[test]
fn test_model_filenames() {
    assert_eq!(ModelSize::Tiny.filename(), "ggml-tiny.bin");
    assert_eq!(ModelSize::Base.filename(), "ggml-base.bin");
    assert_eq!(ModelSize::Small.filename(), "ggml-small.bin");
    assert_eq!(ModelSize::Medium.filename(), "ggml-medium.bin");
}

#[test]
fn test_models_dir() {
    let dir = get_models_dir().unwrap();
    assert!(dir.contains(".voxai"));
    assert!(dir.ends_with("/.voxai/models"));
}

#[test]
fn test_all_models() {
    let all = ModelSize::all();
    assert_eq!(all.len(), 4);
    assert!(all.contains(&ModelSize::Tiny));
    assert!(all.contains(&ModelSize::Medium));
}

#[test]
fn test_parse_error_message() {
    let err = parse_model_size("giant").unwrap_err();
    assert_eq!(err, "Unknown model size: giant");
}

#[test]
fn test_model_ram_and_sizes() {
    assert_eq!(ModelSize::Tiny.ram_requirement(), 1);
    assert_eq!(ModelSize::Medium.ram_requirement(), 5);
    assert_eq!(ModelSize::Tiny.file_size(), 75_852_960);
    assert!(ModelSize::Tiny.file_size() < ModelSize::Medium.file_size());
    assert!(ModelSize::Tiny.expected_sha256().is_none());
}

#[test]
fn test_download_urls() {
    assert_eq!(
        ModelSize::Base.download_url(),
        "https://huggingface.co/ggerganov/whisper.cpp/resolve/main/ggml-base.bin"
    );
    assert_eq!(ModelSize::Base.display_name(), "Base");
}

#[test]
fn test_select_model_ladder() {
    assert_eq!(select_model_for(16, 16, true), ModelSize::Medium);
    assert_eq!(select_model_for(16, 16, false), ModelSize::Small);
    assert_eq!(select_model_for(4, 2, false), ModelSize::Base);
    assert_eq!(select_model_for(2, 1, false), ModelSize::Tiny);
    // a GPU without enough memory does not pick the medium model
    assert_eq!(select_model_for(8, 4, true), ModelSize::Small);
}

#[test]
fn test_size_tolerance() {
    assert!(size_within_tolerance(100, 100));
    assert!(size_within_tolerance(110, 100));
    assert!(size_within_tolerance(90, 100));
    assert!(!size_within_tolerance(111, 100));
    assert!(!size_within_tolerance(89, 100));
}

#[test]
fn test_list_models() {
    let models = list_downloaded_models().unwrap();
    // nothing is downloaded in this environment; the call just works
    assert!(models.len() <= 4);
}

#[test]
fn test_whisper_context_placeholder() {
    let result = WhisperContext::new(ModelSize::Base);
    // We expect an error since no model is downloaded in test environment
    assert!(result.is_err());
}
