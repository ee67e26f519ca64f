//! Handle to a transcription model on disk.
//!
//! The real inference engine is an external collaborator; this context
//! checks that the chosen model is present and carries its path and
//! size. `transcribe` answers with the fixed placeholder text until an
//! engine is wired in.

use vstd::prelude::*;

verus! {

use crate::buffer::Sample;
use crate::models::{get_model_path, spec_filename, ModelError, ModelSize};
use crate::paths::path_exists;
use vstd::string::{StrSliceExecFns, StringExecFns};

/// Failures when opening a model: no home directory to look under, or
/// the model file is not downloaded.
#[derive(Debug, Clone, Copy, PartialEq, Eq, Structural)]
pub enum WhisperError {
    NoHomeDirectory,
    ModelNotFound,
}

/// Transcription context for one model.
pub struct WhisperContext {
    model_path: String,
    model_size: ModelSize,
}

impl WhisperContext {
    /// The size of the model this context was opened with.
    pub closed spec fn spec_model_size(&self) -> ModelSize {
        self.model_size
    }

    /// The path of the model file.
    pub closed spec fn spec_model_path(&self) -> Seq<char> {
        self.model_path@
    }

    /// Open a context for `model`. The model file must already be on
    /// disk: a missing file or an unknown home directory is an error and
    /// no context is produced.
    pub fn new(model: ModelSize) -> (r: Result<WhisperContext, WhisperError>)
        ensures
            r is Ok ==> ({
                let c = r.unwrap();
                let suffix = "/"@ + spec_filename(model);
                &&& c.spec_model_size() == model
                &&& c.spec_model_path().len() >= suffix.len()
                &&& c.spec_model_path().skip(c.spec_model_path().len() - suffix.len()) == suffix
            }),
    {
        let model_path = match get_model_path(model) {
            Ok(p) => p,
            Err(ModelError::NoHomeDirectory) => {
                return Err(WhisperError::NoHomeDirectory);
            },
        };
        if !path_exists(model_path.as_str()) {
            return Err(WhisperError::ModelNotFound);
        }
        Ok(WhisperContext { model_path, model_size: model })
    }

    /// Transcribe mono 16 kHz audio. Until an inference engine is wired
    /// in, every call succeeds with the fixed placeholder text.
    pub fn transcribe(&self, audio: &Vec<Sample>) -> (r: Result<String, WhisperError>)
        ensures
            r is Ok,
            r.unwrap()@ == "[Transcription placeholder - whisper-rs not yet integrated]"@,
    {
        let _ = audio.len();
        Ok(String::from_str("[Transcription placeholder - whisper-rs not yet integrated]"))
    }

    /// The model size being used.
    pub fn model_size(&self) -> (r: ModelSize)
        ensures
            r == self.spec_model_size(),
    {
        self.model_size
    }

    /// The model file path.
    pub fn model_path(&self) -> (r: &String)
        ensures
            r@ == self.spec_model_path(),
    {
        &self.model_path
    }
}

} // verus!
