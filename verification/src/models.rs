//! Transcription model catalogue: sizes, file names, download locations
//! and the machine-based selection rule.

use vstd::prelude::*;

verus! {

use crate::paths::{home_dir_string, join_path, path_exists};
use crate::strutil::{ascii_lower, chars_string, lower_seq, str_eq};
use vstd::string::{StrSliceExecFns, StringExecFns};

/// Available transcription model sizes.
#[derive(Debug, Clone, Copy, PartialEq, Eq, Structural)]
pub enum ModelSize {
    /// Tiny model (~75 MB): fastest, least accurate.
    Tiny,
    /// Base model (~142 MB): good balance.
    Base,
    /// Small model (~466 MB): better accuracy.
    Small,
    /// Medium model (~1.5 GB): high accuracy, wants a GPU.
    Medium,
}

/// Failures of the model path lookups: the platform reported no home
/// directory.
#[derive(Debug, Clone, Copy, PartialEq, Eq, Structural)]
pub enum ModelError {
    NoHomeDirectory,
}

/// The file name each model is stored under.
pub open spec fn spec_filename(m: ModelSize) -> Seq<char> {
    match m {
        ModelSize::Tiny => "ggml-tiny.bin"@,
        ModelSize::Base => "ggml-base.bin"@,
        ModelSize::Small => "ggml-small.bin"@,
        ModelSize::Medium => "ggml-medium.bin"@,
    }
}

/// The lowercase spelling each model answers to.
pub open spec fn model_of_name(w: Seq<char>) -> Option<ModelSize> {
    if w == "tiny"@ {
        Some(ModelSize::Tiny)
    } else if w == "base"@ {
        Some(ModelSize::Base)
    } else if w == "small"@ {
        Some(ModelSize::Small)
    } else if w == "medium"@ {
        Some(ModelSize::Medium)
    } else {
        None
    }
}

/// The machine-based selection ladder: a GPU and plenty of memory take
/// the medium model, strong machines the small one, average machines the
/// base one, and anything weaker the tiny one.
pub open spec fn spec_select_model(cpu_count: int, total_ram_gb: int, has_gpu: bool) -> ModelSize {
    if has_gpu && total_ram_gb >= 8 {
        ModelSize::Medium
    } else if cpu_count >= 8 && total_ram_gb >= 4 {
        ModelSize::Small
    } else if cpu_count >= 4 && total_ram_gb >= 2 {
        ModelSize::Base
    } else {
        ModelSize::Tiny
    }
}

impl ModelSize {
    /// The file name for this model.
    pub fn filename(&self) -> (r: &'static str)
        ensures
            r@ == spec_filename(*self),
    {
        match self {
            ModelSize::Tiny => "ggml-tiny.bin",
            ModelSize::Base => "ggml-base.bin",
            ModelSize::Small => "ggml-small.bin",
            ModelSize::Medium => "ggml-medium.bin",
        }
    }

    /// The expected file size in bytes (approximate).
    pub fn file_size(&self) -> (r: u64)
        ensures
            r == match *self {
                ModelSize::Tiny => 75_852_960u64,
                ModelSize::Base => 141_925_216u64,
                ModelSize::Small => 466_179_104u64,
                ModelSize::Medium => 1_533_628_064u64,
            },
    {
        match self {
            ModelSize::Tiny => 75_852_960,
            ModelSize::Base => 141_925_216,
            ModelSize::Small => 466_179_104,
            ModelSize::Medium => 1_533_628_064,
        }
    }

    /// Where the model can be downloaded from.
    pub fn download_url(&self) -> (r: String)
        ensures
            r@ == "https://huggingface.co/ggerganov/whisper.cpp/resolve/main/"@ + spec_filename(
                *self,
            ),
    {
        let mut s = String::from_str("https://huggingface.co/ggerganov/whisper.cpp/resolve/main/");
        s.append(self.filename());
        s
    }

    /// The human-readable name.
    pub fn display_name(&self) -> (r: &'static str)
        ensures
            r@ == match *self {
                ModelSize::Tiny => "Tiny"@,
                ModelSize::Base => "Base"@,
                ModelSize::Small => "Small"@,
                ModelSize::Medium => "Medium"@,
            },
    {
        match self {
            ModelSize::Tiny => "Tiny",
            ModelSize::Base => "Base",
            ModelSize::Small => "Small",
            ModelSize::Medium => "Medium",
        }
    }

    /// The expected SHA-256 checksum. No checksum list ships with the
    /// library, so verification is skipped: always `None`.
    pub fn expected_sha256(&self) -> (r: Option<&'static str>)
        ensures
            r is None,
    {
        None
    }

    /// Memory requirement in whole gigabytes.
    pub fn ram_requirement(&self) -> (r: u64)
        ensures
            r == match *self {
                ModelSize::Tiny => 1u64,
                ModelSize::Base => 1u64,
                ModelSize::Small => 2u64,
                ModelSize::Medium => 5u64,
            },
    {
        match self {
            ModelSize::Tiny => 1,
            ModelSize::Base => 1,
            ModelSize::Small => 2,
            ModelSize::Medium => 5,
        }
    }

    /// All model sizes, smallest first.
    pub fn all() -> (r: Vec<ModelSize>)
        ensures
            r@ == seq![ModelSize::Tiny, ModelSize::Base, ModelSize::Small, ModelSize::Medium],
    {
        let mut r: Vec<ModelSize> = Vec::new();
        r.push(ModelSize::Tiny);
        r.push(ModelSize::Base);
        r.push(ModelSize::Small);
        r.push(ModelSize::Medium);
        proof {
            assert(r@ =~= seq![
                ModelSize::Tiny,
                ModelSize::Base,
                ModelSize::Small,
                ModelSize::Medium,
            ]);
        }
        r
    }
}

/// Parse a model size from its name, ASCII case-insensitively. Exactly
/// the four known names are accepted; anything else is reported back.
pub fn parse_model_size(s: &str) -> (r: Result<ModelSize, String>)
    ensures
        r is Ok <==> model_of_name(lower_seq(s@)) is Some,
        r is Ok ==> r.unwrap() == model_of_name(lower_seq(s@)).unwrap(),
        r is Err ==> r.unwrap_err()@ == "Unknown model size: "@ + s@,
{
    let lv = ascii_lower(s);
    let ls = chars_string(&lv);
    if str_eq(ls.as_str(), "tiny") {
        Ok(ModelSize::Tiny)
    } else if str_eq(ls.as_str(), "base") {
        Ok(ModelSize::Base)
    } else if str_eq(ls.as_str(), "small") {
        Ok(ModelSize::Small)
    } else if str_eq(ls.as_str(), "medium") {
        Ok(ModelSize::Medium)
    } else {
        let mut msg = String::from_str("Unknown model size: ");
        msg.append(s);
        Err(msg)
    }
}

impl std::str::FromStr for ModelSize {
    type Err = String;

    fn from_str(s: &str) -> Result<ModelSize, String> {
        parse_model_size(s)
    }
}

/// The model directory under a given home directory.
pub fn models_dir_under(home: &str) -> (r: String)
    ensures
        r@ == home@ + "/.voxai/models"@,
{
    let base = join_path(home, ".voxai");
    let r = join_path(base.as_str(), "models");
    proof {
        reveal_strlit("/");
        reveal_strlit(".voxai");
        reveal_strlit("models");
        reveal_strlit("/.voxai/models");
        assert(r@ =~= home@ + "/.voxai/models"@);
    }
    r
}

/// The default model directory: `.voxai/models` under the user's home
/// directory. Fails only when the platform reports no home directory;
/// the caller creates the directory if it wants it on disk.
pub fn get_models_dir() -> (r: Result<String, ModelError>)
    ensures
        r is Err ==> r == Err::<String, ModelError>(ModelError::NoHomeDirectory),
        r is Ok ==> r.unwrap()@.len() >= "/.voxai/models"@.len() && r.unwrap()@.skip(
            r.unwrap()@.len() - "/.voxai/models"@.len(),
        ) == "/.voxai/models"@,
{
    match home_dir_string() {
        Some(home) => {
            let dir = models_dir_under(home.as_str());
            proof {
                assert(dir@.skip(dir@.len() - "/.voxai/models"@.len()) =~= "/.voxai/models"@);
            }
            Ok(dir)
        },
        None => Err(ModelError::NoHomeDirectory),
    }
}

/// The full path a model is stored at: its file name inside the model
/// directory.
pub fn get_model_path(model: ModelSize) -> (r: Result<String, ModelError>)
    ensures
        r is Err ==> r == Err::<String, ModelError>(ModelError::NoHomeDirectory),
        r is Ok ==> ({
            let suffix = "/"@ + spec_filename(model);
            r.unwrap()@.len() >= suffix.len() && r.unwrap()@.skip(
                r.unwrap()@.len() - suffix.len(),
            ) == suffix
        }),
{
    let dir = match get_models_dir() {
        Ok(d) => d,
        Err(e) => {
            return Err(e);
        },
    };
    let p = join_path(dir.as_str(), model.filename());
    proof {
        let suffix = "/"@ + spec_filename(model);
        assert(p@.skip(p@.len() - suffix.len()) =~= suffix);
    }
    Ok(p)
}

/// Whether the model's file is present on disk right now. Fails only
/// when no home directory is known; the answer itself depends on the
/// filesystem.
pub fn is_model_downloaded(model: ModelSize) -> (r: Result<bool, ModelError>)
    ensures
        r is Err ==> r == Err::<bool, ModelError>(ModelError::NoHomeDirectory),
{
    let path = match get_model_path(model) {
        Ok(p) => p,
        Err(e) => {
            return Err(e);
        },
    };
    Ok(path_exists(path.as_str()))
}

/// The models whose files are present on disk right now, smallest first.
/// Fails only when no home directory is known.
pub fn list_downloaded_models() -> (r: Result<Vec<ModelSize>, ModelError>)
    ensures
        r is Err ==> r == Err::<Vec<ModelSize>, ModelError>(ModelError::NoHomeDirectory),
{
    let all = ModelSize::all();
    let mut found: Vec<ModelSize> = Vec::new();
    let mut i: usize = 0;
    while i < all.len()
        invariant
            i <= all@.len(),
        decreases all@.len() - i,
    {
        match is_model_downloaded(all[i]) {
            Ok(true) => found.push(all[i]),
            Ok(false) => (),
            Err(e) => {
                return Err(e);
            },
        }
        i = i + 1;
    }
    Ok(found)
}

/// Pick a model for the machine at hand: exactly the selection ladder of
/// `spec_select_model` over the observed CPU count, memory and GPU
/// presence.
pub fn select_model_for(cpu_count: usize, total_ram_gb: u64, has_gpu: bool) -> (r: ModelSize)
    ensures
        r == spec_select_model(cpu_count as int, total_ram_gb as int, has_gpu),
{
    if has_gpu && total_ram_gb >= 8 {
        ModelSize::Medium
    } else if cpu_count >= 8 && total_ram_gb >= 4 {
        ModelSize::Small
    } else if cpu_count >= 4 && total_ram_gb >= 2 {
        ModelSize::Base
    } else {
        ModelSize::Tiny
    }
}

/// Whether a file of `actual` bytes is within the 10% size tolerance of
/// an expected model size.
pub fn size_within_tolerance(actual: u64, expected: u64) -> (r: bool)
    ensures
        r == (if actual >= expected {
            actual - expected <= expected / 10
        } else {
            expected - actual <= expected / 10
        }),
{
    let diff = if actual >= expected {
        actual - expected
    } else {
        expected - actual
    };
    diff <= expected / 10
}

} // verus!
