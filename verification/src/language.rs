//! Languages a transcription can be asked for, with their ISO 639-1
//! codes and display names.

use vstd::prelude::*;

verus! {

use crate::strutil::str_eq;
use vstd::string::{StrSliceExecFns, StringExecFns};

/// Supported transcription languages; `Custom` carries any other ISO
/// code verbatim.
#[derive(Debug, Clone)]
pub enum Language {
    /// Automatic language detection.
    Auto,
    English,
    French,
    Spanish,
    German,
    Italian,
    Portuguese,
    Chinese,
    Japanese,
    Korean,
    /// Any other language code.
    Custom(String),
}

/// Language equality: same variant, and for `Custom` the same code.
pub open spec fn lang_eq(a: Language, b: Language) -> bool {
    match (a, b) {
        (Language::Auto, Language::Auto) => true,
        (Language::English, Language::English) => true,
        (Language::French, Language::French) => true,
        (Language::Spanish, Language::Spanish) => true,
        (Language::German, Language::German) => true,
        (Language::Italian, Language::Italian) => true,
        (Language::Portuguese, Language::Portuguese) => true,
        (Language::Chinese, Language::Chinese) => true,
        (Language::Japanese, Language::Japanese) => true,
        (Language::Korean, Language::Korean) => true,
        (Language::Custom(x), Language::Custom(y)) => x@ == y@,
        _ => false,
    }
}

impl PartialEq for Language {
    fn eq(&self, other: &Language) -> (r: bool) {
        match (self, other) {
            (Language::Auto, Language::Auto) => true,
            (Language::English, Language::English) => true,
            (Language::French, Language::French) => true,
            (Language::Spanish, Language::Spanish) => true,
            (Language::German, Language::German) => true,
            (Language::Italian, Language::Italian) => true,
            (Language::Portuguese, Language::Portuguese) => true,
            (Language::Chinese, Language::Chinese) => true,
            (Language::Japanese, Language::Japanese) => true,
            (Language::Korean, Language::Korean) => true,
            (Language::Custom(x), Language::Custom(y)) => str_eq(x.as_str(), y.as_str()),
            _ => false,
        }
    }
}

impl vstd::std_specs::cmp::PartialEqSpecImpl for Language {
    open spec fn obeys_eq_spec() -> bool {
        true
    }

    open spec fn eq_spec(&self, other: &Language) -> bool {
        lang_eq(*self, *other)
    }
}

/// The ISO 639-1 code of each language; `Custom` carries its own.
pub open spec fn spec_code(l: Language) -> Seq<char> {
    match l {
        Language::Auto => "auto"@,
        Language::English => "en"@,
        Language::French => "fr"@,
        Language::Spanish => "es"@,
        Language::German => "de"@,
        Language::Italian => "it"@,
        Language::Portuguese => "pt"@,
        Language::Chinese => "zh"@,
        Language::Japanese => "ja"@,
        Language::Korean => "ko"@,
        Language::Custom(code) => code@,
    }
}

impl Language {
    /// The ISO 639-1 code for this language.
    pub fn to_code(&self) -> (r: String)
        ensures
            r@ == spec_code(*self),
    {
        match self {
            Language::Auto => String::from_str("auto"),
            Language::English => String::from_str("en"),
            Language::French => String::from_str("fr"),
            Language::Spanish => String::from_str("es"),
            Language::German => String::from_str("de"),
            Language::Italian => String::from_str("it"),
            Language::Portuguese => String::from_str("pt"),
            Language::Chinese => String::from_str("zh"),
            Language::Japanese => String::from_str("ja"),
            Language::Korean => String::from_str("ko"),
            Language::Custom(code) => code.clone(),
        }
    }

    /// The language a code names; an unknown code comes back verbatim as
    /// `Custom`.
    #[verifier::rlimit(50)]
    pub fn from_code(code: &str) -> (r: Language)
        ensures
            code@ == "auto"@ ==> r == Language::Auto,
            code@ == "en"@ ==> r == Language::English,
            code@ == "fr"@ ==> r == Language::French,
            code@ == "es"@ ==> r == Language::Spanish,
            code@ == "de"@ ==> r == Language::German,
            code@ == "it"@ ==> r == Language::Italian,
            code@ == "pt"@ ==> r == Language::Portuguese,
            code@ == "zh"@ ==> r == Language::Chinese,
            code@ == "ja"@ ==> r == Language::Japanese,
            code@ == "ko"@ ==> r == Language::Korean,
            r is Custom ==> spec_code(r) == code@,
            !(code@ == "auto"@ || code@ == "en"@ || code@ == "fr"@ || code@ == "es"@ || code@
                == "de"@ || code@ == "it"@ || code@ == "pt"@ || code@ == "zh"@ || code@ == "ja"@
                || code@ == "ko"@) ==> r is Custom,
    {
        proof {
            reveal_strlit("auto");
            reveal_strlit("en");
            reveal_strlit("fr");
            reveal_strlit("es");
            reveal_strlit("de");
            reveal_strlit("it");
            reveal_strlit("pt");
            reveal_strlit("zh");
            reveal_strlit("ja");
            reveal_strlit("ko");
            assert("auto"@ =~= seq!['a', 'u', 't', 'o']);
            assert("en"@ =~= seq!['e', 'n']);
            assert("fr"@ =~= seq!['f', 'r']);
            assert("es"@ =~= seq!['e', 's']);
            assert("de"@ =~= seq!['d', 'e']);
            assert("it"@ =~= seq!['i', 't']);
            assert("pt"@ =~= seq!['p', 't']);
            assert("zh"@ =~= seq!['z', 'h']);
            assert("ja"@ =~= seq!['j', 'a']);
            assert("ko"@ =~= seq!['k', 'o']);
        }
        if str_eq(code, "auto") {
            Language::Auto
        } else if str_eq(code, "en") {
            Language::English
        } else if str_eq(code, "fr") {
            Language::French
        } else if str_eq(code, "es") {
            Language::Spanish
        } else if str_eq(code, "de") {
            Language::German
        } else if str_eq(code, "it") {
            Language::Italian
        } else if str_eq(code, "pt") {
            Language::Portuguese
        } else if str_eq(code, "zh") {
            Language::Chinese
        } else if str_eq(code, "ja") {
            Language::Japanese
        } else if str_eq(code, "ko") {
            Language::Korean
        } else {
            Language::Custom(String::from_str(code))
        }
    }

    /// All supported languages, detection first.
    pub fn all() -> (r: Vec<Language>)
        ensures
            r@.len() == 10,
            r@[0] == Language::Auto,
            r@[1] == Language::English,
            r@[2] == Language::French,
            r@[3] == Language::Spanish,
            r@[4] == Language::German,
            r@[5] == Language::Italian,
            r@[6] == Language::Portuguese,
            r@[7] == Language::Chinese,
            r@[8] == Language::Japanese,
            r@[9] == Language::Korean,
    {
        let mut r: Vec<Language> = Vec::new();
        r.push(Language::Auto);
        r.push(Language::English);
        r.push(Language::French);
        r.push(Language::Spanish);
        r.push(Language::German);
        r.push(Language::Italian);
        r.push(Language::Portuguese);
        r.push(Language::Chinese);
        r.push(Language::Japanese);
        r.push(Language::Korean);
        r
    }

    /// The human-readable name, in the language itself.
    pub fn display_name(&self) -> (r: String)
        ensures
            r@ == match *self {
                Language::Auto => "Auto-detect"@,
                Language::English => "English"@,
                Language::French => "Français"@,
                Language::Spanish => "Español"@,
                Language::German => "Deutsch"@,
                Language::Italian => "Italiano"@,
                Language::Portuguese => "Português"@,
                Language::Chinese => "中文"@,
                Language::Japanese => "日本語"@,
                Language::Korean => "한국어"@,
                Language::Custom(ref code) => code@,
            },
    {
        match self {
            Language::Auto => String::from_str("Auto-detect"),
            Language::English => String::from_str("English"),
            Language::French => String::from_str("Français"),
            Language::Spanish => String::from_str("Español"),
            Language::German => String::from_str("Deutsch"),
            Language::Italian => String::from_str("Italiano"),
            Language::Portuguese => String::from_str("Português"),
            Language::Chinese => String::from_str("中文"),
            Language::Japanese => String::from_str("日本語"),
            Language::Korean => String::from_str("한국어"),
            Language::Custom(code) => code.clone(),
        }
    }
}

impl Default for Language {
    /// Automatic detection.
    fn default() -> (r: Language)
        ensures
            r == Language::Auto,
    {
        Language::Auto
    }
}

} // verus!
