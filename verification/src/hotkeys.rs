//! Parsing global hotkey descriptions such as `Ctrl+Shift+R`.
//!
//! A description is split on `+`; each part, trimmed and lowercased
//! (ASCII case only), must name a modifier or a key. Registering the
//! parsed hotkey with the window system is the surrounding runtime's
//! business; the parsing rules, which differ slightly per platform in
//! the modifier words they accept, live here.

use vstd::prelude::*;

verus! {

use crate::strutil::{chars_string, lower_chars, lower_seq, str_chars, str_eq, trim_chars, trim_spec};
use vstd::string::StrSliceExecFns;

/// A press or release of the registered hotkey.
#[derive(Debug, Clone, Copy, PartialEq, Eq, Structural)]
pub enum HotkeyEvent {
    Pressed,
    Released,
}

/// The platform whose modifier vocabulary applies.
#[derive(Debug, Clone, Copy, PartialEq, Eq, Structural)]
pub enum Platform {
    Linux,
    MacOs,
    Windows,
}

/// The default hotkey on Windows.
pub fn default_hotkey_windows() -> (r: &'static str)
    ensures
        r@ == "Ctrl+Shift+Space"@,
{
    "Ctrl+Shift+Space"
}

/// The default hotkey on macOS.
pub fn default_hotkey_macos() -> (r: &'static str)
    ensures
        r@ == "Cmd+Shift+R"@,
{
    "Cmd+Shift+R"
}

/// The default hotkey on Linux.
pub fn default_hotkey_linux() -> (r: &'static str)
    ensures
        r@ == "Ctrl+Shift+R"@,
{
    "Ctrl+Shift+R"
}

/// The default hotkey for the platform this build targets.
pub fn default_hotkey() -> (r: &'static str)
    ensures
        r@ == "Ctrl+Shift+R"@,
{
    default_hotkey_linux()
}

/// Modifier keys of a hotkey.
#[derive(Debug, Clone, Copy, PartialEq, Eq, Structural)]
pub struct HotkeyModifiers {
    pub control: bool,
    pub shift: bool,
    pub alt: bool,
    pub meta: bool,
}

/// The key a hotkey triggers on.
#[derive(Debug, Clone, Copy, PartialEq, Eq, Structural)]
pub enum KeyCode {
    KeyA,
    KeyB,
    KeyC,
    KeyD,
    KeyE,
    KeyF,
    KeyG,
    KeyH,
    KeyI,
    KeyJ,
    KeyK,
    KeyL,
    KeyM,
    KeyN,
    KeyO,
    KeyP,
    KeyQ,
    KeyR,
    KeyS,
    KeyT,
    KeyU,
    KeyV,
    KeyW,
    KeyX,
    KeyY,
    KeyZ,
    Space,
    Enter,
    Escape,
    Tab,
    Backspace,
    F1,
    F2,
    F3,
    F4,
    F5,
    F6,
    F7,
    F8,
    F9,
    F10,
    F11,
    F12,
}

/// A fully parsed hotkey.
#[derive(Debug, Clone, Copy, PartialEq, Eq, Structural)]
pub struct ParsedHotkey {
    pub modifiers: HotkeyModifiers,
    pub key: KeyCode,
}

/// Rejected hotkey descriptions: a part that names nothing, or no key
/// part at all.
#[derive(Debug, Clone, Copy, PartialEq, Eq, Structural)]
pub enum HotkeyError {
    UnknownKey,
    NoKey,
}

/// What one normalized part of a description names.
#[derive(Debug, Clone, Copy, PartialEq, Eq, Structural)]
pub enum PartMeaning {
    Control,
    Shift,
    Alt,
    Meta,
    Key(KeyCode),
    Unknown,
}

/// The longest `+`-free prefix of a description.
pub open spec fn take_part(s: Seq<char>) -> Seq<char>
    decreases s.len(),
{
    if s.len() == 0 || s[0] == '+' {
        Seq::<char>::empty()
    } else {
        seq![s[0]] + take_part(s.skip(1))
    }
}

/// The front part is never longer than the text.
proof fn lemma_take_part_le(s: Seq<char>)
    ensures
        take_part(s).len() <= s.len(),
    decreases s.len(),
{
    if s.len() == 0 || s[0] == '+' {
    } else {
        lemma_take_part_le(s.skip(1));
    }
}

/// The front part is exactly the prefix up to the first `+`.
proof fn lemma_take_part_chars(s: Seq<char>, k: int)
    requires
        0 <= k <= s.len(),
        forall|j: int| 0 <= j < k ==> s[j] != '+',
        k < s.len() ==> s[k] == '+',
    ensures
        take_part(s) == s.take(k),
    decreases k,
{
    if k == 0 {
        assert(s.take(0) =~= Seq::<char>::empty());
    } else {
        assert(s[0] != '+');
        lemma_take_part_chars(s.skip(1), k - 1);
        assert(seq![s[0]] + s.skip(1).take(k - 1) =~= s.take(k));
    }
}

/// The parts of a description, split on `+`, empties kept — as
/// `str::split('+')` yields them.
pub open spec fn split_plus(s: Seq<char>) -> Seq<Seq<char>>
    decreases s.len(),
    via split_plus_decreases
{
    if take_part(s).len() == s.len() {
        seq![s]
    } else {
        seq![take_part(s)] + split_plus(s.skip((take_part(s).len() + 1) as int))
    }
}

#[via_fn]
proof fn split_plus_decreases(s: Seq<char>) {
    lemma_take_part_le(s);
}

/// What a normalized (trimmed, lowercased) part names on a platform.
/// `ctrl`/`control` and `shift` hold everywhere; the Alt and Meta
/// vocabularies differ: Linux takes `alt` and `super`/`meta`/`win`,
/// macOS takes `opt`/`option`/`alt` and `cmd`/`command`/`super`/`meta`,
/// Windows takes `alt` and `win`/`super`/`meta`. macOS additionally
/// reads `delete` as the backspace key.
pub open spec fn part_meaning(w: Seq<char>, p: Platform) -> PartMeaning {
    if w == "ctrl"@ || w == "control"@ {
        PartMeaning::Control
    } else if w == "shift"@ {
        PartMeaning::Shift
    } else if w == "alt"@ || (p == Platform::MacOs && (w == "opt"@ || w == "option"@)) {
        PartMeaning::Alt
    } else if w == "super"@ || w == "meta"@ || (p != Platform::MacOs && w == "win"@) || (p
        == Platform::MacOs && (w == "cmd"@ || w == "command"@)) {
        PartMeaning::Meta
    } else if key_meaning(w, p) is Some {
        PartMeaning::Key(key_meaning(w, p).unwrap())
    } else {
        PartMeaning::Unknown
    }
}

/// The key a normalized part names, if any.
pub open spec fn key_meaning(w: Seq<char>, p: Platform) -> Option<KeyCode> {
    if w == "a"@ {
        Some(KeyCode::KeyA)
    } else if w == "b"@ {
        Some(KeyCode::KeyB)
    } else if w == "c"@ {
        Some(KeyCode::KeyC)
    } else if w == "d"@ {
        Some(KeyCode::KeyD)
    } else if w == "e"@ {
        Some(KeyCode::KeyE)
    } else if w == "f"@ {
        Some(KeyCode::KeyF)
    } else if w == "g"@ {
        Some(KeyCode::KeyG)
    } else if w == "h"@ {
        Some(KeyCode::KeyH)
    } else if w == "i"@ {
        Some(KeyCode::KeyI)
    } else if w == "j"@ {
        Some(KeyCode::KeyJ)
    } else if w == "k"@ {
        Some(KeyCode::KeyK)
    } else if w == "l"@ {
        Some(KeyCode::KeyL)
    } else if w == "m"@ {
        Some(KeyCode::KeyM)
    } else if w == "n"@ {
        Some(KeyCode::KeyN)
    } else if w == "o"@ {
        Some(KeyCode::KeyO)
    } else if w == "p"@ {
        Some(KeyCode::KeyP)
    } else if w == "q"@ {
        Some(KeyCode::KeyQ)
    } else if w == "r"@ {
        Some(KeyCode::KeyR)
    } else if w == "s"@ {
        Some(KeyCode::KeyS)
    } else if w == "t"@ {
        Some(KeyCode::KeyT)
    } else if w == "u"@ {
        Some(KeyCode::KeyU)
    } else if w == "v"@ {
        Some(KeyCode::KeyV)
    } else if w == "w"@ {
        Some(KeyCode::KeyW)
    } else if w == "x"@ {
        Some(KeyCode::KeyX)
    } else if w == "y"@ {
        Some(KeyCode::KeyY)
    } else if w == "z"@ {
        Some(KeyCode::KeyZ)
    } else if w == "space"@ {
        Some(KeyCode::Space)
    } else if w == "enter"@ || w == "return"@ {
        Some(KeyCode::Enter)
    } else if w == "escape"@ || w == "esc"@ {
        Some(KeyCode::Escape)
    } else if w == "tab"@ {
        Some(KeyCode::Tab)
    } else if w == "backspace"@ || (p == Platform::MacOs && w == "delete"@) {
        Some(KeyCode::Backspace)
    } else if w == "f1"@ {
        Some(KeyCode::F1)
    } else if w == "f2"@ {
        Some(KeyCode::F2)
    } else if w == "f3"@ {
        Some(KeyCode::F3)
    } else if w == "f4"@ {
        Some(KeyCode::F4)
    } else if w == "f5"@ {
        Some(KeyCode::F5)
    } else if w == "f6"@ {
        Some(KeyCode::F6)
    } else if w == "f7"@ {
        Some(KeyCode::F7)
    } else if w == "f8"@ {
        Some(KeyCode::F8)
    } else if w == "f9"@ {
        Some(KeyCode::F9)
    } else if w == "f10"@ {
        Some(KeyCode::F10)
    } else if w == "f11"@ {
        Some(KeyCode::F11)
    } else if w == "f12"@ {
        Some(KeyCode::F12)
    } else {
        None
    }
}

/// No modifiers.
pub open spec fn no_modifiers() -> HotkeyModifiers {
    HotkeyModifiers { control: false, shift: false, alt: false, meta: false }
}

/// One part folded into the modifiers and key collected so far.
pub open spec fn apply_meaning(
    state: (HotkeyModifiers, Option<KeyCode>),
    m: PartMeaning,
) -> (HotkeyModifiers, Option<KeyCode>) {
    let (mods, key) = state;
    match m {
        PartMeaning::Control => (HotkeyModifiers { control: true, ..mods }, key),
        PartMeaning::Shift => (HotkeyModifiers { shift: true, ..mods }, key),
        PartMeaning::Alt => (HotkeyModifiers { alt: true, ..mods }, key),
        PartMeaning::Meta => (HotkeyModifiers { meta: true, ..mods }, key),
        PartMeaning::Key(k) => (mods, Some(k)),
        PartMeaning::Unknown => state,
    }
}

/// All parts folded left to right; a part that names nothing fails the
/// whole description.
pub open spec fn parse_fold(
    parts: Seq<Seq<char>>,
    p: Platform,
    state: (HotkeyModifiers, Option<KeyCode>),
) -> Result<(HotkeyModifiers, Option<KeyCode>), ()>
    decreases parts.len(),
{
    if parts.len() == 0 {
        Ok(state)
    } else {
        let w = lower_seq(trim_spec(parts[0]));
        if part_meaning(w, p) == PartMeaning::Unknown {
            Err(())
        } else {
            parse_fold(parts.skip(1), p, apply_meaning(state, part_meaning(w, p)))
        }
    }
}

/// What parsing a whole description yields: the folded modifiers and
/// key, an unknown part reported as such, a description without any key
/// part likewise.
pub open spec fn parse_hotkey_spec(s: Seq<char>, p: Platform) -> Result<
    ParsedHotkey,
    HotkeyError,
> {
    match parse_fold(split_plus(s), p, (no_modifiers(), None)) {
        Result::Err(_) => Err(HotkeyError::UnknownKey),
        Result::Ok((mods, key)) => match key {
            Some(k) => Ok(ParsedHotkey { modifiers: mods, key: k }),
            None => Err(HotkeyError::NoKey),
        },
    }
}

/// What one normalized part names, exactly as `part_meaning` says.
fn classify_part(w: &Vec<char>, p: Platform) -> (r: PartMeaning)
    ensures
        r == part_meaning(w@, p),
{
    let ws = chars_string(w);
    let n = ws.as_str();
    let mac = match p {
        Platform::MacOs => true,
        _ => false,
    };
    if str_eq(n, "ctrl") || str_eq(n, "control") {
        PartMeaning::Control
    } else if str_eq(n, "shift") {
        PartMeaning::Shift
    } else if str_eq(n, "alt") || (mac && (str_eq(n, "opt") || str_eq(n, "option"))) {
        PartMeaning::Alt
    } else if str_eq(n, "super") || str_eq(n, "meta") || (!mac && str_eq(n, "win")) || (mac && (
    str_eq(n, "cmd") || str_eq(n, "command"))) {
        PartMeaning::Meta
    } else {
        match classify_key(n, mac) {
            Some(k) => PartMeaning::Key(k),
            None => PartMeaning::Unknown,
        }
    }
}

/// The key a normalized part names, exactly as `key_meaning` says.
fn classify_key(n: &str, mac: bool) -> (r: Option<KeyCode>)
    ensures
        forall|p: Platform| (mac <==> p == Platform::MacOs) ==> r == key_meaning(n@, p),
{
    if str_eq(n, "a") {
        Some(KeyCode::KeyA)
    } else if str_eq(n, "b") {
        Some(KeyCode::KeyB)
    } else if str_eq(n, "c") {
        Some(KeyCode::KeyC)
    } else if str_eq(n, "d") {
        Some(KeyCode::KeyD)
    } else if str_eq(n, "e") {
        Some(KeyCode::KeyE)
    } else if str_eq(n, "f") {
        Some(KeyCode::KeyF)
    } else if str_eq(n, "g") {
        Some(KeyCode::KeyG)
    } else if str_eq(n, "h") {
        Some(KeyCode::KeyH)
    } else if str_eq(n, "i") {
        Some(KeyCode::KeyI)
    } else if str_eq(n, "j") {
        Some(KeyCode::KeyJ)
    } else if str_eq(n, "k") {
        Some(KeyCode::KeyK)
    } else if str_eq(n, "l") {
        Some(KeyCode::KeyL)
    } else if str_eq(n, "m") {
        Some(KeyCode::KeyM)
    } else if str_eq(n, "n") {
        Some(KeyCode::KeyN)
    } else if str_eq(n, "o") {
        Some(KeyCode::KeyO)
    } else if str_eq(n, "p") {
        Some(KeyCode::KeyP)
    } else if str_eq(n, "q") {
        Some(KeyCode::KeyQ)
    } else if str_eq(n, "r") {
        Some(KeyCode::KeyR)
    } else if str_eq(n, "s") {
        Some(KeyCode::KeyS)
    } else if str_eq(n, "t") {
        Some(KeyCode::KeyT)
    } else if str_eq(n, "u") {
        Some(KeyCode::KeyU)
    } else if str_eq(n, "v") {
        Some(KeyCode::KeyV)
    } else if str_eq(n, "w") {
        Some(KeyCode::KeyW)
    } else if str_eq(n, "x") {
        Some(KeyCode::KeyX)
    } else if str_eq(n, "y") {
        Some(KeyCode::KeyY)
    } else if str_eq(n, "z") {
        Some(KeyCode::KeyZ)
    } else if str_eq(n, "space") {
        Some(KeyCode::Space)
    } else if str_eq(n, "enter") || str_eq(n, "return") {
        Some(KeyCode::Enter)
    } else if str_eq(n, "escape") || str_eq(n, "esc") {
        Some(KeyCode::Escape)
    } else if str_eq(n, "tab") {
        Some(KeyCode::Tab)
    } else if str_eq(n, "backspace") || (mac && str_eq(n, "delete")) {
        Some(KeyCode::Backspace)
    } else if str_eq(n, "f1") {
        Some(KeyCode::F1)
    } else if str_eq(n, "f2") {
        Some(KeyCode::F2)
    } else if str_eq(n, "f3") {
        Some(KeyCode::F3)
    } else if str_eq(n, "f4") {
        Some(KeyCode::F4)
    } else if str_eq(n, "f5") {
        Some(KeyCode::F5)
    } else if str_eq(n, "f6") {
        Some(KeyCode::F6)
    } else if str_eq(n, "f7") {
        Some(KeyCode::F7)
    } else if str_eq(n, "f8") {
        Some(KeyCode::F8)
    } else if str_eq(n, "f9") {
        Some(KeyCode::F9)
    } else if str_eq(n, "f10") {
        Some(KeyCode::F10)
    } else if str_eq(n, "f11") {
        Some(KeyCode::F11)
    } else if str_eq(n, "f12") {
        Some(KeyCode::F12)
    } else {
        None
    }
}

/// Parse a hotkey description for a platform: split on `+`, trim and
/// ASCII-lowercase each part, and fold the parts into modifiers and a
/// key. A part that names nothing, or a description without a key, is
/// rejected.
#[verifier::loop_isolation(false)]
pub fn parse_hotkey(s: &str, p: Platform) -> (r: Result<ParsedHotkey, HotkeyError>)
    ensures
        r == parse_hotkey_spec(s@, p),
{
    let v = str_chars(s);
    let n = v.len();
    let mut mods = HotkeyModifiers { control: false, shift: false, alt: false, meta: false };
    let mut key: Option<KeyCode> = None;
    let mut i: usize = 0;
    let ghost all_parts = split_plus(v@);
    proof {
        assert(v@.skip(0) =~= v@);
    }
    loop
        invariant
            i <= n,
            n == v@.len(),
            v@ == s@,
            parse_fold(all_parts, p, (no_modifiers(), None)) == parse_fold(
                split_plus(v@.skip(i as int)),
                p,
                (mods, key),
            ),
            all_parts == split_plus(s@),
        decreases n - i,
    {
        let ghost tail = v@.skip(i as int);
        let start = i;
        let mut j = i;
        while j < n && v[j] != '+'
            invariant
                start <= j <= n,
                forall|t: int| start <= t < j ==> v@[t] != '+',
            decreases n - j,
        {
            j = j + 1;
        }
        proof {
            assert forall|t: int| 0 <= t < j - start implies tail[t] != '+' by {
                assert(tail[t] == v@[start + t]);
            }
            if j < n {
                assert(tail[(j - start) as int] == v@[j as int]);
            }
            lemma_take_part_chars(tail, j - start);
            assert(take_part(tail) =~= v@.subrange(start as int, j as int));
        }
        let mut part: Vec<char> = Vec::new();
        let mut k = start;
        while k < j
            invariant
                start <= k <= j <= n,
                part@ == v@.subrange(start as int, k as int),
            decreases j - k,
        {
            part.push(v[k]);
            proof {
                assert(part@ =~= v@.subrange(start as int, k + 1));
            }
            k = k + 1;
        }
        let trimmed = trim_chars(&part);
        let normalized = lower_chars(&trimmed);
        let meaning = classify_part(&normalized, p);
        proof {
            assert(normalized@ == lower_seq(trim_spec(take_part(tail))));
        }
        if j == n {
            // last part: the remainder of the description
            proof {
                assert(take_part(tail).len() == tail.len());
                assert(split_plus(tail) == seq![tail]);
                assert(seq![tail][0] == tail);
                assert(seq![tail].skip(1) =~= Seq::<Seq<char>>::empty());
                assert(take_part(tail) =~= tail);
            }
            match meaning {
                PartMeaning::Unknown => {
                    return Err(HotkeyError::UnknownKey);
                },
                PartMeaning::Control => {
                    mods.control = true;
                },
                PartMeaning::Shift => {
                    mods.shift = true;
                },
                PartMeaning::Alt => {
                    mods.alt = true;
                },
                PartMeaning::Meta => {
                    mods.meta = true;
                },
                PartMeaning::Key(kc) => {
                    key = Some(kc);
                },
            }
            proof {
                assert(parse_fold(Seq::<Seq<char>>::empty(), p, (mods, key)) == Ok::<
                    (HotkeyModifiers, Option<KeyCode>),
                    (),
                >((mods, key)));
            }
            match key {
                Some(kc) => {
                    return Ok(ParsedHotkey { modifiers: mods, key: kc });
                },
                None => {
                    return Err(HotkeyError::NoKey);
                },
            }
        } else {
            proof {
                assert(take_part(tail).len() < tail.len());
                assert(split_plus(tail) == seq![take_part(tail)] + split_plus(
                    tail.skip((take_part(tail).len() + 1) as int),
                ));
                assert((seq![take_part(tail)] + split_plus(tail.skip((take_part(tail).len() + 1) as int)))[0]
                    == take_part(tail));
                assert((seq![take_part(tail)] + split_plus(tail.skip((take_part(tail).len() + 1) as int)))
                    .skip(1) =~= split_plus(tail.skip((take_part(tail).len() + 1) as int)));
                assert(tail.skip((take_part(tail).len() + 1) as int) =~= v@.skip(j + 1));
            }
            match meaning {
                PartMeaning::Unknown => {
                    return Err(HotkeyError::UnknownKey);
                },
                PartMeaning::Control => {
                    mods.control = true;
                },
                PartMeaning::Shift => {
                    mods.shift = true;
                },
                PartMeaning::Alt => {
                    mods.alt = true;
                },
                PartMeaning::Meta => {
                    mods.meta = true;
                },
                PartMeaning::Key(kc) => {
                    key = Some(kc);
                },
            }
            i = j + 1;
        }
    }
}

/// Parse with the Linux modifier vocabulary.
pub fn parse_hotkey_linux(s: &str) -> (r: Result<ParsedHotkey, HotkeyError>)
    ensures
        r == parse_hotkey_spec(s@, Platform::Linux),
{
    parse_hotkey(s, Platform::Linux)
}

/// Parse with the macOS modifier vocabulary.
pub fn parse_hotkey_macos(s: &str) -> (r: Result<ParsedHotkey, HotkeyError>)
    ensures
        r == parse_hotkey_spec(s@, Platform::MacOs),
{
    parse_hotkey(s, Platform::MacOs)
}

/// Parse with the Windows modifier vocabulary.
pub fn parse_hotkey_windows(s: &str) -> (r: Result<ParsedHotkey, HotkeyError>)
    ensures
        r == parse_hotkey_spec(s@, Platform::Windows),
{
    parse_hotkey(s, Platform::Windows)
}

} // verus!
