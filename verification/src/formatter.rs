//! Post-processing of transcribed text: whitespace cleanup, sentence
//! capitalization, final punctuation, filler-word removal and case
//! transforms.
//!
//! Every transform is specified exactly over character sequences; only
//! the Unicode case mappings themselves come from the standard library,
//! under the names `upchar_of`, `upper_of` and `lower_of`.

use vstd::prelude::*;

verus! {

use crate::strutil::{
    chars_string, contains_spec, find_first, is_ws, char_is_ws, matches_at, replace_all,
    replace_spec, str_chars, trim_chars, trim_spec,
};

/// Formatting options.
#[derive(Debug, Clone, Copy)]
pub struct FormattingOptions {
    /// Add punctuation if missing.
    pub add_punctuation: bool,
    /// Capitalize the first letter.
    pub capitalize_sentences: bool,
    /// Trim and collapse white space.
    pub trim_whitespace: bool,
    /// Add a final period if missing.
    pub add_final_period: bool,
}

impl Default for FormattingOptions {
    /// Capitalize and trim; the transcription engine usually supplies
    /// punctuation already, so no punctuation is added.
    fn default() -> (r: FormattingOptions)
        ensures
            !r.add_punctuation,
            r.capitalize_sentences,
            r.trim_whitespace,
            !r.add_final_period,
    {
        FormattingOptions {
            add_punctuation: false,
            capitalize_sentences: true,
            trim_whitespace: true,
            add_final_period: false,
        }
    }
}

/// What one character uppercases to: the first character of the Unicode
/// uppercase mapping, the character itself when the mapping is empty.
pub uninterp spec fn upchar_of(c: char) -> char;

/// The Unicode uppercase of a whole string.
pub uninterp spec fn upper_of(s: Seq<char>) -> Seq<char>;

/// The Unicode lowercase of a whole string.
pub uninterp spec fn lower_of(s: Seq<char>) -> Seq<char>;

/// Relies on `char::to_uppercase`: the uppercase mapping of the
/// character, of which the first character is kept (the character
/// itself when the mapping is empty). A function of the character
/// alone.
#[verifier::external_body]
fn upcase_char(c: char) -> (r: char)
    ensures
        r == upchar_of(c),
{
    c.to_uppercase().next().unwrap_or(c)
}

/// Relies on `str::to_uppercase`: the Unicode uppercase of the string,
/// a function of the characters alone; an empty string stays empty.
#[verifier::external_body]
fn upper_str(text: &str) -> (r: String)
    ensures
        r@ == upper_of(text@),
        text@.len() == 0 ==> r@.len() == 0,
{
    text.to_uppercase()
}

/// Relies on `str::to_lowercase`: the Unicode lowercase of the string,
/// a function of the characters alone; an empty string stays empty.
#[verifier::external_body]
fn lower_str(text: &str) -> (r: String)
    ensures
        r@ == lower_of(text@),
        text@.len() == 0 ==> r@.len() == 0,
{
    text.to_lowercase()
}

/// Convert to uppercase.
pub fn to_upper(text: &str) -> (r: String)
    ensures
        r@ == upper_of(text@),
{
    upper_str(text)
}

/// Convert to lowercase.
pub fn to_lower(text: &str) -> (r: String)
    ensures
        r@ == lower_of(text@),
{
    lower_str(text)
}

/// Two spaces, the run that collapsing contracts.
pub open spec fn double_space() -> Seq<char> {
    seq![' ', ' ']
}

/// One space.
pub open spec fn single_space() -> Seq<char> {
    seq![' ']
}

/// Replacing a longer pattern by a shorter one never lengthens the
/// text, and strictly shortens it when the pattern occurs.
proof fn lemma_replace_len(s: Seq<char>, pat: Seq<char>, rep: Seq<char>)
    requires
        0 < pat.len(),
        rep.len() < pat.len(),
    ensures
        replace_spec(s, pat, rep).len() <= s.len(),
        contains_spec(s, pat) ==> replace_spec(s, pat, rep).len() < s.len(),
    decreases s.len(),
{
    if s.len() < pat.len() {
        assert forall|at: int| !matches_at(s, pat, at) by {}
    } else if s.take(pat.len() as int) == pat {
        lemma_replace_len(s.skip(pat.len() as int), pat, rep);
    } else {
        lemma_replace_len(s.skip(1), pat, rep);
        if contains_spec(s, pat) {
            let at = choose|at: int| matches_at(s, pat, at);
            assert(at != 0) by {
                if at == 0 {
                    assert(s.subrange(0, pat.len() as int) =~= s.take(pat.len() as int));
                }
            }
            assert(matches_at(s.skip(1), pat, at - 1)) by {
                assert(s.skip(1).subrange(at - 1, at - 1 + pat.len()) =~= s.subrange(
                    at,
                    at + pat.len(),
                ));
            }
        }
    }
}

/// The text once no two spaces stand together: double spaces are
/// replaced by single ones until none remain.
pub open spec fn collapse_spaces_spec(s: Seq<char>) -> Seq<char>
    decreases s.len(),
    via collapse_spaces_decreases
{
    if contains_spec(s, double_space()) {
        collapse_spaces_spec(replace_spec(s, double_space(), single_space()))
    } else {
        s
    }
}

#[via_fn]
proof fn collapse_spaces_decreases(s: Seq<char>) {
    if contains_spec(s, double_space()) {
        lemma_replace_len(s, double_space(), single_space());
    }
}

/// The formatted text: trimmed and space-collapsed when asked, first
/// letter uppercased when asked, and a final period appended when asked
/// and no sentence punctuation already ends the text.
pub open spec fn format_text_spec(s: Seq<char>, o: FormattingOptions) -> Seq<char> {
    let t1 = if o.trim_whitespace {
        collapse_spaces_spec(trim_spec(s))
    } else {
        s
    };
    let t2 = if o.capitalize_sentences && t1.len() > 0 {
        seq![upchar_of(t1[0])] + t1.skip(1)
    } else {
        t1
    };
    if o.add_final_period && t2.len() > 0 && t2.last() != '.' && t2.last() != '!' && t2.last()
        != '?' {
        t2.push('.')
    } else {
        t2
    }
}

/// Format transcribed text according to the options; formatting itself
/// cannot fail.
#[verifier::loop_isolation(false)]
pub fn format_text(text: &str, options: &FormattingOptions) -> (r: Result<String, ()>)
    ensures
        r is Ok,
        r.unwrap()@ == format_text_spec(text@, *options),
{
    let mut v = str_chars(text);
    if options.trim_whitespace {
        v = trim_chars(&v);
        let ghost trimmed = v@;
        let mut dbl: Vec<char> = Vec::new();
        dbl.push(' ');
        dbl.push(' ');
        let mut sgl: Vec<char> = Vec::new();
        sgl.push(' ');
        proof {
            assert(dbl@ =~= double_space());
            assert(sgl@ =~= single_space());
        }
        loop
            invariant
                dbl@ == double_space(),
                sgl@ == single_space(),
                collapse_spaces_spec(v@) == collapse_spaces_spec(trimmed),
            decreases v@.len(),
        {
            match find_first(&v, &dbl) {
                Some(_) => {
                    proof {
                        lemma_replace_len(v@, double_space(), single_space());
                    }
                    v = replace_all(&v, &dbl, &sgl);
                },
                None => {
                    break ;
                },
            }
        }
        proof {
            assert(v@ == collapse_spaces_spec(trimmed));
        }
    }
    if options.capitalize_sentences && v.len() > 0 {
        let ghost before = v@;
        let c = upcase_char(v[0]);
        v.set(0, c);
        proof {
            assert(v@ =~= seq![upchar_of(before[0])] + before.skip(1));
        }
    }
    if options.add_final_period && v.len() > 0 {
        let last = v[v.len() - 1];
        if !(last == '.' || last == '!' || last == '?') {
            v.push('.');
        }
    }
    Ok(chars_string(&v))
}

/// One filler stripped, in the order the replacements are applied: the
/// filler between spaces leaves one space, then a filler at the start
/// of a run and one at the end disappear entirely.
pub open spec fn strip_filler(s: Seq<char>, f: Seq<char>) -> Seq<char> {
    let a = replace_spec(s, seq![' '] + f + seq![' '], seq![' ']);
    let b = replace_spec(a, f + seq![' '], Seq::<char>::empty());
    replace_spec(b, seq![' '] + f, Seq::<char>::empty())
}

/// The text with the six filler words removed, then trimmed.
pub open spec fn remove_fillers_spec(s: Seq<char>) -> Seq<char> {
    trim_spec(
        strip_filler(
            strip_filler(
                strip_filler(
                    strip_filler(strip_filler(strip_filler(s, "um"@), "uh"@), "like"@),
                    "you know"@,
                ),
                "kind of"@,
            ),
            "sort of"@,
        ),
    )
}

/// Strip one filler from the text, exactly as `strip_filler` says.
fn strip_filler_vec(v: Vec<char>, f: &Vec<char>) -> (r: Vec<char>)
    requires
        f@.len() > 0,
    ensures
        r@ == strip_filler(v@, f@),
{
    let mut spaced: Vec<char> = Vec::new();
    spaced.push(' ');
    spaced.extend_from_slice(f.as_slice());
    spaced.push(' ');
    let mut leading: Vec<char> = Vec::new();
    leading.extend_from_slice(f.as_slice());
    leading.push(' ');
    let mut trailing: Vec<char> = Vec::new();
    trailing.push(' ');
    trailing.extend_from_slice(f.as_slice());
    let mut sgl: Vec<char> = Vec::new();
    sgl.push(' ');
    let empty: Vec<char> = Vec::new();
    proof {
        assert(spaced@ =~= seq![' '] + f@ + seq![' ']);
        assert(leading@ =~= f@ + seq![' ']);
        assert(trailing@ =~= seq![' '] + f@);
        assert(sgl@ =~= seq![' ']);
        assert(empty@ =~= Seq::<char>::empty());
    }
    let a = replace_all(&v, &spaced, &sgl);
    let b = replace_all(&a, &leading, &empty);
    replace_all(&b, &trailing, &empty)
}

/// Remove the filler words — "um", "uh", "like", "you know", "kind of",
/// "sort of" — and trim the result.
pub fn remove_fillers(text: &str) -> (r: String)
    ensures
        r@ == remove_fillers_spec(text@),
{
    let mut v = str_chars(text);
    let f1 = str_chars("um");
    let f2 = str_chars("uh");
    let f3 = str_chars("like");
    let f4 = str_chars("you know");
    let f5 = str_chars("kind of");
    let f6 = str_chars("sort of");
    proof {
        reveal_strlit("um");
        reveal_strlit("uh");
        reveal_strlit("like");
        reveal_strlit("you know");
        reveal_strlit("kind of");
        reveal_strlit("sort of");
        assert("um"@.len() == 2);
        assert("uh"@.len() == 2);
        assert("like"@.len() == 4);
        assert("you know"@.len() == 8);
        assert("kind of"@.len() == 7);
        assert("sort of"@.len() == 7);
    }
    v = strip_filler_vec(v, &f1);
    v = strip_filler_vec(v, &f2);
    v = strip_filler_vec(v, &f3);
    v = strip_filler_vec(v, &f4);
    v = strip_filler_vec(v, &f5);
    v = strip_filler_vec(v, &f6);
    let t = trim_chars(&v);
    chars_string(&t)
}

/// The longest run of non-white-space characters at the front.
pub open spec fn take_word(s: Seq<char>) -> Seq<char>
    decreases s.len(),
{
    if s.len() == 0 || is_ws(s[0]) {
        Seq::<char>::empty()
    } else {
        seq![s[0]] + take_word(s.skip(1))
    }
}

/// The front word is never longer than the text.
proof fn lemma_take_word_le(s: Seq<char>)
    ensures
        take_word(s).len() <= s.len(),
    decreases s.len(),
{
    if s.len() == 0 || is_ws(s[0]) {
    } else {
        lemma_take_word_le(s.skip(1));
    }
}

/// The front word is exactly the prefix up to the first white space.
proof fn lemma_take_word_chars(s: Seq<char>, k: int)
    requires
        0 <= k <= s.len(),
        forall|j: int| 0 <= j < k ==> !is_ws(s[j]),
        k < s.len() ==> is_ws(s[k]),
    ensures
        take_word(s) == s.take(k),
    decreases k,
{
    if k == 0 {
        assert(s.take(0) =~= Seq::<char>::empty());
    } else {
        assert(!is_ws(s[0]));
        lemma_take_word_chars(s.skip(1), k - 1);
        assert(seq![s[0]] + s.skip(1).take(k - 1) =~= s.take(k));
    }
}

/// The white-space-separated words of the text, in order, without
/// empties.
pub open spec fn words_spec(s: Seq<char>) -> Seq<Seq<char>>
    decreases s.len(),
    via words_spec_decreases
{
    if s.len() == 0 {
        Seq::<Seq<char>>::empty()
    } else if is_ws(s[0]) {
        words_spec(s.skip(1))
    } else {
        seq![take_word(s)] + words_spec(s.skip(take_word(s).len() as int))
    }
}

#[via_fn]
proof fn words_spec_decreases(s: Seq<char>) {
    if s.len() > 0 && !is_ws(s[0]) {
        lemma_take_word_le(s);
        assert(take_word(s).len() >= 1);
    }
}

/// A word with its first character uppercased.
pub open spec fn cap_word(w: Seq<char>) -> Seq<char> {
    if w.len() == 0 {
        w
    } else {
        seq![upchar_of(w[0])] + w.skip(1)
    }
}

/// The capitalized words joined by single spaces.
pub open spec fn join_cap(ws: Seq<Seq<char>>) -> Seq<char>
    decreases ws.len(),
{
    if ws.len() == 0 {
        Seq::<char>::empty()
    } else if ws.len() == 1 {
        cap_word(ws[0])
    } else {
        cap_word(ws[0]) + seq![' '] + join_cap(ws.skip(1))
    }
}

/// Title case: every white-space-separated word capitalized, the words
/// joined by single spaces.
pub open spec fn title_case_spec(s: Seq<char>) -> Seq<char> {
    join_cap(words_spec(s))
}

/// What remains to emit: the joined rest, preceded by a space when a
/// word has already been written and more words follow.
spec fn join_rest(started: bool, ws: Seq<Seq<char>>) -> Seq<char> {
    if !started {
        join_cap(ws)
    } else if ws.len() == 0 {
        Seq::<char>::empty()
    } else {
        seq![' '] + join_cap(ws)
    }
}

/// Splitting off the front word of a word list splits its joined form.
proof fn lemma_join_cap_unfold(ws: Seq<Seq<char>>)
    requires
        ws.len() > 0,
    ensures
        join_cap(ws) == cap_word(ws[0]) + join_rest(true, ws.skip(1)),
{
    if ws.len() == 1 {
        assert(cap_word(ws[0]) + Seq::<char>::empty() =~= cap_word(ws[0]));
    }
}

/// Convert to title case.
#[verifier::loop_isolation(false)]
#[verifier::rlimit(80)]
pub fn to_title_case(text: &str) -> (r: String)
    ensures
        r@ == title_case_spec(text@),
{
    let v = str_chars(text);
    let n = v.len();
    let mut out: Vec<char> = Vec::new();
    let mut started = false;
    let mut i: usize = 0;
    proof {
        assert(v@.skip(0) =~= v@);
    }
    while i < n
        invariant
            i <= n,
            n == v@.len(),
            v@ == text@,
            title_case_spec(text@) == out@ + join_rest(started, words_spec(v@.skip(i as int))),
        decreases n - i,
    {
        if char_is_ws(v[i]) {
            proof {
                assert(v@.skip(i as int).skip(1) =~= v@.skip(i + 1));
                assert(words_spec(v@.skip(i as int)) == words_spec(v@.skip(i + 1)));
            }
            i = i + 1;
        } else {
            // find the end of the word
            let start = i;
            let mut j = i;
            while j < n && !char_is_ws(v[j])
                invariant
                    start <= j <= n,
                    forall|t: int| start <= t < j ==> !is_ws(v@[t]),
                decreases n - j,
            {
                j = j + 1;
            }
            let ghost tail = v@.skip(start as int);
            let ghost w = take_word(tail);
            proof {
                assert forall|t: int| 0 <= t < j - start implies !is_ws(tail[t]) by {
                    assert(tail[t] == v@[start + t]);
                }
                if j < n {
                    assert(is_ws(tail[(j - start) as int]));
                }
                lemma_take_word_chars(tail, j - start);
                assert(w =~= v@.subrange(start as int, j as int));
                assert(words_spec(tail) == seq![w] + words_spec(tail.skip(w.len() as int)));
                assert(tail.skip((j - start) as int) =~= v@.skip(j as int));
                lemma_join_cap_unfold(seq![w] + words_spec(v@.skip(j as int)));
                assert((seq![w] + words_spec(v@.skip(j as int)))[0] == w);
                assert((seq![w] + words_spec(v@.skip(j as int))).skip(1) =~= words_spec(
                    v@.skip(j as int),
                ));
            }
            let ghost out0 = out@;
            if started {
                out.push(' ');
            }
            let ghost out1 = out@;
            let c = upcase_char(v[start]);
            out.push(c);
            let mut k = start + 1;
            while k < j
                invariant
                    start + 1 <= k <= j <= n,
                    out@ == out1 + seq![upchar_of(v@[start as int])] + v@.subrange(
                        start + 1,
                        k as int,
                    ),
                decreases j - k,
            {
                out.push(v[k]);
                proof {
                    assert(out@ =~= out1 + seq![upchar_of(v@[start as int])] + v@.subrange(
                        start + 1,
                        k + 1,
                    ));
                }
                k = k + 1;
            }
            proof {
                assert(cap_word(w) =~= seq![upchar_of(v@[start as int])] + v@.subrange(
                    start + 1,
                    j as int,
                ));
                assert(out@ =~= out0 + (if started {
                    seq![' ']
                } else {
                    Seq::<char>::empty()
                }) + cap_word(w));
            }
            i = j;
            started = true;
        }
    }
    proof {
        assert(v@.skip(n as int) =~= Seq::<char>::empty());
        assert(join_rest(started, words_spec(Seq::<char>::empty())) =~= Seq::<char>::empty());
        assert(out@ =~= title_case_spec(text@));
    }
    chars_string(&out)
}

} // verus!
