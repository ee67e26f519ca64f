//! Verified string utilities shared by the text-facing modules.
//!
//! Strings are processed as vectors of characters: `str_chars` reads a
//! `&str` out, `chars_string` builds a `String` back, and the functions
//! in between (equality, search, replacement, trimming, ASCII case) are
//! specified exactly over `Seq<char>`.

use vstd::prelude::*;

verus! {

use vstd::string::StrSliceExecFns;

/// Relies on `String::push`: appends exactly one character.
#[verifier::external_body]
fn push_char(s: &mut String, c: char)
    ensures
        final(s)@ == old(s)@.push(c),
{
    s.push(c);
}

/// The characters of a string, in order.
pub fn str_chars(s: &str) -> (r: Vec<char>)
    ensures
        r@ == s@,
{
    let n = s.unicode_len();
    let mut r: Vec<char> = Vec::new();
    let mut i: usize = 0;
    while i < n
        invariant
            i <= n,
            n == s@.len(),
            r@ == s@.take(i as int),
        decreases n - i,
    {
        r.push(s.get_char(i));
        proof {
            assert(r@ =~= s@.take(i + 1));
        }
        i = i + 1;
    }
    proof {
        assert(r@ =~= s@);
    }
    r
}

/// A string holding exactly the given characters.
pub fn chars_string(v: &Vec<char>) -> (r: String)
    ensures
        r@ == v@,
{
    let mut r = String::new();
    let mut i: usize = 0;
    while i < v.len()
        invariant
            i <= v@.len(),
            r@ == v@.take(i as int),
        decreases v@.len() - i,
    {
        push_char(&mut r, v[i]);
        proof {
            assert(r@ =~= v@.take(i + 1));
        }
        i = i + 1;
    }
    proof {
        assert(r@ =~= v@);
    }
    r
}

/// Character-for-character string equality.
pub fn str_eq(a: &str, b: &str) -> (r: bool)
    ensures
        r == (a@ == b@),
{
    let la = a.unicode_len();
    let lb = b.unicode_len();
    if la != lb {
        return false;
    }
    let mut i: usize = 0;
    while i < la
        invariant
            i <= la,
            la == a@.len(),
            la == b@.len(),
            forall|j: int| 0 <= j < i ==> a@[j] == b@[j],
        decreases la - i,
    {
        if a.get_char(i) != b.get_char(i) {
            return false;
        }
        i = i + 1;
    }
    proof {
        assert(a@ =~= b@);
    }
    true
}

/// Whether `pat` occurs in `s` starting at position `at`.
pub open spec fn matches_at(s: Seq<char>, pat: Seq<char>, at: int) -> bool {
    0 <= at && at + pat.len() <= s.len() && s.subrange(at, at + pat.len()) == pat
}

/// Check one candidate position for an occurrence of `pat`.
#[verifier::loop_isolation(false)]
fn check_match_at(s: &Vec<char>, pat: &Vec<char>, at: usize) -> (r: bool)
    requires
        at + pat@.len() <= s@.len(),
        s@.len() <= usize::MAX,
    ensures
        r == matches_at(s@, pat@, at as int),
{
    let mut i: usize = 0;
    while i < pat.len()
        invariant
            i <= pat@.len(),
            at + pat@.len() <= s@.len(),
            forall|j: int| 0 <= j < i ==> s@[at + j] == pat@[j],
        decreases pat@.len() - i,
    {
        if s[at + i] != pat[i] {
            proof {
                assert(s@.subrange(at as int, at + pat@.len())[i as int] == s@[at + i]);
            }
            return false;
        }
        i = i + 1;
    }
    proof {
        assert(s@.subrange(at as int, at + pat@.len()) =~= pat@);
    }
    true
}

/// Whether `pat` occurs anywhere in `s`.
pub open spec fn contains_spec(s: Seq<char>, pat: Seq<char>) -> bool {
    exists|at: int| matches_at(s, pat, at)
}

/// Search for `pat` in `s`, returning the first match position.
#[verifier::loop_isolation(false)]
pub fn find_first(s: &Vec<char>, pat: &Vec<char>) -> (r: Option<usize>)
    requires
        pat@.len() > 0,
    ensures
        match r {
            Some(at) => matches_at(s@, pat@, at as int) && forall|j: int|
                0 <= j < at ==> !matches_at(s@, pat@, j),
            None => !contains_spec(s@, pat@),
        },
{
    if pat.len() > s.len() {
        proof {
            assert forall|at: int| !matches_at(s@, pat@, at) by {}
        }
        return None;
    }
    let last = s.len() - pat.len();
    let mut at: usize = 0;
    while at <= last
        invariant
            at <= last + 1,
            last == s@.len() - pat@.len(),
            pat@.len() > 0,
            forall|j: int| 0 <= j < at ==> !matches_at(s@, pat@, j),
        decreases last + 1 - at,
    {
        if check_match_at(s, pat, at) {
            return Some(at);
        }
        at = at + 1;
    }
    proof {
        assert forall|j: int| !matches_at(s@, pat@, j) by {
            if 0 <= j <= last {
                assert(!matches_at(s@, pat@, j));
            }
        }
    }
    None
}

/// `s` with every occurrence of `pat` replaced by `rep`, scanning left
/// to right over non-overlapping occurrences, as `str::replace` does.
pub open spec fn replace_spec(s: Seq<char>, pat: Seq<char>, rep: Seq<char>) -> Seq<char>
    decreases s.len(),
{
    if pat.len() == 0 || s.len() < pat.len() {
        s
    } else if s.take(pat.len() as int) == pat {
        rep + replace_spec(s.skip(pat.len() as int), pat, rep)
    } else {
        seq![s[0]] + replace_spec(s.skip(1), pat, rep)
    }
}

/// Replace every occurrence of `pat` in `s` by `rep`, left to right,
/// without rescanning replacements.
#[verifier::loop_isolation(false)]
#[verifier::rlimit(30)]
pub fn replace_all(s: &Vec<char>, pat: &Vec<char>, rep: &Vec<char>) -> (r: Vec<char>)
    requires
        pat@.len() > 0,
    ensures
        r@ == replace_spec(s@, pat@, rep@),
{
    let mut out: Vec<char> = Vec::new();
    proof {
        assert(s@.skip(0) =~= s@);
        assert(Seq::<char>::empty() + replace_spec(s@, pat@, rep@) =~= replace_spec(
            s@,
            pat@,
            rep@,
        ));
    }
    let mut i: usize = 0;
    while i < s.len()
        invariant
            i <= s@.len(),
            pat@.len() > 0,
            replace_spec(s@, pat@, rep@) == out@ + replace_spec(s@.skip(i as int), pat@, rep@),
        decreases s@.len() - i,
    {
        let ghost pre = out@;
        if pat.len() <= s.len() - i && check_match_at(s, pat, i) {
            let mut k: usize = 0;
            while k < rep.len()
                invariant
                    k <= rep@.len(),
                    out@ == pre + rep@.take(k as int),
                decreases rep@.len() - k,
            {
                out.push(rep[k]);
                proof {
                    assert(out@ =~= pre + rep@.take(k + 1));
                }
                k = k + 1;
            }
            proof {
                assert(out@ =~= pre + rep@);
                assert(s@.skip(i as int).take(pat@.len() as int) =~= s@.subrange(
                    i as int,
                    i + pat@.len(),
                ));
                assert(s@.skip(i as int).skip(pat@.len() as int) =~= s@.skip(i + pat@.len()));
                assert(replace_spec(s@.skip(i as int), pat@, rep@) == rep@ + replace_spec(
                    s@.skip(i + pat@.len()),
                    pat@,
                    rep@,
                ));
            }
            i = i + pat.len();
        } else {
            out.push(s[i]);
            proof {
                let tail = s@.skip(i as int);
                assert(tail.len() > 0);
                assert(tail[0] == s@[i as int]);
                if tail.len() >= pat@.len() {
                    assert(tail.take(pat@.len() as int) =~= s@.subrange(i as int, i + pat@.len())
                        ==> tail.take(pat@.len() as int) == s@.subrange(i as int, i + pat@.len()));
                    assert(tail.take(pat@.len() as int) =~= s@.subrange(i as int, i + pat@.len()));
                    assert(tail.take(pat@.len() as int) != pat@);
                }
                assert(replace_spec(tail, pat@, rep@) == seq![s@[i as int]] + replace_spec(
                    tail.skip(1),
                    pat@,
                    rep@,
                ));
                assert(tail.skip(1) =~= s@.skip(i + 1));
                assert(out@ =~= pre + seq![s@[i as int]]);
                assert(out@ + replace_spec(s@.skip(i + 1), pat@, rep@) =~= pre + replace_spec(
                    tail,
                    pat@,
                    rep@,
                ));
            }
            i = i + 1;
        }
    }
    proof {
        assert(s@.skip(s@.len() as int) =~= Seq::<char>::empty());
        assert(replace_spec(Seq::<char>::empty(), pat@, rep@) == Seq::<char>::empty());
        assert(out@ + Seq::<char>::empty() =~= out@);
    }
    out
}

/// The characters `char::is_whitespace` accepts: Unicode white space.
pub open spec fn is_ws(c: char) -> bool {
    c == ' ' || c == '\t' || c == '\n' || c == '\u{000B}' || c == '\u{000C}' || c == '\r' || c
        == '\u{0085}' || c == '\u{00A0}' || c == '\u{1680}' || c == '\u{2000}' || c == '\u{2001}'
        || c == '\u{2002}' || c == '\u{2003}' || c == '\u{2004}' || c == '\u{2005}' || c
        == '\u{2006}' || c == '\u{2007}' || c == '\u{2008}' || c == '\u{2009}' || c == '\u{200A}'
        || c == '\u{2028}' || c == '\u{2029}' || c == '\u{202F}' || c == '\u{205F}' || c
        == '\u{3000}'
}

/// Whether `c` is Unicode white space, the set `char::is_whitespace`
/// recognizes.
pub fn char_is_ws(c: char) -> (r: bool)
    ensures
        r == is_ws(c),
{
    c == ' ' || c == '\t' || c == '\n' || c == '\u{000B}' || c == '\u{000C}' || c == '\r' || c
        == '\u{0085}' || c == '\u{00A0}' || c == '\u{1680}' || c == '\u{2000}' || c == '\u{2001}'
        || c == '\u{2002}' || c == '\u{2003}' || c == '\u{2004}' || c == '\u{2005}' || c
        == '\u{2006}' || c == '\u{2007}' || c == '\u{2008}' || c == '\u{2009}' || c == '\u{200A}'
        || c == '\u{2028}' || c == '\u{2029}' || c == '\u{202F}' || c == '\u{205F}' || c
        == '\u{3000}'
}

/// `s` without its leading white space.
pub open spec fn trim_start_spec(s: Seq<char>) -> Seq<char>
    decreases s.len(),
{
    if s.len() > 0 && is_ws(s[0]) {
        trim_start_spec(s.skip(1))
    } else {
        s
    }
}

/// `s` without its trailing white space.
pub open spec fn trim_end_spec(s: Seq<char>) -> Seq<char>
    decreases s.len(),
{
    if s.len() > 0 && is_ws(s[s.len() - 1]) {
        trim_end_spec(s.take(s.len() - 1))
    } else {
        s
    }
}

/// `s` without leading and trailing white space, as `str::trim`.
pub open spec fn trim_spec(s: Seq<char>) -> Seq<char> {
    trim_end_spec(trim_start_spec(s))
}

/// Leading white space is an index-wise prefix: dropping it one
/// character at a time reaches the first non-white-space character.
proof fn lemma_trim_start_skip(s: Seq<char>, k: int)
    requires
        0 <= k <= s.len(),
        forall|j: int| 0 <= j < k ==> is_ws(s[j]),
        k < s.len() ==> !is_ws(s[k]),
    ensures
        trim_start_spec(s) == s.skip(k),
    decreases k,
{
    if k == 0 {
        if s.len() > 0 {
        }
        assert(s.skip(0) =~= s);
    } else {
        assert(is_ws(s[0]));
        lemma_trim_start_skip(s.skip(1), k - 1);
        assert(s.skip(1).skip(k - 1) =~= s.skip(k));
    }
}

/// Trailing white space likewise: keeping everything before it is the
/// trimmed sequence.
proof fn lemma_trim_end_take(s: Seq<char>, k: int)
    requires
        0 <= k <= s.len(),
        forall|j: int| k <= j < s.len() ==> is_ws(s[j]),
        k > 0 ==> !is_ws(s[k - 1]),
    ensures
        trim_end_spec(s) == s.take(k),
    decreases s.len() - k,
{
    if k == s.len() {
        assert(s.take(k) =~= s);
    } else {
        assert(is_ws(s[s.len() - 1]));
        lemma_trim_end_take(s.take(s.len() - 1), k);
        assert(s.take(s.len() - 1).take(k) =~= s.take(k));
    }
}

/// `v` without leading and trailing white space.
pub fn trim_chars(v: &Vec<char>) -> (r: Vec<char>)
    ensures
        r@ == trim_spec(v@),
{
    let n = v.len();
    let mut start: usize = 0;
    while start < n && char_is_ws(v[start])
        invariant
            start <= n,
            n == v@.len(),
            forall|j: int| 0 <= j < start ==> is_ws(v@[j]),
        decreases n - start,
    {
        start = start + 1;
    }
    proof {
        lemma_trim_start_skip(v@, start as int);
    }
    let ghost mid = v@.skip(start as int);
    let mut end: usize = n;
    while end > start && char_is_ws(v[end - 1])
        invariant
            start <= end <= n,
            n == v@.len(),
            forall|j: int| end <= j < n ==> is_ws(v@[j]),
        decreases end,
    {
        end = end - 1;
    }
    proof {
        assert forall|j: int| (end - start) <= j < mid.len() implies is_ws(mid[j]) by {
            assert(mid[j] == v@[start + j]);
        }
        if end > start {
            assert(mid[end - start - 1] == v@[end - 1]);
        }
        lemma_trim_end_take(mid, end - start);
    }
    let mut r: Vec<char> = Vec::new();
    let mut i: usize = start;
    while i < end
        invariant
            start <= i <= end <= n,
            n == v@.len(),
            r@ == v@.subrange(start as int, i as int),
        decreases end - i,
    {
        r.push(v[i]);
        proof {
            assert(r@ =~= v@.subrange(start as int, i + 1));
        }
        i = i + 1;
    }
    proof {
        assert(r@ =~= mid.take(end - start));
    }
    r
}

/// ASCII lowercase of one character; other characters are unchanged.
pub open spec fn lower_char(c: char) -> char {
    if 'A' <= c && c <= 'Z' {
        (((c as u8) + 32) as char)
    } else {
        c
    }
}

/// ASCII lowercase of a sequence, character by character.
pub open spec fn lower_seq(s: Seq<char>) -> Seq<char> {
    Seq::new(s.len(), |i: int| lower_char(s[i]))
}

/// ASCII-lowercase a character vector.
pub fn lower_chars(v: &Vec<char>) -> (r: Vec<char>)
    ensures
        r@ == lower_seq(v@),
{
    let mut r: Vec<char> = Vec::new();
    let mut i: usize = 0;
    while i < v.len()
        invariant
            i <= v@.len(),
            r@ == lower_seq(v@).take(i as int),
        decreases v@.len() - i,
    {
        let c = v[i];
        let lc = if 'A' <= c && c <= 'Z' {
            ((c as u8) + 32) as char
        } else {
            c
        };
        r.push(lc);
        proof {
            assert(r@ =~= lower_seq(v@).take(i + 1));
        }
        i = i + 1;
    }
    proof {
        assert(r@ =~= lower_seq(v@));
    }
    r
}

/// ASCII-lowercase a string: `A`-`Z` become `a`-`z`, all else is kept.
pub fn ascii_lower(s: &str) -> (r: Vec<char>)
    ensures
        r@ == lower_seq(s@),
{
    let v = str_chars(s);
    lower_chars(&v)
}

} // verus!
