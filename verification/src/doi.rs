//! The DOI grammar: `10.` followed by four to nine digits, a slash, and at
//! least one character of the DOI suffix alphabet. Extraction scans left to
//! right, takes the longest digit and suffix runs at each match, and
//! continues after each match, so matches never overlap.

use vstd::prelude::*;
use crate::chars::{chars_of, digit_char, is_digit_char, string_of};

verus! {

/// A character of the DOI suffix alphabet.
pub open spec fn is_doi_char(c: char) -> bool {
    c == '-' || c == '.' || c == '_' || c == '(' || c == ')' || c == '/' || c == ':' || ('a' <= c
        && c <= 'z') || ('A' <= c && c <= 'Z') || ('0' <= c && c <= '9')
}

pub fn doi_char(c: char) -> (r: bool)
    ensures
        r == is_doi_char(c),
{
    c == '-' || c == '.' || c == '_' || c == '(' || c == ')' || c == '/' || c == ':' || ('a' <= c
        && c <= 'z') || ('A' <= c && c <= 'Z') || ('0' <= c && c <= '9')
}

/// The length of the leading run of digits.
pub open spec fn digit_run(s: Seq<char>) -> nat
    decreases s.len(),
{
    if s.len() > 0 && is_digit_char(s[0]) {
        1 + digit_run(s.drop_first())
    } else {
        0
    }
}

/// The length of the leading run of DOI suffix characters.
pub open spec fn doi_char_run(s: Seq<char>) -> nat
    decreases s.len(),
{
    if s.len() > 0 && is_doi_char(s[0]) {
        1 + doi_char_run(s.drop_first())
    } else {
        0
    }
}

proof fn lemma_digit_run_le(s: Seq<char>)
    ensures
        digit_run(s) <= s.len(),
    decreases s.len(),
{
    if s.len() > 0 && is_digit_char(s[0]) {
        lemma_digit_run_le(s.drop_first());
    }
}

proof fn lemma_doi_char_run_le(s: Seq<char>)
    ensures
        doi_char_run(s) <= s.len(),
    decreases s.len(),
{
    if s.len() > 0 && is_doi_char(s[0]) {
        lemma_doi_char_run_le(s.drop_first());
    }
}

proof fn lemma_digit_run_exact(s: Seq<char>, k: nat)
    requires
        k <= s.len(),
        forall|i: int| 0 <= i < k ==> is_digit_char(s[i]),
        k == s.len() || !is_digit_char(s[k as int]),
    ensures
        digit_run(s) == k,
    decreases k,
{
    if k > 0 {
        lemma_digit_run_exact(s.drop_first(), (k - 1) as nat);
    } else {
        if s.len() > 0 && is_digit_char(s[0]) {
            assert(false);
        }
    }
}

proof fn lemma_doi_char_run_exact(s: Seq<char>, k: nat)
    requires
        k <= s.len(),
        forall|i: int| 0 <= i < k ==> is_doi_char(s[i]),
        k == s.len() || !is_doi_char(s[k as int]),
    ensures
        doi_char_run(s) == k,
    decreases k,
{
    if k > 0 {
        lemma_doi_char_run_exact(s.drop_first(), (k - 1) as nat);
    } else {
        if s.len() > 0 && is_doi_char(s[0]) {
            assert(false);
        }
    }
}

/// Whether a DOI match starts at position `i` of `s`.
pub open spec fn match_at(s: Seq<char>, i: int) -> bool {
    let k = digit_run(s.skip(i + 3));
    &&& 0 <= i
    &&& i + 3 <= s.len()
    &&& s[i] == '1'
    &&& s[i + 1] == '0'
    &&& s[i + 2] == '.'
    &&& 4 <= k <= 9
    &&& i + 3 + k < s.len()
    &&& s[i + 3 + k] == '/'
    &&& i + 4 + k < s.len()
    &&& is_doi_char(s[i + 4 + k])
}

/// The length of the DOI match starting at `i`: the literal head, the
/// digit run, the slash, and the longest suffix run.
pub open spec fn match_len(s: Seq<char>, i: int) -> nat {
    let k = digit_run(s.skip(i + 3));
    4 + k + doi_char_run(s.skip(i + 4 + k))
}

pub proof fn lemma_match_len_bounds(s: Seq<char>, i: int)
    requires
        match_at(s, i),
    ensures
        match_len(s, i) >= 9,
        i + match_len(s, i) <= s.len(),
{
    let k = digit_run(s.skip(i + 3));
    lemma_doi_char_run_le(s.skip(i + 4 + k));
    assert(doi_char_run(s.skip(i + 4 + k)) >= 1) by {
        assert(is_doi_char(s.skip(i + 4 + k)[0]));
    }
}

/// All DOI matches of `s` at or after position `i`, leftmost first,
/// non-overlapping.
pub open spec fn extract_from(s: Seq<char>, i: int) -> Seq<Seq<char>>
    decreases s.len() - i,
    via extract_from_decreases
{
    if i < 0 || i >= s.len() {
        Seq::empty()
    } else if match_at(s, i) {
        seq![s.subrange(i, i + match_len(s, i))] + extract_from(s, i + match_len(s, i))
    } else {
        extract_from(s, i + 1)
    }
}

#[via_fn]
proof fn extract_from_decreases(s: Seq<char>, i: int) {
    if 0 <= i < s.len() && match_at(s, i) {
        lemma_match_len_bounds(s, i);
    }
}

/// Every DOI-shaped substring of `s`, leftmost first, non-overlapping.
pub open spec fn spec_extract_dois(s: Seq<char>) -> Seq<Seq<char>> {
    extract_from(s, 0)
}

/// If a DOI match starts at `i`, returns the position one past its end.
fn match_end(v: &Vec<char>, i: usize) -> (r: Option<usize>)
    requires
        i < v@.len(),
    ensures
        match r {
            Some(e) => match_at(v@, i as int) && e == i + match_len(v@, i as int) && i < e
                <= v@.len(),
            None => !match_at(v@, i as int),
        },
{
    let n = v.len();
    if v[i] != '1' {
        return None;
    }
    if n - i <= 1 || v[i + 1] != '0' {
        return None;
    }
    if n - i <= 2 || v[i + 2] != '.' {
        return None;
    }
    let mut d: usize = i + 3;
    while d < v.len() && digit_char(v[d])
        invariant
            i + 3 <= d <= v@.len(),
            forall|j: int| i + 3 <= j < d ==> is_digit_char(v@[j]),
        decreases v.len() - d,
    {
        d = d + 1;
    }
    proof {
        let rest = v@.skip(i + 3);
        assert forall|j: int| 0 <= j < d - i - 3 implies is_digit_char(rest[j]) by {
            assert(rest[j] == v@[i + 3 + j]);
        }
        if d < v@.len() {
            assert(rest[(d - i - 3) as int] == v@[d as int]);
        }
        lemma_digit_run_exact(rest, (d - i - 3) as nat);
    }
    let k = d - (i + 3);
    if k < 4 || k > 9 {
        return None;
    }
    if d >= n || v[d] != '/' {
        return None;
    }
    if n - d <= 1 || !doi_char(v[d + 1]) {
        return None;
    }
    let mut m: usize = d + 1;
    while m < v.len() && doi_char(v[m])
        invariant
            d + 1 <= m <= v@.len(),
            forall|j: int| d + 1 <= j < m ==> is_doi_char(v@[j]),
        decreases v.len() - m,
    {
        m = m + 1;
    }
    proof {
        let rest = v@.skip(d + 1);
        assert forall|j: int| 0 <= j < m - d - 1 implies is_doi_char(rest[j]) by {
            assert(rest[j] == v@[d + 1 + j]);
        }
        if m < v@.len() {
            assert(rest[(m - d - 1) as int] == v@[m as int]);
        }
        lemma_doi_char_run_exact(rest, (m - d - 1) as nat);
        assert(match_at(v@, i as int));
        assert(m == i + match_len(v@, i as int));
    }
    Some(m)
}

/// Copies the character range `[a, b)` of a vector into a string.
fn substring_of(v: &Vec<char>, a: usize, b: usize) -> (r: String)
    requires
        a <= b <= v@.len(),
    ensures
        r@ == v@.subrange(a as int, b as int),
{
    let mut out: Vec<char> = Vec::new();
    let mut i: usize = a;
    while i < b
        invariant
            a <= i <= b <= v@.len(),
            out@ == v@.subrange(a as int, i as int),
        decreases b - i,
    {
        out.push(v[i]);
        proof {
            assert(out@ =~= v@.subrange(a as int, i + 1 as int));
        }
        i = i + 1;
    }
    string_of(&out)
}

/// Extracts every DOI-shaped substring, leftmost first, non-overlapping.
pub fn extract_dois(s: &str) -> (r: Vec<String>)
    ensures
        r.deep_view() == spec_extract_dois(s@),
{
    let v = chars_of(s);
    let mut out: Vec<String> = Vec::new();
    let mut i: usize = 0;
    while i < v.len()
        invariant
            i <= v@.len(),
            v@ == s@,
            spec_extract_dois(s@) == out.deep_view() + extract_from(v@, i as int),
        decreases v.len() - i,
    {
        let ghost pre = out.deep_view();
        match match_end(&v, i) {
            Some(e) => {
                let piece = substring_of(&v, i, e);
                out.push(piece);
                proof {
                    assert(out.deep_view() =~~= pre.push(v@.subrange(i as int, e as int)));
                    assert(extract_from(v@, i as int) == seq![
                        v@.subrange(i as int, e as int),
                    ] + extract_from(v@, e as int));
                    assert(pre.push(v@.subrange(i as int, e as int)) + extract_from(v@, e as int)
                        =~~= pre + extract_from(v@, i as int));
                }
                i = e;
            },
            None => {
                i = i + 1;
            },
        }
    }
    proof {
        assert(extract_from(v@, i as int) =~= Seq::<Seq<char>>::empty());
        assert(spec_extract_dois(s@) =~~= out.deep_view());
    }
    out
}

/// The first DOI-shaped substring of `s`, if any.
pub fn parse_doi(s: &str) -> (r: Option<String>)
    ensures
        match r {
            Some(t) => spec_extract_dois(s@).len() > 0 && t@ == spec_extract_dois(s@)[0],
            None => spec_extract_dois(s@).len() == 0,
        },
{
    let found = extract_dois(s);
    if found.len() > 0 {
        let first = found[0].clone();
        proof {
            assert(first@ == found.deep_view()[0]);
        }
        Some(first)
    } else {
        proof {
            assert(spec_extract_dois(s@).len() == found.deep_view().len());
        }
        None
    }
}

/// Whether `s` holds a DOI-shaped substring anywhere.
pub fn is_valid_doi(s: &str) -> (r: bool)
    ensures
        r == (spec_extract_dois(s@).len() > 0),
{
    let found = extract_dois(s);
    proof {
        assert(spec_extract_dois(s@).len() == found.deep_view().len());
    }
    found.len() > 0
}

} // verus!
