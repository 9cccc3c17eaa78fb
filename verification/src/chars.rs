//! Character-level helpers shared by the text normalizer: classification of
//! word and whitespace characters, ASCII lowercasing, and the two conversions
//! between strings and character vectors.

use vstd::prelude::*;
use vstd::std_specs::iter::IteratorSpec;

verus! {

broadcast use vstd::string::axiom_spec_iter, vstd::string::next_postcondition;


/// A word character: ASCII letter, digit, or underscore. Characters outside
/// ASCII are treated as punctuation by the normalizer and become spaces.
pub open spec fn is_word_char(c: char) -> bool {
    ('a' <= c && c <= 'z') || ('A' <= c && c <= 'Z') || ('0' <= c && c <= '9') || c == '_'
}

/// A whitespace character, per the ASCII whitespace set.
pub open spec fn is_space_char(c: char) -> bool {
    c == ' ' || c == '\t' || c == '\n' || c == '\r' || c == '\u{b}' || c == '\u{c}'
}

/// An ASCII decimal digit.
pub open spec fn is_digit_char(c: char) -> bool {
    '0' <= c && c <= '9'
}

/// ASCII lowercasing of a single character; non-ASCII letters are unchanged.
pub open spec fn lower_char(c: char) -> char {
    if 'A' <= c && c <= 'Z' {
        (((c as u32) + 32) as u8) as char
    } else {
        c
    }
}

/// Pointwise ASCII lowercasing of a character sequence.
pub open spec fn lower_chars(s: Seq<char>) -> Seq<char> {
    s.map_values(|c: char| lower_char(c))
}

pub fn word_char(c: char) -> (r: bool)
    ensures
        r == is_word_char(c),
{
    ('a' <= c && c <= 'z') || ('A' <= c && c <= 'Z') || ('0' <= c && c <= '9') || c == '_'
}

pub fn space_char(c: char) -> (r: bool)
    ensures
        r == is_space_char(c),
{
    c == ' ' || c == '\t' || c == '\n' || c == '\r' || c == '\u{b}' || c == '\u{c}'
}

pub fn digit_char(c: char) -> (r: bool)
    ensures
        r == is_digit_char(c),
{
    '0' <= c && c <= '9'
}

pub fn to_lower_char(c: char) -> (r: char)
    ensures
        r == lower_char(c),
{
    if 'A' <= c && c <= 'Z' {
        (((c as u32) + 32) as u8) as char
    } else {
        c
    }
}

/// ASCII-lowercases a whole character vector.
pub fn to_lower_chars(v: &Vec<char>) -> (r: Vec<char>)
    ensures
        r@ == lower_chars(v@),
{
    let mut out: Vec<char> = Vec::new();
    let mut i: usize = 0;
    while i < v.len()
        invariant
            i <= v.len(),
            out@ == lower_chars(v@.take(i as int)),
        decreases v.len() - i,
    {
        out.push(to_lower_char(v[i]));
        proof {
            assert(out@ =~= lower_chars(v@.take(i + 1 as int)));
        }
        i = i + 1;
    }
    proof {
        assert(v@.take(v@.len() as int) =~= v@);
    }
    out
}

/// Compares two character vectors for equality of their contents.
pub fn eq_chars(a: &Vec<char>, b: &Vec<char>) -> (r: bool)
    ensures
        r == (a@ == b@),
{
    if a.len() != b.len() {
        return false;
    }
    let mut i: usize = 0;
    while i < a.len()
        invariant
            i <= a.len(),
            a.len() == b.len(),
            forall|j: int| 0 <= j < i ==> a@[j] == b@[j],
        decreases a.len() - i,
    {
        if a[i] != b[i] {
            return false;
        }
        i = i + 1;
    }
    proof {
        assert(a@ =~= b@);
    }
    true
}

/// Compares a character vector against a string slice.
pub fn eq_chars_str(a: &Vec<char>, s: &str) -> (r: bool)
    ensures
        r == (a@ == s@),
{
    let cs = chars_of(s);
    eq_chars(a, &cs)
}

/// The number of leading characters of `s` that are whitespace.
pub open spec fn leading_spaces(s: Seq<char>) -> nat
    decreases s.len(),
{
    if s.len() > 0 && is_space_char(s[0]) {
        1 + leading_spaces(s.drop_first())
    } else {
        0
    }
}

/// The number of trailing characters of `s` that are whitespace.
pub open spec fn trailing_spaces(s: Seq<char>) -> nat
    decreases s.len(),
{
    if s.len() > 0 && is_space_char(s.last()) {
        1 + trailing_spaces(s.drop_last())
    } else {
        0
    }
}

/// `s` with leading and trailing whitespace removed.
pub open spec fn spec_trim(s: Seq<char>) -> Seq<char> {
    let r = s.skip(leading_spaces(s) as int);
    r.take(r.len() - trailing_spaces(r))
}

/// Trims ASCII whitespace from both ends of a character vector.
pub fn trim_chars(v: &Vec<char>) -> (r: Vec<char>)
    ensures
        r@ == spec_trim(v@),
{
    let mut a: usize = 0;
    while a < v.len() && space_char(v[a])
        invariant
            a <= v.len(),
            forall|i: int| 0 <= i < a ==> is_space_char(v@[i]),
        decreases v.len() - a,
    {
        a = a + 1;
    }
    proof {
        lemma_space_run_is_leading(v@, a as nat);
    }
    let mut b: usize = v.len();
    while b > a && space_char(v[b - 1])
        invariant
            a <= b <= v.len(),
            forall|i: int| 0 <= i < a ==> is_space_char(v@[i]),
            a == leading_spaces(v@),
            forall|i: int| b <= i < v.len() ==> is_space_char(v@[i]),
        decreases b,
    {
        b = b - 1;
    }
    let mut out: Vec<char> = Vec::new();
    let mut i: usize = a;
    while i < b
        invariant
            a <= i <= b <= v.len(),
            out@ == v@.subrange(a as int, i as int),
        decreases b - i,
    {
        out.push(v[i]);
        proof {
            assert(out@ =~= v@.subrange(a as int, i + 1 as int));
        }
        i = i + 1;
    }
    proof {
        let rest = v@.skip(a as int);
        lemma_space_run_is_trailing(rest, (rest.len() - (b - a)) as nat);
        assert(out@ =~= spec_trim(v@));
    }
    out
}

proof fn lemma_space_run_is_leading(s: Seq<char>, a: nat)
    requires
        a <= s.len(),
        forall|i: int| 0 <= i < a ==> is_space_char(s[i]),
        a == s.len() || !is_space_char(s[a as int]),
    ensures
        leading_spaces(s) == a,
    decreases a,
{
    if a > 0 {
        lemma_space_run_is_leading(s.drop_first(), (a - 1) as nat);
    } else {
        if s.len() > 0 && is_space_char(s[0]) {
            assert(false);
        }
    }
}

proof fn lemma_space_run_is_trailing(s: Seq<char>, t: nat)
    requires
        t <= s.len(),
        forall|i: int| s.len() - t <= i < s.len() ==> is_space_char(s[i]),
        t == s.len() || !is_space_char(s[s.len() - t - 1]),
    ensures
        trailing_spaces(s) == t,
    decreases t,
{
    if t > 0 {
        lemma_space_run_is_trailing(s.drop_last(), (t - 1) as nat);
    } else {
        if s.len() > 0 && is_space_char(s.last()) {
            assert(false);
        }
    }
}

/// The characters of a string, in order, collected through `str::chars`
/// and verified against its specification.
pub fn chars_of(s: &str) -> (r: Vec<char>)
    ensures
        r@ == s@,
{
    let mut it = s.chars();
    let mut out: Vec<char> = Vec::new();
    loop
        invariant_except_break
            out@ + it.remaining() == s@,
            it.decrease() is Some,
        ensures
            out@ == s@,
        decreases it.decrease()->0,
    {
        match it.next() {
            Some(c) => {
                out.push(c);
            },
            None => {
                proof {
                    assert(out@ =~= s@);
                }
                break ;
            },
        }
    }
    out
}

/// Relies on `String`'s `FromIterator<char>`: collecting characters builds
/// the string holding exactly those characters in order.
#[verifier::external_body]
pub fn string_of(v: &Vec<char>) -> (r: String)
    ensures
        r@ == v@,
{
    v.iter().collect()
}

} // verus!
