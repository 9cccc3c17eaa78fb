//! The text normalizer. The document path lowercases a string, turns every
//! character that is neither a word character nor whitespace into a space,
//! splits on whitespace, drops tokens that are short, stopwords, or start
//! with two equal characters (an intentional noise filter that also drops
//! some legitimate words), and rejoins the survivors with single spaces.
//! The lighter scalar path keeps every non-stopword token.
//!
//! Lowercasing is ASCII-only here: characters outside ASCII are left alone
//! by it and then stripped to spaces by the punctuation pass, so they never
//! reach a token.

use vstd::prelude::*;
use crate::chars::{
    chars_of, is_space_char, is_word_char, lower_chars, space_char, string_of, to_lower_chars,
    word_char,
};
use crate::stopwords::{is_stopword, stop_token};

verus! {

/// A single character of the punctuation pass: word characters and
/// whitespace survive, everything else becomes a space.
pub open spec fn punct_to_space(c: char) -> char {
    if is_word_char(c) || is_space_char(c) {
        c
    } else {
        ' '
    }
}

/// The punctuation pass over a whole character sequence.
pub open spec fn strip_punct(s: Seq<char>) -> Seq<char> {
    s.map_values(|c: char| punct_to_space(c))
}

/// The length of the leading run of non-whitespace characters.
pub open spec fn token_run(s: Seq<char>) -> nat
    decreases s.len(),
{
    if s.len() > 0 && !is_space_char(s[0]) {
        1 + token_run(s.drop_first())
    } else {
        0
    }
}

pub proof fn lemma_token_run_le(s: Seq<char>)
    ensures
        token_run(s) <= s.len(),
    decreases s.len(),
{
    if s.len() > 0 && !is_space_char(s[0]) {
        lemma_token_run_le(s.drop_first());
    }
}

/// The whitespace-separated tokens of a character sequence, in order.
pub open spec fn tokens_of(s: Seq<char>) -> Seq<Seq<char>>
    decreases s.len(),
    via tokens_of_decreases
{
    if s.len() == 0 {
        Seq::empty()
    } else if is_space_char(s[0]) {
        tokens_of(s.drop_first())
    } else {
        seq![s.take(token_run(s) as int)] + tokens_of(s.skip(token_run(s) as int))
    }
}

#[via_fn]
proof fn tokens_of_decreases(s: Seq<char>) {
    if s.len() > 0 && !is_space_char(s[0]) {
        lemma_token_run_le(s);
    }
}

/// Whether the document filter keeps a token: longer than two characters,
/// not a stopword, and not starting with two equal characters.
pub open spec fn keep_token(t: Seq<char>) -> bool {
    t.len() > 2 && !is_stopword(t) && t[0] != t[1]
}

/// The document filter over a token sequence, order preserved.
pub open spec fn filter_doc_tokens(ts: Seq<Seq<char>>) -> Seq<Seq<char>>
    decreases ts.len(),
{
    if ts.len() == 0 {
        Seq::empty()
    } else {
        let rest = filter_doc_tokens(ts.drop_last());
        if keep_token(ts.last()) {
            rest.push(ts.last())
        } else {
            rest
        }
    }
}

/// The scalar filter over a token sequence: only stopwords are dropped.
pub open spec fn filter_stop_tokens(ts: Seq<Seq<char>>) -> Seq<Seq<char>>
    decreases ts.len(),
{
    if ts.len() == 0 {
        Seq::empty()
    } else {
        let rest = filter_stop_tokens(ts.drop_last());
        if !is_stopword(ts.last()) {
            rest.push(ts.last())
        } else {
            rest
        }
    }
}

/// Tokens rejoined with single spaces.
pub open spec fn join_tokens(ts: Seq<Seq<char>>) -> Seq<char>
    decreases ts.len(),
{
    if ts.len() == 0 {
        Seq::empty()
    } else if ts.len() == 1 {
        ts[0]
    } else {
        join_tokens(ts.drop_last()) + seq![' '] + ts.last()
    }
}

/// The document-path normalization of a whole text.
pub open spec fn clean_document(s: Seq<char>) -> Seq<char> {
    join_tokens(filter_doc_tokens(tokens_of(strip_punct(lower_chars(s)))))
}

/// The scalar-path normalization of a single field.
pub open spec fn clean_scalar(s: Seq<char>) -> Seq<char> {
    join_tokens(filter_stop_tokens(tokens_of(strip_punct(lower_chars(s)))))
}

/// The document tokens a text contributes to the index.
pub open spec fn spec_document_tokens(s: Seq<char>) -> Seq<Seq<char>> {
    filter_doc_tokens(tokens_of(strip_punct(lower_chars(s))))
}

proof fn lemma_token_run_exact(s: Seq<char>, k: nat)
    requires
        k <= s.len(),
        forall|i: int| 0 <= i < k ==> !is_space_char(s[i]),
        k == s.len() || is_space_char(s[k as int]),
    ensures
        token_run(s) == k,
    decreases k,
{
    if k > 0 {
        lemma_token_run_exact(s.drop_first(), (k - 1) as nat);
    } else {
        if s.len() > 0 && !is_space_char(s[0]) {
            assert(false);
        }
    }
}

/// Replaces punctuation with spaces over a character vector.
pub fn strip_punct_chars(v: &Vec<char>) -> (r: Vec<char>)
    ensures
        r@ == strip_punct(v@),
{
    let mut out: Vec<char> = Vec::new();
    let mut i: usize = 0;
    while i < v.len()
        invariant
            i <= v.len(),
            out@ == strip_punct(v@.take(i as int)),
        decreases v.len() - i,
    {
        let c = v[i];
        if word_char(c) || space_char(c) {
            out.push(c);
        } else {
            out.push(' ');
        }
        proof {
            assert(out@ =~= strip_punct(v@.take(i + 1 as int)));
        }
        i = i + 1;
    }
    proof {
        assert(v@.take(v@.len() as int) =~= v@);
    }
    out
}

/// Appends the whitespace-separated tokens of `v[from..]` to `out`.
fn tokenize_push(v: &Vec<char>, from: usize, out: &mut Vec<Vec<char>>)
    requires
        from <= v.len(),
    ensures
        final(out).deep_view() == old(out).deep_view() + tokens_of(v@.skip(from as int)),
    decreases v.len() - from,
{
    let ghost out0 = out.deep_view();
    let mut i: usize = from;
    while i < v.len() && space_char(v[i])
        invariant
            from <= i <= v.len(),
            tokens_of(v@.skip(from as int)) == tokens_of(v@.skip(i as int)),
        decreases v.len() - i,
    {
        proof {
            assert(v@.skip(i as int).drop_first() =~= v@.skip(i + 1 as int));
        }
        i = i + 1;
    }
    if i == v.len() {
        proof {
            assert(v@.skip(i as int) =~= Seq::<char>::empty());
            assert(out.deep_view() =~~= out0 + tokens_of(v@.skip(from as int)));
        }
        return ;
    }
    let mut e: usize = i;
    while e < v.len() && !space_char(v[e])
        invariant
            i <= e <= v.len(),
            forall|j: int| i <= j < e ==> !is_space_char(v@[j]),
        decreases v.len() - e,
    {
        e = e + 1;
    }
    proof {
        let rest = v@.skip(i as int);
        assert forall|j: int| 0 <= j < e - i implies !is_space_char(rest[j]) by {
            assert(rest[j] == v@[i + j]);
        }
        if e < v.len() {
            assert(rest[(e - i) as int] == v@[e as int]);
        }
        lemma_token_run_exact(rest, (e - i) as nat);
    }
    let mut tok: Vec<char> = Vec::new();
    let mut j: usize = i;
    while j < e
        invariant
            i <= j <= e <= v.len(),
            tok@ == v@.subrange(i as int, j as int),
        decreases e - j,
    {
        tok.push(v[j]);
        proof {
            assert(tok@ =~= v@.subrange(i as int, j + 1 as int));
        }
        j = j + 1;
    }
    let ghost mid = out.deep_view();
    proof {
        assert(tok@ =~= v@.skip(i as int).take((e - i) as int));
    }
    out.push(tok);
    proof {
        assert(out.deep_view() =~~= mid.push(v@.skip(i as int).take((e - i) as int)));
    }
    tokenize_push(v, e, out);
    proof {
        assert(v@.skip(i as int).skip((e - i) as int) =~= v@.skip(e as int));
        assert(out.deep_view() =~~= out0 + tokens_of(v@.skip(from as int)));
    }
}

/// The whitespace-separated tokens of a character vector.
pub fn tokenize_chars(v: &Vec<char>) -> (r: Vec<Vec<char>>)
    ensures
        r.deep_view() == tokens_of(v@),
{
    let mut out: Vec<Vec<char>> = Vec::new();
    tokenize_push(v, 0, &mut out);
    proof {
        assert(v@.skip(0) =~= v@);
        assert(out.deep_view() =~~= tokens_of(v@));
    }
    out
}

/// Whether the document filter keeps a token.
pub fn keep_token_check(t: &Vec<char>) -> (r: bool)
    ensures
        r == keep_token(t@),
{
    t.len() > 2 && !stop_token(t) && t[0] != t[1]
}

/// The document filter over tokens.
pub fn filter_doc(ts: Vec<Vec<char>>) -> (r: Vec<Vec<char>>)
    ensures
        r.deep_view() == filter_doc_tokens(ts.deep_view()),
{
    let mut ts = ts;
    let mut out: Vec<Vec<char>> = Vec::new();
    let ghost all = ts.deep_view();
    let mut i: usize = 0;
    while i < ts.len()
        invariant
            i <= ts.len(),
            ts.deep_view() == all,
            out.deep_view() == filter_doc_tokens(all.take(i as int)),
        decreases ts.len() - i,
    {
        proof {
            assert(all[i as int] =~= ts@[i as int]@);
        }
        let ghost pre = out.deep_view();
        if keep_token_check(&ts[i]) {
            let t = ts[i].clone();
            proof {
                assert(t@ =~= all[i as int]);
            }
            out.push(t);
            proof {
                assert(out.deep_view() =~~= pre.push(all[i as int]));
            }
        }
        proof {
            assert(all.take(i + 1 as int).drop_last() =~= all.take(i as int));
            assert(all.take(i + 1 as int).last() == all[i as int]);
        }
        i = i + 1;
    }
    proof {
        assert(all.take(all.len() as int) =~= all);
    }
    out
}

/// The scalar filter over tokens: drops stopwords only.
pub fn filter_stop(ts: Vec<Vec<char>>) -> (r: Vec<Vec<char>>)
    ensures
        r.deep_view() == filter_stop_tokens(ts.deep_view()),
{
    let mut ts = ts;
    let mut out: Vec<Vec<char>> = Vec::new();
    let ghost all = ts.deep_view();
    let mut i: usize = 0;
    while i < ts.len()
        invariant
            i <= ts.len(),
            ts.deep_view() == all,
            out.deep_view() == filter_stop_tokens(all.take(i as int)),
        decreases ts.len() - i,
    {
        proof {
            assert(all[i as int] =~= ts@[i as int]@);
        }
        let ghost pre = out.deep_view();
        if !stop_token(&ts[i]) {
            let t = ts[i].clone();
            proof {
                assert(t@ =~= all[i as int]);
            }
            out.push(t);
            proof {
                assert(out.deep_view() =~~= pre.push(all[i as int]));
            }
        }
        proof {
            assert(all.take(i + 1 as int).drop_last() =~= all.take(i as int));
            assert(all.take(i + 1 as int).last() == all[i as int]);
        }
        i = i + 1;
    }
    proof {
        assert(all.take(all.len() as int) =~= all);
    }
    out
}

/// Rejoins tokens with single spaces.
pub fn join_chars(ts: &Vec<Vec<char>>) -> (r: Vec<char>)
    ensures
        r@ == join_tokens(ts.deep_view()),
{
    let ghost all = ts.deep_view();
    let mut out: Vec<char> = Vec::new();
    let mut i: usize = 0;
    while i < ts.len()
        invariant
            i <= ts.len(),
            all == ts.deep_view(),
            out@ == join_tokens(all.take(i as int)),
        decreases ts.len() - i,
    {
        if i > 0 {
            out.push(' ');
        }
        let mut j: usize = 0;
        let ghost base = out@;
        while j < ts[i].len()
            invariant
                j <= all[i as int].len(),
                i < ts.len(),
                all == ts.deep_view(),
                out@ == base + all[i as int].take(j as int),
            decreases all[i as int].len() - j,
        {
            out.push(ts[i][j]);
            proof {
                assert(out@ =~= base + all[i as int].take(j + 1 as int));
            }
            j = j + 1;
        }
        proof {
            assert(all[i as int].take(all[i as int].len() as int) =~= all[i as int]);
            assert(all.take(i + 1 as int).drop_last() =~= all.take(i as int));
            assert(all.take(i + 1 as int).last() == all[i as int]);
            if i == 0 {
                assert(out@ =~= join_tokens(all.take(1)));
            } else {
                assert(out@ =~= join_tokens(all.take(i + 1 as int)));
            }
        }
        i = i + 1;
    }
    proof {
        assert(all.take(all.len() as int) =~= all);
    }
    out
}

/// Replaces every character that is neither a word character nor whitespace
/// with a single space. Keeps the public name of the scalar cleaning step.
pub fn remove_non_words(s: String) -> (r: String)
    ensures
        r@ == strip_punct(s@),
{
    let v = chars_of(s.as_str());
    let stripped = strip_punct_chars(&v);
    string_of(&stripped)
}

/// Drops every whitespace-separated token that equals a stopword and rejoins
/// the rest with single spaces. A deliberate decision of this pass: a
/// stopword is dropped wherever it stands, at a boundary as well as in the
/// interior, and whitespace is normalized to single spaces — what a cleaned
/// scalar field holds should not depend on where in the string a function
/// word happened to sit, or on the spacing around it. The contract states
/// the pass exactly. Keeps the public name of the scalar step.
pub fn remove_stop_words(s: String) -> (r: String)
    ensures
        r@ == join_tokens(filter_stop_tokens(tokens_of(s@))),
{
    let v = chars_of(s.as_str());
    let toks = tokenize_chars(&v);
    let kept = filter_stop(toks);
    let joined = join_chars(&kept);
    string_of(&joined)
}

/// The scalar cleaning path: lowercase, strip punctuation to spaces, drop
/// stopword tokens (boundary ones included — see `remove_stop_words` for
/// the decision), rejoin with single spaces. An absent input yields an
/// absent output, never an error.
pub fn text_clean(s: Option<&str>) -> (r: Option<String>)
    ensures
        match s {
            Some(t) => r is Some && r->0@ == clean_scalar(t@),
            None => r is None,
        },
{
    match s {
        Some(t) => {
            let v = chars_of(t);
            let lowered = to_lower_chars(&v);
            let stripped = strip_punct_chars(&lowered);
            let toks = tokenize_chars(&stripped);
            let kept = filter_stop(toks);
            let joined = join_chars(&kept);
            Some(string_of(&joined))
        },
        None => None,
    }
}

/// The document cleaning path feeding the index builder: lowercase, strip
/// punctuation to spaces, tokenize, apply the full token filter, rejoin.
pub fn text_util(s: Option<&str>) -> (r: Option<String>)
    ensures
        match s {
            Some(t) => r is Some && r->0@ == clean_document(t@),
            None => r is None,
        },
{
    match s {
        Some(t) => {
            let v = chars_of(t);
            let lowered = to_lower_chars(&v);
            let stripped = strip_punct_chars(&lowered);
            let toks = tokenize_chars(&stripped);
            let kept = filter_doc(toks);
            let joined = join_chars(&kept);
            Some(string_of(&joined))
        },
        None => None,
    }
}

/// The document tokens of a text, as strings, for the index builder.
pub fn document_tokens(s: &str) -> (r: Vec<String>)
    ensures
        r.deep_view() == spec_document_tokens(s@),
{
    let v = chars_of(s);
    let lowered = to_lower_chars(&v);
    let stripped = strip_punct_chars(&lowered);
    let toks = tokenize_chars(&stripped);
    let kept = filter_doc(toks);
    let mut out: Vec<String> = Vec::new();
    let mut i: usize = 0;
    while i < kept.len()
        invariant
            i <= kept.len(),
            kept.deep_view() == spec_document_tokens(s@),
            out.deep_view() == kept.deep_view().take(i as int),
        decreases kept.len() - i,
    {
        let ghost pre = out.deep_view();
        out.push(string_of(&kept[i]));
        proof {
            assert(out.deep_view() =~~= pre.push(kept.deep_view()[i as int]));
            assert(out.deep_view() =~~= kept.deep_view().take(i + 1 as int));
        }
        i = i + 1;
    }
    proof {
        assert(kept.deep_view().take(kept.deep_view().len() as int) =~= kept.deep_view());
    }
    out
}

/// Applies the scalar cleaning path to each entry of a column of optional
/// strings, as the journal column is cleaned.
pub fn journal_util(col: &Vec<Option<String>>) -> (r: Vec<Option<String>>)
    ensures
        r@.len() == col@.len(),
        forall|i: int|
            0 <= i < col@.len() ==> match #[trigger] col@[i] {
                Some(s) => r@[i] is Some && r@[i]->0@ == clean_scalar(s@),
                None => r@[i] is None,
            },
{
    let mut out: Vec<Option<String>> = Vec::new();
    let mut i: usize = 0;
    while i < col.len()
        invariant
            i <= col@.len(),
            out@.len() == i,
            forall|k: int|
                0 <= k < i ==> match #[trigger] col@[k] {
                    Some(s) => out@[k] is Some && out@[k]->0@ == clean_scalar(s@),
                    None => out@[k] is None,
                },
        decreases col.len() - i,
    {
        let cleaned = match &col[i] {
            Some(s) => text_clean(Some(s.as_str())),
            None => None,
        };
        out.push(cleaned);
        i = i + 1;
    }
    out
}

} // verus!
