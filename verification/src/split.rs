//! Delimiter splitting for the semicolon-separated columns. A semicolon
//! split keeps empty segments, as the columns' format demands; the keyword
//! split collapses runs of its separator class but keeps a leading or
//! trailing empty segment, mirroring a split on one-or-more separators.

use vstd::prelude::*;

verus! {

/// The length of the leading run of non-semicolon characters.
pub open spec fn nonsemi_run(s: Seq<char>) -> nat
    decreases s.len(),
{
    if s.len() > 0 && s[0] != ';' {
        1 + nonsemi_run(s.drop_first())
    } else {
        0
    }
}

pub proof fn lemma_nonsemi_run_le(s: Seq<char>)
    ensures
        nonsemi_run(s) <= s.len(),
    decreases s.len(),
{
    if s.len() > 0 && s[0] != ';' {
        lemma_nonsemi_run_le(s.drop_first());
    }
}

proof fn lemma_nonsemi_run_exact(s: Seq<char>, k: nat)
    requires
        k <= s.len(),
        forall|i: int| 0 <= i < k ==> s[i] != ';',
        k == s.len() || s[k as int] == ';',
    ensures
        nonsemi_run(s) == k,
    decreases k,
{
    if k > 0 {
        lemma_nonsemi_run_exact(s.drop_first(), (k - 1) as nat);
    } else {
        if s.len() > 0 && s[0] != ';' {
            assert(false);
        }
    }
}

/// Splitting on semicolons, keeping empty segments.
pub open spec fn split_semi(s: Seq<char>) -> Seq<Seq<char>>
    decreases s.len(),
    via split_semi_decreases
{
    let k = nonsemi_run(s);
    if k == s.len() {
        seq![s]
    } else {
        seq![s.take(k as int)] + split_semi(s.skip(k as int + 1))
    }
}

#[via_fn]
proof fn split_semi_decreases(s: Seq<char>) {
    lemma_nonsemi_run_le(s);
}

/// A separator of the keyword split: space, comma, semicolon, ampersand.
pub open spec fn is_kw_sep(c: char) -> bool {
    c == ' ' || c == ',' || c == ';' || c == '&'
}

pub fn kw_sep(c: char) -> (r: bool)
    ensures
        r == is_kw_sep(c),
{
    c == ' ' || c == ',' || c == ';' || c == '&'
}

/// The length of the leading run of non-separator characters.
pub open spec fn kwword_run(s: Seq<char>) -> nat
    decreases s.len(),
{
    if s.len() > 0 && !is_kw_sep(s[0]) {
        1 + kwword_run(s.drop_first())
    } else {
        0
    }
}

/// The length of the leading run of separator characters.
pub open spec fn kwsep_run(s: Seq<char>) -> nat
    decreases s.len(),
{
    if s.len() > 0 && is_kw_sep(s[0]) {
        1 + kwsep_run(s.drop_first())
    } else {
        0
    }
}

pub proof fn lemma_kwword_run_le(s: Seq<char>)
    ensures
        kwword_run(s) <= s.len(),
    decreases s.len(),
{
    if s.len() > 0 && !is_kw_sep(s[0]) {
        lemma_kwword_run_le(s.drop_first());
    }
}

pub proof fn lemma_kwsep_run_le(s: Seq<char>)
    ensures
        kwsep_run(s) <= s.len(),
    decreases s.len(),
{
    if s.len() > 0 && is_kw_sep(s[0]) {
        lemma_kwsep_run_le(s.drop_first());
    }
}

proof fn lemma_kwword_run_exact(s: Seq<char>, k: nat)
    requires
        k <= s.len(),
        forall|i: int| 0 <= i < k ==> !is_kw_sep(s[i]),
        k == s.len() || is_kw_sep(s[k as int]),
    ensures
        kwword_run(s) == k,
    decreases k,
{
    if k > 0 {
        lemma_kwword_run_exact(s.drop_first(), (k - 1) as nat);
    } else {
        if s.len() > 0 && !is_kw_sep(s[0]) {
            assert(false);
        }
    }
}

proof fn lemma_kwsep_run_exact(s: Seq<char>, k: nat)
    requires
        k <= s.len(),
        forall|i: int| 0 <= i < k ==> is_kw_sep(s[i]),
        k == s.len() || !is_kw_sep(s[k as int]),
    ensures
        kwsep_run(s) == k,
    decreases k,
{
    if k > 0 {
        lemma_kwsep_run_exact(s.drop_first(), (k - 1) as nat);
    } else {
        if s.len() > 0 && is_kw_sep(s[0]) {
            assert(false);
        }
    }
}

/// Splitting on runs of keyword separators: interior runs yield no empty
/// segment, while a run at either boundary yields one there.
pub open spec fn split_kw(s: Seq<char>) -> Seq<Seq<char>>
    decreases s.len(),
    via split_kw_decreases
{
    let k = kwword_run(s);
    if k == s.len() {
        seq![s]
    } else {
        let j = kwsep_run(s.skip(k as int));
        seq![s.take(k as int)] + split_kw(s.skip(k as int).skip(j as int))
    }
}

#[via_fn]
proof fn split_kw_decreases(s: Seq<char>) {
    lemma_kwword_run_le(s);
    let k = kwword_run(s);
    if k != s.len() {
        lemma_kwsep_run_le(s.skip(k as int));
        lemma_kwword_run_stop(s);
        assert(is_kw_sep(s.skip(k as int)[0]));
    }
}

proof fn lemma_kwword_run_stop(s: Seq<char>)
    requires
        kwword_run(s) < s.len(),
    ensures
        is_kw_sep(s[kwword_run(s) as int]),
    decreases s.len(),
{
    if s.len() > 0 && !is_kw_sep(s[0]) {
        lemma_kwword_run_stop(s.drop_first());
    }
}

/// Appends the semicolon-separated segments of `v[from..]` to `out`.
fn split_semi_push(v: &Vec<char>, from: usize, out: &mut Vec<Vec<char>>)
    requires
        from <= v.len(),
    ensures
        final(out).deep_view() == old(out).deep_view() + split_semi(v@.skip(from as int)),
    decreases v.len() - from,
{
    let ghost out0 = out.deep_view();
    let mut e: usize = from;
    while e < v.len() && v[e] != ';'
        invariant
            from <= e <= v.len(),
            forall|j: int| from <= j < e ==> v@[j] != ';',
        decreases v.len() - e,
    {
        e = e + 1;
    }
    proof {
        let rest = v@.skip(from as int);
        assert forall|j: int| 0 <= j < e - from implies rest[j] != ';' by {
            assert(rest[j] == v@[from + j]);
        }
        if e < v.len() {
            assert(rest[(e - from) as int] == v@[e as int]);
        }
        lemma_nonsemi_run_exact(rest, (e - from) as nat);
    }
    let mut seg: Vec<char> = Vec::new();
    let mut j: usize = from;
    while j < e
        invariant
            from <= j <= e <= v.len(),
            seg@ == v@.subrange(from as int, j as int),
        decreases e - j,
    {
        seg.push(v[j]);
        proof {
            assert(seg@ =~= v@.subrange(from as int, j + 1 as int));
        }
        j = j + 1;
    }
    proof {
        assert(seg@ =~= v@.skip(from as int).take((e - from) as int));
    }
    let ghost mid = out.deep_view();
    out.push(seg);
    proof {
        assert(out.deep_view() =~~= mid.push(v@.skip(from as int).take((e - from) as int)));
    }
    if e == v.len() {
        proof {
            assert(v@.skip(from as int).take((e - from) as int) =~= v@.skip(from as int));
            assert(out.deep_view() =~~= out0 + split_semi(v@.skip(from as int)));
        }
        return ;
    }
    split_semi_push(v, e + 1, out);
    proof {
        assert(v@.skip(from as int).skip((e - from + 1) as int) =~= v@.skip(e + 1 as int));
        assert(out.deep_view() =~~= out0 + split_semi(v@.skip(from as int)));
    }
}

/// The semicolon-separated segments of a character vector.
pub fn split_semi_chars(v: &Vec<char>) -> (r: Vec<Vec<char>>)
    ensures
        r.deep_view() == split_semi(v@),
{
    let mut out: Vec<Vec<char>> = Vec::new();
    split_semi_push(v, 0, &mut out);
    proof {
        assert(v@.skip(0) =~= v@);
        assert(out.deep_view() =~~= split_semi(v@));
    }
    out
}

/// Appends the keyword-separated segments of `v[from..]` to `out`.
fn split_kw_push(v: &Vec<char>, from: usize, out: &mut Vec<Vec<char>>)
    requires
        from <= v.len(),
    ensures
        final(out).deep_view() == old(out).deep_view() + split_kw(v@.skip(from as int)),
    decreases v.len() - from,
{
    let ghost out0 = out.deep_view();
    let mut e: usize = from;
    while e < v.len() && !kw_sep(v[e])
        invariant
            from <= e <= v.len(),
            forall|j: int| from <= j < e ==> !is_kw_sep(v@[j]),
        decreases v.len() - e,
    {
        e = e + 1;
    }
    proof {
        let rest = v@.skip(from as int);
        assert forall|j: int| 0 <= j < e - from implies !is_kw_sep(rest[j]) by {
            assert(rest[j] == v@[from + j]);
        }
        if e < v.len() {
            assert(rest[(e - from) as int] == v@[e as int]);
        }
        lemma_kwword_run_exact(rest, (e - from) as nat);
    }
    let mut seg: Vec<char> = Vec::new();
    let mut j: usize = from;
    while j < e
        invariant
            from <= j <= e <= v.len(),
            seg@ == v@.subrange(from as int, j as int),
        decreases e - j,
    {
        seg.push(v[j]);
        proof {
            assert(seg@ =~= v@.subrange(from as int, j + 1 as int));
        }
        j = j + 1;
    }
    proof {
        assert(seg@ =~= v@.skip(from as int).take((e - from) as int));
    }
    let ghost mid = out.deep_view();
    out.push(seg);
    proof {
        assert(out.deep_view() =~~= mid.push(v@.skip(from as int).take((e - from) as int)));
    }
    if e == v.len() {
        proof {
            assert(v@.skip(from as int).take((e - from) as int) =~= v@.skip(from as int));
            assert(out.deep_view() =~~= out0 + split_kw(v@.skip(from as int)));
        }
        return ;
    }
    let mut g: usize = e;
    while g < v.len() && kw_sep(v[g])
        invariant
            e <= g <= v.len(),
            forall|j: int| e <= j < g ==> is_kw_sep(v@[j]),
        decreases v.len() - g,
    {
        g = g + 1;
    }
    proof {
        let rest = v@.skip(from as int).skip((e - from) as int);
        assert(rest =~= v@.skip(e as int));
        assert forall|j: int| 0 <= j < g - e implies is_kw_sep(rest[j]) by {
            assert(rest[j] == v@[e + j]);
        }
        if g < v.len() {
            assert(rest[(g - e) as int] == v@[g as int]);
        }
        lemma_kwsep_run_exact(rest, (g - e) as nat);
    }
    split_kw_push(v, g, out);
    proof {
        assert(v@.skip(from as int).skip((e - from) as int).skip((g - e) as int) =~= v@.skip(
            g as int,
        ));
        assert(out.deep_view() =~~= out0 + split_kw(v@.skip(from as int)));
    }
}

/// The keyword-separated segments of a character vector.
pub fn split_kw_chars(v: &Vec<char>) -> (r: Vec<Vec<char>>)
    ensures
        r.deep_view() == split_kw(v@),
{
    let mut out: Vec<Vec<char>> = Vec::new();
    split_kw_push(v, 0, &mut out);
    proof {
        assert(v@.skip(0) =~= v@);
        assert(out.deep_view() =~~= split_kw(v@));
    }
    out
}

} // verus!
