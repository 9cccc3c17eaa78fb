//! The author column: a semicolon-separated list of names. Each entry is
//! lowercased and trimmed, and only its head — the run up to the first
//! space, comma, or period — is kept, which is the surname for the usual
//! `Surname, I.` format. An entry whose head is empty stays as an empty
//! string, as the column's format produces.

use vstd::prelude::*;
use crate::chars::{chars_of, lower_chars, spec_trim, string_of, to_lower_chars, trim_chars};
use crate::split::{split_semi, split_semi_chars};

verus! {

/// A character that ends an author head: space, comma, or period.
pub open spec fn is_author_sep(c: char) -> bool {
    c == ' ' || c == ',' || c == '.'
}

pub fn author_sep(c: char) -> (r: bool)
    ensures
        r == is_author_sep(c),
{
    c == ' ' || c == ',' || c == '.'
}

/// The length of the leading run of non-separator characters.
pub open spec fn author_run(s: Seq<char>) -> nat
    decreases s.len(),
{
    if s.len() > 0 && !is_author_sep(s[0]) {
        1 + author_run(s.drop_first())
    } else {
        0
    }
}

proof fn lemma_author_run_exact(s: Seq<char>, k: nat)
    requires
        k <= s.len(),
        forall|i: int| 0 <= i < k ==> !is_author_sep(s[i]),
        k == s.len() || is_author_sep(s[k as int]),
    ensures
        author_run(s) == k,
    decreases k,
{
    if k > 0 {
        lemma_author_run_exact(s.drop_first(), (k - 1) as nat);
    } else {
        if s.len() > 0 && !is_author_sep(s[0]) {
            assert(false);
        }
    }
}

/// The head of one author entry: the trimmed entry up to its first
/// separator.
pub open spec fn author_head(e: Seq<char>) -> Seq<char> {
    let t = spec_trim(e);
    t.take(author_run(t) as int)
}

/// The author list a column value yields: one head per semicolon-separated
/// entry of the lowercased value.
pub open spec fn spec_authors_split(s: Seq<char>) -> Seq<Seq<char>> {
    split_semi(lower_chars(s)).map_values(|e: Seq<char>| author_head(e))
}

/// Splits one author column value into the list of author heads; an absent
/// value yields an absent list.
pub fn authors_split(s: Option<&str>) -> (r: Option<Vec<String>>)
    ensures
        match s {
            Some(t) => r matches Some(v) && v.deep_view() == spec_authors_split(t@),
            None => r is None,
        },
{
    let t = match s {
        Some(t) => t,
        None => {
            return None;
        },
    };
    let v = chars_of(t);
    let lowered = to_lower_chars(&v);
    let segs = split_semi_chars(&lowered);
    let ghost sv = segs.deep_view();
    let mut out: Vec<String> = Vec::new();
    let mut i: usize = 0;
    while i < segs.len()
        invariant
            i <= segs@.len(),
            sv == segs.deep_view(),
            out@.len() == i,
            forall|k: int| 0 <= k < i ==> #[trigger] out.deep_view()[k] == author_head(sv[k]),
        decreases segs.len() - i,
    {
        let trimmed = trim_chars(&segs[i]);
        let mut e: usize = 0;
        while e < trimmed.len() && !author_sep(trimmed[e])
            invariant
                e <= trimmed@.len(),
                forall|j: int| 0 <= j < e ==> !is_author_sep(trimmed@[j]),
            decreases trimmed.len() - e,
        {
            e = e + 1;
        }
        proof {
            if e < trimmed@.len() {
                assert(is_author_sep(trimmed@[e as int]));
            }
            lemma_author_run_exact(trimmed@, e as nat);
        }
        let mut head: Vec<char> = Vec::new();
        let mut j: usize = 0;
        while j < e
            invariant
                j <= e <= trimmed@.len(),
                head@ == trimmed@.subrange(0, j as int),
            decreases e - j,
        {
            head.push(trimmed[j]);
            proof {
                assert(head@ =~= trimmed@.subrange(0, j + 1 as int));
            }
            j = j + 1;
        }
        proof {
            assert(segs.deep_view()[i as int] =~= segs@[i as int]@);
            assert(head@ =~= author_head(sv[i as int]));
        }
        let ghost pre = out.deep_view();
        out.push(string_of(&head));
        proof {
            assert(out.deep_view() =~~= pre.push(author_head(sv[i as int])));
        }
        i = i + 1;
    }
    proof {
        assert(out.deep_view() =~~= spec_authors_split(t@));
    }
    Some(out)
}

/// Applies the author split to each entry of a whole column.
pub fn authors_util(col: &Vec<Option<String>>) -> (r: Vec<Option<Vec<String>>>)
    ensures
        r@.len() == col@.len(),
        forall|i: int|
            0 <= i < col@.len() ==> match #[trigger] col@[i] {
                Some(s) => r@[i] matches Some(v) && v.deep_view() == spec_authors_split(s@),
                None => r@[i] is None,
            },
{
    let mut out: Vec<Option<Vec<String>>> = Vec::new();
    let mut i: usize = 0;
    while i < col.len()
        invariant
            i <= col@.len(),
            out@.len() == i,
            forall|k: int|
                0 <= k < i ==> match #[trigger] col@[k] {
                    Some(s) => out@[k] matches Some(v) && v.deep_view() == spec_authors_split(
                        s@,
                    ),
                    None => out@[k] is None,
                },
        decreases col.len() - i,
    {
        let split = match &col[i] {
            Some(s) => authors_split(Some(s.as_str())),
            None => None,
        };
        out.push(split);
        i = i + 1;
    }
    out
}

} // verus!
