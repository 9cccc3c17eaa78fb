//! The keyword columns: lists separated by runs of spaces, commas,
//! semicolons, or ampersands. The value is lowercased and split; interior
//! separator runs yield no empty entries, while a run at a boundary yields
//! one there, as a split on one-or-more separators does.

use vstd::prelude::*;
use crate::chars::{chars_of, lower_chars, string_of, to_lower_chars};
use crate::split::{split_kw, split_kw_chars};

verus! {

/// The keyword list a column value yields.
pub open spec fn spec_keywords_split(s: Seq<char>) -> Seq<Seq<char>> {
    split_kw(lower_chars(s))
}

/// Splits one keyword column value; an absent value yields an absent list.
pub fn keywords_split(s: Option<&str>) -> (r: Option<Vec<String>>)
    ensures
        match s {
            Some(t) => r matches Some(v) && v.deep_view() == spec_keywords_split(t@),
            None => r is None,
        },
{
    let t = match s {
        Some(t) => t,
        None => {
            return None;
        },
    };
    let v = chars_of(t);
    let lowered = to_lower_chars(&v);
    let segs = split_kw_chars(&lowered);
    let ghost sv = segs.deep_view();
    let mut out: Vec<String> = Vec::new();
    let mut i: usize = 0;
    while i < segs.len()
        invariant
            i <= segs@.len(),
            sv == segs.deep_view(),
            out.deep_view() == sv.take(i as int),
        decreases segs.len() - i,
    {
        let ghost pre = out.deep_view();
        proof {
            assert(segs.deep_view()[i as int] =~= segs@[i as int]@);
        }
        out.push(string_of(&segs[i]));
        proof {
            assert(out.deep_view() =~~= pre.push(sv[i as int]));
            assert(out.deep_view() =~~= sv.take(i + 1 as int));
        }
        i = i + 1;
    }
    proof {
        assert(sv.take(sv.len() as int) =~= sv);
    }
    Some(out)
}

/// Applies the keyword split to each entry of a whole column.
pub fn keywords_util(col: &Vec<Option<String>>) -> (r: Vec<Option<Vec<String>>>)
    ensures
        r@.len() == col@.len(),
        forall|i: int|
            0 <= i < col@.len() ==> match #[trigger] col@[i] {
                Some(s) => r@[i] matches Some(v) && v.deep_view() == spec_keywords_split(s@),
                None => r@[i] is None,
            },
{
    let mut out: Vec<Option<Vec<String>>> = Vec::new();
    let mut i: usize = 0;
    while i < col.len()
        invariant
            i <= col@.len(),
            out@.len() == i,
            forall|k: int|
                0 <= k < i ==> match #[trigger] col@[k] {
                    Some(s) => out@[k] matches Some(v) && v.deep_view() == spec_keywords_split(
                        s@,
                    ),
                    None => out@[k] is None,
                },
        decreases col.len() - i,
    {
        let split = match &col[i] {
            Some(s) => keywords_split(Some(s.as_str())),
            None => None,
        };
        out.push(split);
        i = i + 1;
    }
    out
}

} // verus!
