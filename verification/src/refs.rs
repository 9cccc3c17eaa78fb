//! The raw reference column: a semicolon-separated list of free-text
//! citation entries. The value is lowercased and split; each entry is
//! trimmed and contributes its first DOI-shaped substring, if it has one.

use vstd::prelude::*;
use crate::chars::{chars_of, lower_chars, spec_trim, string_of, to_lower_chars, trim_chars};
use crate::doi::{parse_doi, spec_extract_dois};
use crate::split::{split_semi, split_semi_chars};

verus! {

/// The DOIs that a sequence of reference entries yields: the first
/// DOI-shaped substring of each trimmed entry that has one, in order.
pub open spec fn dois_of_entries(es: Seq<Seq<char>>) -> Seq<Seq<char>>
    decreases es.len(),
{
    if es.len() == 0 {
        Seq::empty()
    } else {
        let rest = dois_of_entries(es.drop_last());
        let found = spec_extract_dois(spec_trim(es.last()));
        if found.len() > 0 {
            rest.push(found[0])
        } else {
            rest
        }
    }
}

/// The DOI list one raw reference column value yields.
pub open spec fn spec_refs_split(s: Seq<char>) -> Seq<Seq<char>> {
    dois_of_entries(split_semi(lower_chars(s)))
}

/// Splits one raw reference value into the DOIs of its entries; an absent
/// value yields an absent list.
pub fn refs_split(s: Option<&str>) -> (r: Option<Vec<String>>)
    ensures
        match s {
            Some(t) => r matches Some(v) && v.deep_view() == spec_refs_split(t@),
            None => r is None,
        },
{
    let t = match s {
        Some(t) => t,
        None => {
            return None;
        },
    };
    let v = chars_of(t);
    let lowered = to_lower_chars(&v);
    let segs = split_semi_chars(&lowered);
    let ghost sv = segs.deep_view();
    let mut out: Vec<String> = Vec::new();
    let mut i: usize = 0;
    while i < segs.len()
        invariant
            i <= segs@.len(),
            sv == segs.deep_view(),
            out.deep_view() == dois_of_entries(sv.take(i as int)),
        decreases segs.len() - i,
    {
        let trimmed = trim_chars(&segs[i]);
        let entry = string_of(&trimmed);
        let ghost pre = out.deep_view();
        proof {
            assert(segs.deep_view()[i as int] =~= segs@[i as int]@);
            assert(entry@ == spec_trim(sv[i as int]));
        }
        match parse_doi(entry.as_str()) {
            Some(d) => {
                proof {
                    assert(d@ == spec_extract_dois(spec_trim(sv[i as int]))[0]);
                }
                out.push(d);
                proof {
                    assert(out.deep_view() =~~= pre.push(
                        spec_extract_dois(spec_trim(sv[i as int]))[0],
                    ));
                }
            },
            None => {},
        }
        proof {
            assert(sv.take(i + 1 as int).drop_last() =~= sv.take(i as int));
            assert(sv.take(i + 1 as int).last() == sv[i as int]);
        }
        i = i + 1;
    }
    proof {
        assert(sv.take(sv.len() as int) =~= sv);
    }
    Some(out)
}

/// Applies the reference split to each entry of a whole column.
pub fn refs_util(col: &Vec<Option<String>>) -> (r: Vec<Option<Vec<String>>>)
    ensures
        r@.len() == col@.len(),
        forall|i: int|
            0 <= i < col@.len() ==> match #[trigger] col@[i] {
                Some(s) => r@[i] matches Some(v) && v.deep_view() == spec_refs_split(s@),
                None => r@[i] is None,
            },
{
    let mut out: Vec<Option<Vec<String>>> = Vec::new();
    let mut i: usize = 0;
    while i < col.len()
        invariant
            i <= col@.len(),
            out@.len() == i,
            forall|k: int|
                0 <= k < i ==> match #[trigger] col@[k] {
                    Some(s) => out@[k] matches Some(v) && v.deep_view() == spec_refs_split(s@),
                    None => out@[k] is None,
                },
        decreases col.len() - i,
    {
        let split = match &col[i] {
            Some(s) => refs_split(Some(s.as_str())),
            None => None,
        };
        out.push(split);
        i = i + 1;
    }
    out
}

} // verus!
