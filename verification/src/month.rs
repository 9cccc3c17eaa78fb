//! Month-name handling. Two mappings exist side by side in this corpus:
//! a quarter-level mapping used when only a season or month tag is wanted
//! as a coarse number, and the per-month mapping the ingestion pipeline
//! applies before building a record date.

use vstd::prelude::*;
use crate::chars::{chars_of, spec_trim, trim_chars};

verus! {

/// Whether `s` starts with the three characters `a`, `b`, `c`.
pub open spec fn prefix3(s: Seq<char>, a: char, b: char, c: char) -> bool {
    s.len() >= 3 && s[0] == a && s[1] == b && s[2] == c
}

/// The quarter-level mapping over an already-trimmed tag: month and season
/// names map to the first month of their quarter-of-entry; anything else,
/// including a tag shorter than three characters, maps to nothing.
pub open spec fn spec_month_quarter(t: Seq<char>) -> Option<i64> {
    if prefix3(t, 'F', 'A', 'L') || prefix3(t, 'J', 'A', 'N') || prefix3(t, 'F', 'E', 'B')
        || prefix3(t, 'M', 'A', 'R') {
        Some(1i64)
    } else if prefix3(t, 'S', 'P', 'R') || prefix3(t, 'A', 'P', 'R') || prefix3(t, 'M', 'A', 'Y')
        || prefix3(t, 'J', 'U', 'N') {
        Some(4i64)
    } else if prefix3(t, 'S', 'U', 'M') || prefix3(t, 'J', 'U', 'L') || prefix3(t, 'A', 'U', 'G')
        || prefix3(t, 'S', 'E', 'P') {
        Some(8i64)
    } else if prefix3(t, 'W', 'I', 'N') || prefix3(t, 'O', 'C', 'T') || prefix3(t, 'N', 'O', 'V')
        || prefix3(t, 'D', 'E', 'C') {
        Some(12i64)
    } else {
        None
    }
}

/// The per-month mapping over an untrimmed tag, with seasons folded onto a
/// month and every unrecognized or absent tag defaulting to January.
pub open spec fn spec_month_number(s: Seq<char>) -> u32 {
    if prefix3(s, 'J', 'A', 'N') || prefix3(s, 'F', 'A', 'L') {
        1u32
    } else if prefix3(s, 'F', 'E', 'B') {
        2u32
    } else if prefix3(s, 'M', 'A', 'R') {
        3u32
    } else if prefix3(s, 'A', 'P', 'R') || prefix3(s, 'S', 'P', 'R') {
        4u32
    } else if prefix3(s, 'M', 'A', 'Y') {
        5u32
    } else if prefix3(s, 'J', 'U', 'N') {
        6u32
    } else if prefix3(s, 'J', 'U', 'L') || prefix3(s, 'S', 'U', 'M') {
        7u32
    } else if prefix3(s, 'A', 'U', 'G') {
        8u32
    } else if prefix3(s, 'S', 'E', 'P') {
        9u32
    } else if prefix3(s, 'W', 'I', 'N') || prefix3(s, 'O', 'C', 'T') {
        10u32
    } else if prefix3(s, 'N', 'O', 'V') {
        11u32
    } else if prefix3(s, 'D', 'E', 'C') {
        12u32
    } else {
        1u32
    }
}

fn starts3(v: &Vec<char>, a: char, b: char, c: char) -> (r: bool)
    ensures
        r == prefix3(v@, a, b, c),
{
    v.len() >= 3 && v[0] == a && v[1] == b && v[2] == c
}

/// Maps a month or season tag to the first month of its quarter. The tag is
/// trimmed first; a trimmed tag shorter than three characters maps to
/// nothing rather than stopping the run.
pub fn month_str_to_i64(s: Option<&str>) -> (r: Option<i64>)
    ensures
        match s {
            Some(t) => r == spec_month_quarter(spec_trim(t@)),
            None => r is None,
        },
{
    match s {
        Some(t) => {
            let v = chars_of(t);
            let tr = trim_chars(&v);
            if starts3(&tr, 'F', 'A', 'L') || starts3(&tr, 'J', 'A', 'N') || starts3(
                &tr,
                'F',
                'E',
                'B',
            ) || starts3(&tr, 'M', 'A', 'R') {
                Some(1)
            } else if starts3(&tr, 'S', 'P', 'R') || starts3(&tr, 'A', 'P', 'R') || starts3(
                &tr,
                'M',
                'A',
                'Y',
            ) || starts3(&tr, 'J', 'U', 'N') {
                Some(4)
            } else if starts3(&tr, 'S', 'U', 'M') || starts3(&tr, 'J', 'U', 'L') || starts3(
                &tr,
                'A',
                'U',
                'G',
            ) || starts3(&tr, 'S', 'E', 'P') {
                Some(8)
            } else if starts3(&tr, 'W', 'I', 'N') || starts3(&tr, 'O', 'C', 'T') || starts3(
                &tr,
                'N',
                'O',
                'V',
            ) || starts3(&tr, 'D', 'E', 'C') {
                Some(12)
            } else {
                None
            }
        },
        None => None,
    }
}

/// Maps a month or season tag to a month number for date construction;
/// unrecognized and absent tags default to January.
pub fn month_number(s: Option<&str>) -> (r: u32)
    ensures
        match s {
            Some(t) => r == spec_month_number(t@),
            None => r == 1u32,
        },
        1 <= r <= 12,
{
    match s {
        Some(t) => {
            let v = chars_of(t);
            if starts3(&v, 'J', 'A', 'N') || starts3(&v, 'F', 'A', 'L') {
                1
            } else if starts3(&v, 'F', 'E', 'B') {
                2
            } else if starts3(&v, 'M', 'A', 'R') {
                3
            } else if starts3(&v, 'A', 'P', 'R') || starts3(&v, 'S', 'P', 'R') {
                4
            } else if starts3(&v, 'M', 'A', 'Y') {
                5
            } else if starts3(&v, 'J', 'U', 'N') {
                6
            } else if starts3(&v, 'J', 'U', 'L') || starts3(&v, 'S', 'U', 'M') {
                7
            } else if starts3(&v, 'A', 'U', 'G') {
                8
            } else if starts3(&v, 'S', 'E', 'P') {
                9
            } else if starts3(&v, 'W', 'I', 'N') || starts3(&v, 'O', 'C', 'T') {
                10
            } else if starts3(&v, 'N', 'O', 'V') {
                11
            } else if starts3(&v, 'D', 'E', 'C') {
                12
            } else {
                1
            }
        },
        None => 1,
    }
}

/// Applies the quarter-level mapping to a whole column.
pub fn month_util(col: &Vec<Option<String>>) -> (r: Vec<Option<i64>>)
    ensures
        r@.len() == col@.len(),
        forall|i: int|
            0 <= i < col@.len() ==> r@[i] == match #[trigger] col@[i] {
                Some(s) => spec_month_quarter(spec_trim(s@)),
                None => None::<i64>,
            },
{
    let mut out: Vec<Option<i64>> = Vec::new();
    let mut i: usize = 0;
    while i < col.len()
        invariant
            i <= col@.len(),
            out@.len() == i,
            forall|k: int|
                0 <= k < i ==> out@[k] == match #[trigger] col@[k] {
                    Some(s) => spec_month_quarter(spec_trim(s@)),
                    None => None::<i64>,
                },
        decreases col.len() - i,
    {
        let m = match &col[i] {
            Some(s) => month_str_to_i64(Some(s.as_str())),
            None => None,
        };
        out.push(m);
        i = i + 1;
    }
    out
}

} // verus!
