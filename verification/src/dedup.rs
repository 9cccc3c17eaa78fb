//! Stable keep-first deduplication by primary key. Given records in a
//! deterministic caller-chosen order, at most one record per doi survives:
//! the one that appears first. Deduplicating an already-deduplicated table
//! is a no-op, and so the pass is idempotent.

use vstd::prelude::*;
use crate::record::{Record, RecView};

verus! {

/// Whether some record of the table carries this doi.
pub open spec fn doi_in(t: Seq<RecView>, d: Seq<char>) -> bool {
    exists|i: int| 0 <= i < t.len() && (#[trigger] t[i]).doi == d
}

/// All dois of a table are distinct.
pub open spec fn unique_dois(t: Seq<RecView>) -> bool {
    forall|i: int, j: int| 0 <= i < j < t.len() ==> (#[trigger] t[i]).doi != (#[trigger] t[j]).doi
}

/// Keep-first deduplication by doi: a record survives exactly when no
/// earlier record has its doi.
pub open spec fn dedup_spec(s: Seq<RecView>) -> Seq<RecView>
    decreases s.len(),
{
    if s.len() == 0 {
        Seq::empty()
    } else {
        let rest = dedup_spec(s.drop_last());
        if doi_in(s.drop_last(), s.last().doi) {
            rest
        } else {
            rest.push(s.last())
        }
    }
}

/// Deduplication keeps exactly the dois of its input.
pub proof fn lemma_dedup_same_dois(s: Seq<RecView>)
    ensures
        forall|d: Seq<char>| doi_in(dedup_spec(s), d) == doi_in(s, d),
    decreases s.len(),
{
    if s.len() > 0 {
        lemma_dedup_same_dois(s.drop_last());
        assert forall|d: Seq<char>| doi_in(dedup_spec(s), d) == doi_in(s, d) by {
            let rest = dedup_spec(s.drop_last());
            if doi_in(s, d) {
                if s.last().doi == d {
                    if doi_in(s.drop_last(), d) {
                        assert(doi_in(rest, d));
                        let i = choose|i: int| 0 <= i < rest.len() && rest[i].doi == d;
                        assert(dedup_spec(s)[i].doi == d);
                    } else {
                        assert(dedup_spec(s).last().doi == d);
                    }
                } else {
                    let i = choose|i: int| 0 <= i < s.len() && (#[trigger] s[i]).doi == d;
                    assert(s.drop_last()[i].doi == d);
                    assert(doi_in(s.drop_last(), d));
                    assert(doi_in(rest, d));
                    let k = choose|k: int| 0 <= k < rest.len() && rest[k].doi == d;
                    assert(dedup_spec(s)[k].doi == d);
                }
            }
            if doi_in(dedup_spec(s), d) {
                let i = choose|i: int|
                    0 <= i < dedup_spec(s).len() && dedup_spec(s)[i].doi == d;
                if doi_in(s.drop_last(), s.last().doi) {
                    assert(doi_in(s.drop_last(), d));
                    let k = choose|k: int| 0 <= k < s.drop_last().len() && s.drop_last()[k].doi == d;
                    assert(s[k].doi == d);
                } else {
                    if i < rest.len() {
                        assert(rest[i].doi == d);
                        assert(doi_in(rest, d));
                        assert(doi_in(s.drop_last(), d));
                        let k = choose|k: int|
                            0 <= k < s.drop_last().len() && (#[trigger] s.drop_last()[k]).doi
                                == d;
                        assert(s.drop_last()[k] == s[k]);
                        assert(s[k].doi == d);
                    } else {
                        assert(s.last().doi == d);
                    }
                }
            }
        }
    }
}

/// The result of deduplication has all-distinct dois.
pub proof fn lemma_dedup_unique(s: Seq<RecView>)
    ensures
        unique_dois(dedup_spec(s)),
    decreases s.len(),
{
    if s.len() > 0 {
        lemma_dedup_unique(s.drop_last());
        lemma_dedup_same_dois(s.drop_last());
        let rest = dedup_spec(s.drop_last());
        if !doi_in(s.drop_last(), s.last().doi) {
            assert forall|i: int, j: int|
                0 <= i < j < dedup_spec(s).len() implies (#[trigger] dedup_spec(s)[i]).doi != (
            #[trigger] dedup_spec(s)[j]).doi by {
                if j < rest.len() {
                } else {
                    if dedup_spec(s)[i].doi == s.last().doi {
                        assert(doi_in(rest, s.last().doi));
                    }
                }
            }
        }
    }
}

/// Deduplicating a table whose dois are already distinct changes nothing.
pub proof fn lemma_dedup_of_unique(s: Seq<RecView>)
    requires
        unique_dois(s),
    ensures
        dedup_spec(s) == s,
    decreases s.len(),
{
    if s.len() > 0 {
        assert(unique_dois(s.drop_last())) by {
            assert forall|i: int, j: int|
                0 <= i < j < s.drop_last().len() implies (#[trigger] s.drop_last()[i]).doi != (
            #[trigger] s.drop_last()[j]).doi by {
                assert(s[i].doi != s[j].doi);
            }
        }
        lemma_dedup_of_unique(s.drop_last());
        if doi_in(s.drop_last(), s.last().doi) {
            let i = choose|i: int|
                0 <= i < s.drop_last().len() && s.drop_last()[i].doi == s.last().doi;
            assert(s[i].doi == s[s.len() - 1].doi);
            assert(false);
        }
        assert(dedup_spec(s) =~= s);
    }
}

/// The law of idempotence: deduplicating an already-deduplicated table is
/// a no-op.
pub proof fn lemma_dedup_idempotent(s: Seq<RecView>)
    ensures
        dedup_spec(dedup_spec(s)) == dedup_spec(s),
{
    lemma_dedup_unique(s);
    lemma_dedup_of_unique(dedup_spec(s));
}

/// Stable keep-first deduplication of a record table by doi.
pub fn dedup_records(records: Vec<Record>) -> (r: Vec<Record>)
    ensures
        r.deep_view() == dedup_spec(records.deep_view()),
        unique_dois(r.deep_view()),
{
    let ghost all = records.deep_view();
    let mut out: Vec<Record> = Vec::new();
    let mut i: usize = 0;
    while i < records.len()
        invariant
            i <= records@.len(),
            all == records.deep_view(),
            out.deep_view() == dedup_spec(all.take(i as int)),
        decreases records.len() - i,
    {
        let mut seen = false;
        let mut j: usize = 0;
        while j < i
            invariant
                j <= i < records@.len(),
                all == records.deep_view(),
                seen == (exists|k: int|
                    0 <= k < j && (#[trigger] all[k]).doi == all[i as int].doi),
            decreases i - j,
        {
            let eqd = records[j].doi == records[i].doi;
            proof {
                assert(eqd == (all[j as int].doi == all[i as int].doi));
            }
            if eqd {
                seen = true;
            }
            j = j + 1;
        }
        proof {
            assert(seen == doi_in(all.take(i as int), all[i as int].doi)) by {
                if seen {
                    let k = choose|k: int| 0 <= k < i && all[k].doi == all[i as int].doi;
                    assert(all.take(i as int)[k].doi == all[i as int].doi);
                }
                if doi_in(all.take(i as int), all[i as int].doi) {
                    let d = all[i as int].doi;
                    let k = choose|k: int|
                        0 <= k < i && (#[trigger] all.take(i as int)[k]).doi == d;
                    assert(all[k].doi == all[i as int].doi);
                }
            }
        }
        let ghost pre = out.deep_view();
        if !seen {
            let c = records[i].duplicate();
            out.push(c);
            proof {
                assert(out.deep_view() =~~= pre.push(all[i as int]));
            }
        }
        proof {
            assert(all.take(i + 1 as int).drop_last() =~= all.take(i as int));
            assert(all.take(i + 1 as int).last() == all[i as int]);
        }
        i = i + 1;
    }
    proof {
        assert(all.take(all.len() as int) =~= all);
        lemma_dedup_unique(all);
    }
    out
}

} // verus!
