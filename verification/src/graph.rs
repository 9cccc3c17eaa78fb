//! The citation-graph resolver. One pass explodes each record's reference
//! list into edges, keeps an edge only when its target doi belongs to the
//! current table with a date no later than the citing record's date, puts
//! the surviving targets back as the record's reference set — a set of
//! dois, duplicates folded onto their first occurrence (a record whose
//! edges all fail keeps an empty set; a record with no reference list at
//! all keeps none) — and then removes every record missing a mandatory
//! field. Passes repeat until one removes no record; because each earlier
//! pass removes at least one of the `n` input records, a cap of `n` passes
//! always suffices.

use vstd::prelude::*;
use crate::date::{date_le, date_le_check, Date};
use crate::errors::CorpusError;
use crate::record::{complete, drop_spec, lemma_drop_spec_all_kept, lemma_drop_spec_complete,
    lemma_drop_spec_len, Record, RecView, clone_opt_string, clone_opt_strings, drop_nulls};

verus! {

/// Whether the table holds a record with this doi dated no later than
/// `from_date`.
pub open spec fn edge_ok(table: Seq<RecView>, from_date: Date, target: Seq<char>) -> bool {
    exists|j: int|
        0 <= j < table.len() && (#[trigger] table[j]).doi == target && (match table[j].date {
            Some(td) => date_le(td, from_date),
            None => false,
        })
}

/// Whether a single reference survives the internal-reference and
/// causality filters, for a citing record with the given date.
pub open spec fn ref_kept(table: Seq<RecView>, from_date: Option<Date>, target: Seq<char>) -> bool {
    match from_date {
        Some(d) => edge_ok(table, d, target),
        None => false,
    }
}

/// Whether a target doi occurs in a reference list.
pub open spec fn ref_listed(refs: Seq<Seq<char>>, d: Seq<char>) -> bool {
    exists|i: int| 0 <= i < refs.len() && #[trigger] refs[i] == d
}

/// A reference list with pairwise-distinct entries: a set of dois.
pub open spec fn distinct_refs(l: Seq<Seq<char>>) -> bool {
    forall|i: int, j: int| 0 <= i < j < l.len() ==> #[trigger] l[i] != #[trigger] l[j]
}

/// The aggregated references of one record: the surviving targets as a
/// set of dois, each kept once at its first occurrence, in order.
pub open spec fn prune_refs(table: Seq<RecView>, fd: Option<Date>, refs: Seq<Seq<char>>) -> Seq<
    Seq<char>,
>
    decreases refs.len(),
{
    if refs.len() == 0 {
        Seq::empty()
    } else {
        let rest = prune_refs(table, fd, refs.drop_last());
        if ref_kept(table, fd, refs.last()) && !ref_listed(refs.drop_last(), refs.last()) {
            rest.push(refs.last())
        } else {
            rest
        }
    }
}

/// Every entry of an aggregated reference list occurs in the raw list.
pub proof fn lemma_prune_refs_elements(table: Seq<RecView>, fd: Option<Date>, refs: Seq<Seq<char>>)
    ensures
        forall|k: int|
            0 <= k < prune_refs(table, fd, refs).len() ==> ref_listed(
                refs,
                #[trigger] prune_refs(table, fd, refs)[k],
            ),
    decreases refs.len(),
{
    if refs.len() > 0 {
        lemma_prune_refs_elements(table, fd, refs.drop_last());
        let rest = prune_refs(table, fd, refs.drop_last());
        let whole = prune_refs(table, fd, refs);
        assert forall|k: int| 0 <= k < whole.len() implies ref_listed(
            refs,
            #[trigger] whole[k],
        ) by {
            if k < rest.len() {
                assert(whole[k] == rest[k]);
                assert(ref_listed(refs.drop_last(), rest[k]));
                let w = choose|w: int|
                    0 <= w < refs.drop_last().len() && #[trigger] refs.drop_last()[w] == rest[k];
                assert(refs[w] == rest[k]);
            } else {
                assert(whole[k] == refs.last());
                assert(refs[refs.len() - 1] == refs.last());
            }
        }
    }
}

/// An aggregated reference list is duplicate-free.
pub proof fn lemma_prune_refs_distinct(table: Seq<RecView>, fd: Option<Date>, refs: Seq<Seq<char>>)
    ensures
        distinct_refs(prune_refs(table, fd, refs)),
    decreases refs.len(),
{
    if refs.len() > 0 {
        lemma_prune_refs_distinct(table, fd, refs.drop_last());
        lemma_prune_refs_elements(table, fd, refs.drop_last());
        let rest = prune_refs(table, fd, refs.drop_last());
        let whole = prune_refs(table, fd, refs);
        if ref_kept(table, fd, refs.last()) && !ref_listed(refs.drop_last(), refs.last()) {
            assert forall|i: int, j: int|
                0 <= i < j < whole.len() implies #[trigger] whole[i] != #[trigger] whole[j] by {
                if j == rest.len() {
                    assert(whole[j] == refs.last());
                    assert(whole[i] == rest[i]);
                    if rest[i] == refs.last() {
                        assert(ref_listed(refs.drop_last(), rest[i]));
                    }
                } else {
                    assert(whole[i] == rest[i] && whole[j] == rest[j]);
                }
            }
        }
    }
}

/// One record after the pruning pass: only the reference field changes,
/// and a missing reference list stays missing.
pub open spec fn prune_rec(table: Seq<RecView>, r: RecView) -> RecView {
    RecView {
        references: match r.references {
            Some(l) => Some(prune_refs(table, r.date, l)),
            None => None,
        },
        ..r
    }
}

/// A whole table after the pruning pass, filtered against itself.
pub open spec fn prune_table_from(table: Seq<RecView>, t: Seq<RecView>) -> Seq<RecView>
    decreases t.len(),
{
    if t.len() == 0 {
        Seq::empty()
    } else {
        prune_table_from(table, t.drop_last()).push(prune_rec(table, t.last()))
    }
}

/// The pruning pass of the resolver: steps one to six of a resolution pass.
pub open spec fn prune_spec(t: Seq<RecView>) -> Seq<RecView> {
    prune_table_from(t, t)
}

/// One full resolution pass: prune, then the mandatory-field drop.
pub open spec fn pass_spec(t: Seq<RecView>) -> Seq<RecView> {
    drop_spec(prune_spec(t))
}

/// The fixpoint iteration: apply passes until one removes no record, or
/// give up when the fuel runs out.
pub open spec fn resolve_spec(t: Seq<RecView>, fuel: nat) -> Option<Seq<RecView>>
    decreases fuel,
{
    let n = pass_spec(t);
    if n.len() == t.len() {
        Some(n)
    } else if fuel == 0 {
        None
    } else {
        resolve_spec(n, (fuel - 1) as nat)
    }
}

/// The record count at the moment the fixpoint iteration gives up: the
/// length after the pass that exhausted the fuel.
pub open spec fn resolve_stuck_len(t: Seq<RecView>, fuel: nat) -> nat
    decreases fuel,
{
    let n = pass_spec(t);
    if n.len() == t.len() {
        n.len()
    } else if fuel == 0 {
        n.len()
    } else {
        resolve_stuck_len(n, (fuel - 1) as nat)
    }
}

/// The resolved-table invariant: every record is complete, and every one
/// of its references names a record of this same table whose date is no
/// later than its own — no dangling edges, no forward-dated citations.
pub open spec fn graph_invariant(t: Seq<RecView>) -> bool {
    forall|i: int|
        0 <= i < t.len() ==> {
            let r = #[trigger] t[i];
            complete(r) && (match (r.date, r.references) {
                (Some(fd), Some(l)) => distinct_refs(l) && (forall|k: int|
                    0 <= k < l.len() ==> edge_ok(t, fd, #[trigger] l[k])),
                _ => false,
            })
        }
}

/// Pruning keeps the length of a table and every field of every record
/// except the reference list.
pub proof fn lemma_prune_table_shape(table: Seq<RecView>, t: Seq<RecView>)
    ensures
        prune_table_from(table, t).len() == t.len(),
        forall|i: int|
            0 <= i < t.len() ==> #[trigger] prune_table_from(table, t)[i] == prune_rec(
                table,
                t[i],
            ),
    decreases t.len(),
{
    if t.len() > 0 {
        lemma_prune_table_shape(table, t.drop_last());
    }
}

/// Every reference surviving the prune filter satisfies the edge test
/// against the table it was filtered with.
pub proof fn lemma_prune_refs_sound(table: Seq<RecView>, fd: Option<Date>, refs: Seq<Seq<char>>)
    ensures
        forall|k: int|
            0 <= k < prune_refs(table, fd, refs).len() ==> ref_kept(
                table,
                fd,
                #[trigger] prune_refs(table, fd, refs)[k],
            ),
    decreases refs.len(),
{
    if refs.len() > 0 {
        lemma_prune_refs_sound(table, fd, refs.drop_last());
        let rest = prune_refs(table, fd, refs.drop_last());
        let whole = prune_refs(table, fd, refs);
        assert forall|k: int| 0 <= k < whole.len() implies ref_kept(
            table,
            fd,
            #[trigger] whole[k],
        ) by {
            if ref_kept(table, fd, refs.last()) && !ref_listed(refs.drop_last(), refs.last()) {
                if k < rest.len() {
                    assert(whole[k] == rest[k]);
                } else {
                    assert(whole[k] == refs.last());
                }
            } else {
                assert(whole[k] == rest[k]);
            }
        }
    }
}

/// An edge test transfers between two tables that agree on dois and dates.
pub proof fn lemma_edge_ok_transfer(a: Seq<RecView>, b: Seq<RecView>, fd: Date, d: Seq<char>)
    requires
        a.len() == b.len(),
        forall|i: int|
            0 <= i < a.len() ==> (#[trigger] b[i]).doi == a[i].doi && b[i].date == a[i].date,
        edge_ok(a, fd, d),
    ensures
        edge_ok(b, fd, d),
{
    let j = choose|j: int|
        0 <= j < a.len() && (#[trigger] a[j]).doi == d && (match a[j].date {
            Some(td) => date_le(td, fd),
            None => false,
        });
    assert(b[j].doi == d);
}

/// A pass that removes no record yields a table satisfying the resolved
/// invariant.
pub proof fn lemma_stable_pass_invariant(t: Seq<RecView>)
    requires
        pass_spec(t).len() == t.len(),
    ensures
        graph_invariant(pass_spec(t)),
{
    let p = prune_spec(t);
    lemma_prune_table_shape(t, t);
    lemma_drop_spec_len(p);
    lemma_drop_spec_all_kept(p);
    let out = pass_spec(t);
    assert(out == p);
    assert forall|i: int|
        0 <= i < out.len() implies {
        let r = #[trigger] out[i];
        complete(r) && (match (r.date, r.references) {
            (Some(fd), Some(l)) => distinct_refs(l) && (forall|k: int|
                0 <= k < l.len() ==> edge_ok(out, fd, #[trigger] l[k])),
            _ => false,
        })
    } by {
        let r = out[i];
        assert(r == prune_rec(t, t[i]));
        assert(complete(r));
        match (r.date, r.references) {
            (Some(fd), Some(l)) => {
                assert(t[i].references is Some);
                let orig = t[i].references->0;
                assert(l == prune_refs(t, Some(fd), orig));
                lemma_prune_refs_sound(t, Some(fd), orig);
                lemma_prune_refs_distinct(t, Some(fd), orig);
                assert forall|k: int| 0 <= k < l.len() implies edge_ok(
                    out,
                    fd,
                    #[trigger] l[k],
                ) by {
                    assert(ref_kept(t, Some(fd), l[k]));
                    assert forall|m: int|
                        0 <= m < t.len() implies (#[trigger] out[m]).doi == t[m].doi
                        && out[m].date == t[m].date by {
                        assert(out[m] == prune_rec(t, t[m]));
                    }
                    lemma_edge_ok_transfer(t, out, fd, l[k]);
                }
            },
            _ => {
                assert(complete(r));
                assert(r.date is Some && r.references is Some);
            },
        }
    }
}

/// Empties under the prune filter: a reference list none of whose entries
/// passes the edge test aggregates to the empty set.
pub proof fn lemma_prune_refs_none_kept(table: Seq<RecView>, fd: Option<Date>, refs: Seq<Seq<char>>)
    requires
        forall|k: int| 0 <= k < refs.len() ==> !ref_kept(table, fd, #[trigger] refs[k]),
    ensures
        prune_refs(table, fd, refs) == Seq::<Seq<char>>::empty(),
    decreases refs.len(),
{
    if refs.len() > 0 {
        assert forall|k: int| 0 <= k < refs.drop_last().len() implies !ref_kept(
            table,
            fd,
            #[trigger] refs.drop_last()[k],
        ) by {
            assert(!ref_kept(table, fd, refs[k]));
        }
        lemma_prune_refs_none_kept(table, fd, refs.drop_last());
        assert(!ref_kept(table, fd, refs[refs.len() - 1]));
    }
}

/// The adversarial-chain law: in a table of complete records each of whose
/// references names only strictly-later-dated records, the first pass
/// prunes every reference set to empty and removes no record, so
/// resolution reaches its fixpoint at once — within one pass, and so
/// within the table's length — whatever fuel it is given.
pub proof fn lemma_forward_citations_resolve_to_empty(t: Seq<RecView>, fuel: nat)
    requires
        forall|i: int| 0 <= i < t.len() ==> complete(#[trigger] t[i]),
        forall|i: int, j: int|
            0 <= i < t.len() && 0 <= j < t.len() && #[trigger] ref_listed(
                t[i].references->0,
                t[j].doi,
            ) ==> !date_le(t[j].date->0, t[i].date->0),
    ensures
        resolve_spec(t, fuel) matches Some(out) && out.len() == t.len() && (forall|i: int|
            0 <= i < t.len() ==> (#[trigger] out[i]).references == Some(
                Seq::<Seq<char>>::empty(),
            )),
{
    lemma_prune_table_shape(t, t);
    let p = prune_spec(t);
    assert forall|i: int| 0 <= i < t.len() implies (#[trigger] p[i]).references == Some(
        Seq::<Seq<char>>::empty(),
    ) && complete(p[i]) by {
        let r = t[i];
        assert(p[i] == prune_rec(t, r));
        let l = r.references->0;
        assert forall|k: int| 0 <= k < l.len() implies !ref_kept(
            t,
            r.date,
            #[trigger] l[k],
        ) by {
            if ref_kept(t, r.date, l[k]) {
                let fd = r.date->0;
                let j = choose|j: int|
                    0 <= j < t.len() && (#[trigger] t[j]).doi == l[k] && (match t[j].date {
                        Some(td) => date_le(td, fd),
                        None => false,
                    });
                assert(ref_listed(l, t[j].doi));
                assert(!date_le(t[j].date->0, t[i].date->0));
            }
        }
        lemma_prune_refs_none_kept(t, r.date, l);
    }
    lemma_drop_spec_complete(p);
    assert(pass_spec(t) == p);
    assert(pass_spec(t).len() == t.len());
    assert(resolve_spec(t, fuel) == Some(p));
}

/// A key table pairing each record's doi with its date.
struct DoiDate {
    doi: String,
    date: Option<Date>,
}

/// Builds the key table of a record table.
fn build_keys(records: &Vec<Record>) -> (r: Vec<DoiDate>)
    ensures
        r@.len() == records@.len(),
        forall|i: int|
            0 <= i < records@.len() ==> (#[trigger] r@[i]).doi@ == records.deep_view()[i].doi
                && r@[i].date == records.deep_view()[i].date,
{
    let mut out: Vec<DoiDate> = Vec::new();
    let mut i: usize = 0;
    while i < records.len()
        invariant
            i <= records@.len(),
            out@.len() == i,
            forall|k: int|
                0 <= k < i ==> (#[trigger] out@[k]).doi@ == records.deep_view()[k].doi
                    && out@[k].date == records.deep_view()[k].date,
        decreases records.len() - i,
    {
        out.push(DoiDate { doi: records[i].doi.clone(), date: records[i].date });
        i = i + 1;
    }
    out
}

/// Tests one reference against the key table.
fn edge_kept(
    keys: &Vec<DoiDate>,
    Ghost(table): Ghost<Seq<RecView>>,
    fd: Option<Date>,
    target: &String,
) -> (r: bool)
    requires
        keys@.len() == table.len(),
        forall|i: int|
            0 <= i < table.len() ==> (#[trigger] keys@[i]).doi@ == table[i].doi && keys@[i].date
                == table[i].date,
    ensures
        r == ref_kept(table, fd, target@),
{
    let d = match fd {
        Some(d) => d,
        None => {
            return false;
        },
    };
    let mut j: usize = 0;
    while j < keys.len()
        invariant
            j <= keys@.len(),
            keys@.len() == table.len(),
            forall|i: int|
                0 <= i < table.len() ==> (#[trigger] keys@[i]).doi@ == table[i].doi
                    && keys@[i].date == table[i].date,
            fd == Some(d),
            forall|i: int|
                0 <= i < j ==> !((#[trigger] table[i]).doi == target@ && (match table[i].date {
                    Some(td) => date_le(td, d),
                    None => false,
                })),
        decreases keys.len() - j,
    {
        let doi_eq = keys[j].doi == *target;
        let date_ok = match keys[j].date {
            Some(td) => date_le_check(&td, &d),
            None => false,
        };
        if doi_eq && date_ok {
            proof {
                assert(table[j as int].doi == target@);
            }
            return true;
        }
        j = j + 1;
    }
    false
}

/// Filters one record's reference list against the key table.
fn prune_list(
    keys: &Vec<DoiDate>,
    Ghost(table): Ghost<Seq<RecView>>,
    fd: Option<Date>,
    refs: &Vec<String>,
) -> (r: Vec<String>)
    requires
        keys@.len() == table.len(),
        forall|i: int|
            0 <= i < table.len() ==> (#[trigger] keys@[i]).doi@ == table[i].doi && keys@[i].date
                == table[i].date,
    ensures
        r.deep_view() == prune_refs(table, fd, refs.deep_view()),
{
    let ghost all = refs.deep_view();
    let mut out: Vec<String> = Vec::new();
    let mut i: usize = 0;
    while i < refs.len()
        invariant
            i <= refs@.len(),
            all == refs.deep_view(),
            keys@.len() == table.len(),
            forall|k: int|
                0 <= k < table.len() ==> (#[trigger] keys@[k]).doi@ == table[k].doi
                    && keys@[k].date == table[k].date,
            out.deep_view() == prune_refs(table, fd, all.take(i as int)),
        decreases refs.len() - i,
    {
        let mut seen = false;
        let mut j: usize = 0;
        while j < i
            invariant
                j <= i < refs@.len(),
                all == refs.deep_view(),
                seen == (exists|k: int| 0 <= k < j && #[trigger] all[k] == all[i as int]),
            decreases i - j,
        {
            let eqd = refs[j] == refs[i];
            proof {
                assert(eqd == (all[j as int] == all[i as int]));
            }
            if eqd {
                seen = true;
            }
            j = j + 1;
        }
        proof {
            assert(seen == ref_listed(all.take(i as int), all[i as int])) by {
                if seen {
                    let k = choose|k: int| 0 <= k < i && #[trigger] all[k] == all[i as int];
                    assert(all.take(i as int)[k] == all[i as int]);
                }
                if ref_listed(all.take(i as int), all[i as int]) {
                    let w = all[i as int];
                    let k = choose|k: int| 0 <= k < i && #[trigger] all.take(i as int)[k] == w;
                    assert(all[k] == all[i as int]);
                }
            }
        }
        let ghost pre = out.deep_view();
        if edge_kept(keys, Ghost(table), fd, &refs[i]) && !seen {
            out.push(refs[i].clone());
            proof {
                assert(out.deep_view() =~~= pre.push(all[i as int]));
            }
        }
        proof {
            assert(all.take(i + 1 as int).drop_last() =~= all.take(i as int));
            assert(all.take(i + 1 as int).last() == all[i as int]);
        }
        i = i + 1;
    }
    proof {
        assert(all.take(all.len() as int) =~= all);
    }
    out
}

/// One pruning pass over a record table: every reference that does not
/// name a no-later-dated record of this same table is removed, and the
/// survivors are aggregated as a set of dois — each target once, at its
/// first occurrence. A record whose references all fail keeps an empty
/// set, and a record without a reference list keeps none.
pub fn prune_references(records: Vec<Record>) -> (r: Vec<Record>)
    ensures
        r.deep_view() == prune_spec(records.deep_view()),
        r@.len() == records@.len(),
{
    let ghost table = records.deep_view();
    let keys = build_keys(&records);
    let mut out: Vec<Record> = Vec::new();
    let mut i: usize = 0;
    proof {
        lemma_prune_table_shape(table, table);
    }
    while i < records.len()
        invariant
            i <= records@.len(),
            table == records.deep_view(),
            keys@.len() == table.len(),
            forall|k: int|
                0 <= k < table.len() ==> (#[trigger] keys@[k]).doi@ == table[k].doi
                    && keys@[k].date == table[k].date,
            out@.len() == i,
            out.deep_view() == prune_table_from(table, table.take(i as int)),
        decreases records.len() - i,
    {
        let rec = &records[i];
        let new_refs = match &rec.references {
            Some(l) => Some(prune_list(&keys, Ghost(table), rec.date, l)),
            None => None,
        };
        let pruned = Record {
            doi: rec.doi.clone(),
            date: rec.date,
            title: clone_opt_string(&rec.title),
            abstract_text: clone_opt_string(&rec.abstract_text),
            authors: clone_opt_strings(&rec.authors),
            author_keywords: clone_opt_strings(&rec.author_keywords),
            wos_keywords: clone_opt_strings(&rec.wos_keywords),
            category: clone_opt_strings(&rec.category),
            areas: clone_opt_strings(&rec.areas),
            journal: clone_opt_string(&rec.journal),
            text: clone_opt_string(&rec.text),
            references: new_refs,
        };
        let ghost pre = out.deep_view();
        proof {
            assert(pruned@ =~~= prune_rec(table, table[i as int]));
        }
        out.push(pruned);
        proof {
            assert(out.deep_view() =~~= pre.push(prune_rec(table, table[i as int])));
            assert(table.take(i + 1 as int).drop_last() =~= table.take(i as int));
            assert(table.take(i + 1 as int).last() == table[i as int]);
        }
        i = i + 1;
    }
    proof {
        assert(table.take(table.len() as int) =~= table);
    }
    out
}

/// Resolves the citation graph to a fixpoint. A pass prunes references
/// against the current table and then drops records missing a mandatory
/// field; passes repeat until one removes no record. Removing a record can
/// strand other records' references, which is exactly why the iteration is
/// needed. On success the result satisfies the resolved invariant: every
/// reference of every record names a record of the result table whose date
/// is no later than the citing record's date. Since every pass before the
/// last removes at least one record, a cap of at least the input length
/// always converges; the cap exists only to make non-convergence a loud,
/// reported failure rather than a silent truncation.
pub fn resolve_citations(records: Vec<Record>, cap: usize) -> (r: Result<
    Vec<Record>,
    CorpusError,
>)
    ensures
        match r {
            Ok(out) => resolve_spec(records.deep_view(), cap as nat) == Some(out.deep_view())
                && graph_invariant(out.deep_view()),
            Err(e) => resolve_spec(records.deep_view(), cap as nat) is None && e
                == CorpusError::FixpointNonConvergence(
                resolve_stuck_len(records.deep_view(), cap as nat) as usize,
            ),
        },
        cap >= records@.len() ==> r is Ok,
{
    let ghost orig = records.deep_view();
    let mut cur = records;
    let mut used: usize = 0;
    loop
        invariant
            orig == records.deep_view(),
            used <= cap,
            used + cur.deep_view().len() <= orig.len(),
            resolve_spec(orig, cap as nat) == resolve_spec(
                cur.deep_view(),
                (cap - used) as nat,
            ),
            resolve_stuck_len(orig, cap as nat) == resolve_stuck_len(
                cur.deep_view(),
                (cap - used) as nat,
            ),
        decreases cur@.len(),
    {
        let n = cur.len();
        let ghost cv = cur.deep_view();
        let pruned = prune_references(cur);
        let next = drop_nulls(pruned);
        proof {
            lemma_drop_spec_len(prune_spec(cv));
            lemma_prune_table_shape(cv, cv);
            assert(next.deep_view() == pass_spec(cv));
            assert(next@.len() == next.deep_view().len());
        }
        if next.len() == n {
            proof {
                assert(pass_spec(cv).len() == cv.len());
                assert(resolve_spec(cv, (cap - used) as nat) == Some(pass_spec(cv)));
                lemma_stable_pass_invariant(cv);
            }
            return Ok(next);
        }
        proof {
            assert(pass_spec(cv).len() != cv.len());
        }
        if used >= cap {
            proof {
                assert((cap - used) as nat == 0);
                assert(resolve_spec(cv, 0) is None);
                if cap >= orig.len() {
                    assert(cv.len() == 0);
                    assert(cv =~= Seq::<RecView>::empty());
                    assert(prune_spec(cv) =~= Seq::<RecView>::empty());
                    assert(pass_spec(cv).len() == 0);
                    assert(false);
                }
            }
            return Err(CorpusError::FixpointNonConvergence(next.len()));
        }
        proof {
            assert(resolve_spec(cv, (cap - used) as nat) == resolve_spec(
                pass_spec(cv),
                (cap - used - 1) as nat,
            ));
            assert(resolve_stuck_len(cv, (cap - used) as nat) == resolve_stuck_len(
                pass_spec(cv),
                (cap - used - 1) as nat,
            ));
        }
        used = used + 1;
        cur = next;
    }
}

} // verus!
