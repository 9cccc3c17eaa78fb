//! The whole core pipeline over canonical records: deterministic batch
//! merge, keep-first deduplication, abstract fill and text construction,
//! citation-graph resolution to a fixpoint, a final deduplication, and the
//! term-weight index over the surviving documents. Every step is a
//! function of the input sequence alone, so two runs over the same batches
//! in the same order produce the same table and index.

use vstd::prelude::*;
use crate::abstracts::{abstract_for, spec_abstract_for};
use crate::chars::{chars_of, lower_chars, spec_trim, string_of, to_lower_chars, trim_chars};
use crate::dedup::{dedup_records, dedup_spec, doi_in, lemma_dedup_of_unique, lemma_dedup_unique,
    unique_dois};
use crate::errors::CorpusError;
use crate::graph::{graph_invariant, lemma_prune_table_shape, pass_spec, prune_rec, prune_spec,
    resolve_citations, resolve_spec};
use crate::index::{spec_index, tfidf_util, DocView, Document, TermVector};
use crate::record::{complete, drop_spec, Record, RecView, clone_opt_string, clone_opt_strings};
use crate::text::{clean_document, join_chars, join_tokens, text_util, tokenize_chars, tokens_of};

verus! {

/// The concatenation of a sequence of batches, in order.
pub open spec fn concat_batches(bs: Seq<Seq<RecView>>) -> Seq<RecView>
    decreases bs.len(),
{
    if bs.len() == 0 {
        Seq::empty()
    } else {
        concat_batches(bs.drop_last()) + bs.last()
    }
}

/// Concatenates record batches in their given order. The caller fixes that
/// order deterministically (the ingest sorts batches by source name), so
/// the merged table — and with keep-first deduplication, the survivor of
/// every doi — is reproducible.
pub fn merge_batches(batches: Vec<Vec<Record>>) -> (r: Vec<Record>)
    ensures
        r.deep_view() == concat_batches(batches.deep_view()),
{
    let ghost bv = batches.deep_view();
    let mut batches = batches;
    let mut out: Vec<Record> = Vec::new();
    let mut i: usize = 0;
    while i < batches.len()
        invariant
            i <= batches@.len(),
            bv == batches.deep_view(),
            out.deep_view() == concat_batches(bv.take(i as int)),
        decreases batches.len() - i,
    {
        let mut j: usize = 0;
        let ghost base = out.deep_view();
        while j < batches[i].len()
            invariant
                i < batches@.len(),
                j <= bv[i as int].len(),
                bv == batches.deep_view(),
                out.deep_view() == base + bv[i as int].take(j as int),
            decreases bv[i as int].len() - j,
        {
            let ghost pre = out.deep_view();
            let c = batches[i][j].duplicate();
            let ghost cv = c.deep_view();
            out.push(c);
            proof {
                assert(bv[i as int] == batches@[i as int].deep_view());
                assert(cv == bv[i as int][j as int]);
                assert(out.deep_view() =~~= pre.push(cv));
                assert(pre.push(cv) =~~= base + bv[i as int].take(j + 1 as int));
            }
            j = j + 1;
        }
        proof {
            let ghost bi = bv[i as int];
            assert(bi.take(bi.len() as int) =~= bi);
            assert(bv.take(i + 1 as int).drop_last() =~= bv.take(i as int));
            assert(bv.take(i + 1 as int).last() == bv[i as int]);
            assert(out.deep_view() =~~= concat_batches(bv.take(i + 1 as int)));
        }
        i = i + 1;
    }
    proof {
        assert(bv.take(bv.len() as int) =~= bv);
    }
    out
}

/// The abstract a record carries after the fallback fill: its own if
/// present, else the table's, in either case lowercased and trimmed.
pub open spec fn filled_abstract(r: RecView) -> Option<Seq<char>> {
    let ab = match r.abstract_text {
        Some(a) => Some(a),
        None => spec_abstract_for(r.doi),
    };
    match ab {
        Some(a) => Some(spec_trim(lower_chars(a))),
        None => None,
    }
}

/// The concatenated raw text of a record: title, filled abstract, and
/// author keywords joined with single spaces; no title, no text.
pub open spec fn concat_text(r: RecView) -> Option<Seq<char>> {
    match r.title {
        Some(t) => {
            let ab = match filled_abstract(r) {
                Some(a) => a,
                None => Seq::empty(),
            };
            let kw = match r.author_keywords {
                Some(k) => join_tokens(k),
                None => Seq::empty(),
            };
            Some(t + seq![' '] + ab + seq![' '] + kw)
        },
        None => None,
    }
}

/// One record after the fill pass: the abstract filled and normalized, and
/// the derived text set to the document normalization of the concatenated
/// text fields.
pub open spec fn fill_rec(r: RecView) -> RecView {
    RecView {
        abstract_text: filled_abstract(r),
        text: match concat_text(r) {
            Some(c) => Some(clean_document(c)),
            None => None,
        },
        ..r
    }
}

/// The fill pass over a whole table.
pub open spec fn fill_spec(t: Seq<RecView>) -> Seq<RecView>
    decreases t.len(),
{
    if t.len() == 0 {
        Seq::empty()
    } else {
        fill_spec(t.drop_last()).push(fill_rec(t.last()))
    }
}

/// Fills missing abstracts from the fallback table and builds each
/// record's derived text.
pub fn fill_records(records: Vec<Record>) -> (r: Vec<Record>)
    ensures
        r.deep_view() == fill_spec(records.deep_view()),
{
    let ghost all = records.deep_view();
    let mut out: Vec<Record> = Vec::new();
    let mut i: usize = 0;
    while i < records.len()
        invariant
            i <= records@.len(),
            all == records.deep_view(),
            out.deep_view() == fill_spec(all.take(i as int)),
        decreases records.len() - i,
    {
        let rec = &records[i];
        let raw_ab = match &rec.abstract_text {
            Some(a) => Some(a.clone()),
            None => abstract_for(&rec.doi),
        };
        let ab = match raw_ab {
            Some(a) => {
                let cs = chars_of(a.as_str());
                let lowered = to_lower_chars(&cs);
                let trimmed = trim_chars(&lowered);
                Some(string_of(&trimmed))
            },
            None => None,
        };
        proof {
            assert(match ab {
                Some(a) => filled_abstract(all[i as int]) == Some(a@),
                None => filled_abstract(all[i as int]) is None,
            });
        }
        let text = match &rec.title {
            Some(t) => {
                let mut buf = chars_of(t.as_str());
                buf.push(' ');
                match &ab {
                    Some(a) => {
                        let mut acs = chars_of(a.as_str());
                        buf.append(&mut acs);
                    },
                    None => {},
                };
                buf.push(' ');
                match &rec.author_keywords {
                    Some(kws) => {
                        let mut kcs: Vec<Vec<char>> = Vec::new();
                        let mut k: usize = 0;
                        while k < kws.len()
                            invariant
                                k <= kws@.len(),
                                kcs.deep_view() == kws.deep_view().take(k as int),
                            decreases kws.len() - k,
                        {
                            let ghost prek = kcs.deep_view();
                            kcs.push(chars_of(kws[k].as_str()));
                            proof {
                                assert(kcs.deep_view() =~~= prek.push(kws.deep_view()[k as int]));
                                assert(kcs.deep_view() =~~= kws.deep_view().take(k + 1 as int));
                            }
                            k = k + 1;
                        }
                        proof {
                            assert(kws.deep_view().take(kws.deep_view().len() as int)
                                =~= kws.deep_view());
                        }
                        let mut joined = join_chars(&kcs);
                        buf.append(&mut joined);
                    },
                    None => {},
                };
                proof {
                    assert(concat_text(all[i as int]) == Some(buf@)) by {
                        assert(concat_text(all[i as int]) is Some);
                        assert(buf@ =~= concat_text(all[i as int])->0);
                    }
                }
                let joined_str = string_of(&buf);
                text_util(Some(joined_str.as_str()))
            },
            None => None,
        };
        let filled = Record {
            doi: rec.doi.clone(),
            date: rec.date,
            title: clone_opt_string(&rec.title),
            abstract_text: ab,
            authors: clone_opt_strings(&rec.authors),
            author_keywords: clone_opt_strings(&rec.author_keywords),
            wos_keywords: clone_opt_strings(&rec.wos_keywords),
            category: clone_opt_strings(&rec.category),
            areas: clone_opt_strings(&rec.areas),
            journal: clone_opt_string(&rec.journal),
            text,
            references: clone_opt_strings(&rec.references),
        };
        let ghost pre = out.deep_view();
        proof {
            assert(filled@ =~~= fill_rec(all[i as int]));
        }
        out.push(filled);
        proof {
            assert(out.deep_view() =~~= pre.push(fill_rec(all[i as int])));
            assert(all.take(i + 1 as int).drop_last() =~= all.take(i as int));
            assert(all.take(i + 1 as int).last() == all[i as int]);
        }
        i = i + 1;
    }
    proof {
        assert(all.take(all.len() as int) =~= all);
    }
    out
}

/// The text of a record, or the empty sequence where there is none.
pub open spec fn text_or_empty(r: RecView) -> Seq<char> {
    match r.text {
        Some(t) => t,
        None => Seq::empty(),
    }
}

/// The documents a table yields for indexing: each record's text split on
/// whitespace. A resolved record's text is its normalized token sequence
/// joined with single spaces, so this recovers exactly those tokens.
pub open spec fn docs_of(t: Seq<RecView>) -> Seq<DocView> {
    t.map_values(|r: RecView| DocView { doi: r.doi, tokens: tokens_of(text_or_empty(r)) })
}

/// Builds the document set of a record table.
pub fn documents_of(records: &Vec<Record>) -> (r: Vec<Document>)
    ensures
        r.deep_view() == docs_of(records.deep_view()),
{
    let ghost all = records.deep_view();
    let mut out: Vec<Document> = Vec::new();
    let mut i: usize = 0;
    while i < records.len()
        invariant
            i <= records@.len(),
            all == records.deep_view(),
            out.deep_view() == docs_of(all.take(i as int)),
        decreases records.len() - i,
    {
        let rec = &records[i];
        let cs = match &rec.text {
            Some(t) => chars_of(t.as_str()),
            None => Vec::new(),
        };
        proof {
            assert(cs@ == text_or_empty(all[i as int]));
        }
        let toks = tokenize_chars(&cs);
        let mut tokens: Vec<String> = Vec::new();
        let mut k: usize = 0;
        while k < toks.len()
            invariant
                k <= toks@.len(),
                toks.deep_view() == tokens_of(text_or_empty(all[i as int])),
                tokens.deep_view() == toks.deep_view().take(k as int),
            decreases toks.len() - k,
        {
            let ghost prek = tokens.deep_view();
            tokens.push(string_of(&toks[k]));
            proof {
                assert(toks.deep_view()[k as int] =~= toks@[k as int]@);
                assert(tokens.deep_view() =~~= prek.push(toks.deep_view()[k as int]));
                assert(tokens.deep_view() =~~= toks.deep_view().take(k + 1 as int));
            }
            k = k + 1;
        }
        proof {
            assert(toks.deep_view().take(toks.deep_view().len() as int) =~= toks.deep_view());
        }
        let doc = Document { doi: rec.doi.clone(), tokens };
        let ghost pre = out.deep_view();
        proof {
            assert(doc@ =~~= docs_of(all)[i as int]);
            assert(docs_of(all.take(i + 1 as int)) =~~= pre.push(docs_of(all)[i as int]));
        }
        out.push(doc);
        proof {
            assert(out.deep_view() =~~= docs_of(all.take(i + 1 as int)));
        }
        i = i + 1;
    }
    proof {
        assert(all.take(all.len() as int) =~= all);
    }
    out
}

/// Deduplication never grows a table.
pub proof fn lemma_dedup_len_le(s: Seq<RecView>)
    ensures
        dedup_spec(s).len() <= s.len(),
    decreases s.len(),
{
    if s.len() > 0 {
        lemma_dedup_len_le(s.drop_last());
    }
}

/// Every doi of a dropped table was a doi of the table.
proof fn lemma_drop_dois_subset(t: Seq<RecView>)
    ensures
        forall|d: Seq<char>| doi_in(drop_spec(t), d) ==> doi_in(t, d),
    decreases t.len(),
{
    if t.len() > 0 {
        lemma_drop_dois_subset(t.drop_last());
        assert forall|d: Seq<char>| doi_in(drop_spec(t), d) implies doi_in(t, d) by {
            let dr = drop_spec(t);
            let rest = drop_spec(t.drop_last());
            let i = choose|i: int| 0 <= i < dr.len() && (#[trigger] dr[i]).doi == d;
            if complete(t.last()) && i == rest.len() {
                assert(dr[i] == t.last());
                assert(t[t.len() - 1].doi == d);
            } else {
                assert(dr[i] == rest[i]);
                assert(doi_in(rest, d));
                assert(doi_in(t.drop_last(), d));
                let k = choose|k: int|
                    0 <= k < t.drop_last().len() && (#[trigger] t.drop_last()[k]).doi == d;
                assert(t[k].doi == d);
            }
        }
    }
}

/// The mandatory-field drop keeps dois distinct.
proof fn lemma_drop_unique(t: Seq<RecView>)
    requires
        unique_dois(t),
    ensures
        unique_dois(drop_spec(t)),
    decreases t.len(),
{
    if t.len() > 0 {
        assert(unique_dois(t.drop_last())) by {
            assert forall|i: int, j: int|
                0 <= i < j < t.drop_last().len() implies (#[trigger] t.drop_last()[i]).doi != (
            #[trigger] t.drop_last()[j]).doi by {
                assert(t[i].doi != t[j].doi);
            }
        }
        lemma_drop_unique(t.drop_last());
        lemma_drop_dois_subset(t.drop_last());
        if complete(t.last()) {
            let rest = drop_spec(t.drop_last());
            assert forall|i: int, j: int|
                0 <= i < j < drop_spec(t).len() implies (#[trigger] drop_spec(t)[i]).doi != (
            #[trigger] drop_spec(t)[j]).doi by {
                if j == rest.len() {
                    if drop_spec(t)[i].doi == t.last().doi {
                        assert(rest[i].doi == t.last().doi);
                        assert(doi_in(rest, t.last().doi));
                        assert(doi_in(t.drop_last(), t.last().doi));
                        let k = choose|k: int|
                            0 <= k < t.drop_last().len() && (#[trigger] t.drop_last()[k]).doi
                                == t.last().doi;
                        assert(t[k].doi == t[t.len() - 1].doi);
                    }
                }
            }
        }
    }
}

/// A resolution pass keeps dois distinct.
proof fn lemma_pass_unique(t: Seq<RecView>)
    requires
        unique_dois(t),
    ensures
        unique_dois(pass_spec(t)),
{
    lemma_prune_table_shape(t, t);
    let p = prune_spec(t);
    assert(unique_dois(p)) by {
        assert forall|i: int, j: int|
            0 <= i < j < p.len() implies (#[trigger] p[i]).doi != (#[trigger] p[j]).doi by {
            assert(p[i] == prune_rec(t, t[i]));
            assert(p[j] == prune_rec(t, t[j]));
            assert(t[i].doi != t[j].doi);
        }
    }
    lemma_drop_unique(p);
}

/// Resolution keeps dois distinct.
proof fn lemma_resolve_unique(t: Seq<RecView>, fuel: nat)
    requires
        unique_dois(t),
        resolve_spec(t, fuel) is Some,
    ensures
        unique_dois(resolve_spec(t, fuel)->0),
    decreases fuel,
{
    lemma_pass_unique(t);
    let n = pass_spec(t);
    if n.len() == t.len() {
    } else {
        lemma_resolve_unique(n, (fuel - 1) as nat);
    }
}

/// Runs the whole core over a deduplicated, filled record table: resolves
/// the citation graph to a fixpoint, deduplicates once more, and builds
/// the term-weight index of the survivors. The result is a function of the
/// input sequence and the cap alone; a cap of at least the table length
/// always suffices for convergence. On success the final table satisfies
/// the resolved-graph invariant and holds at least one document.
pub fn process_records(records: Vec<Record>, cap: usize) -> (r: Result<
    (Vec<Record>, Vec<TermVector>),
    CorpusError,
>)
    ensures
        ({
            let staged = fill_spec(dedup_spec(records.deep_view()));
            match r {
                Ok(p) => {
                    &&& resolve_spec(staged, cap as nat) matches Some(t) && p.0.deep_view()
                        == dedup_spec(t) && dedup_spec(t).len() > 0
                    &&& p.1.deep_view() == spec_index(docs_of(p.0.deep_view()))
                    &&& graph_invariant(p.0.deep_view())
                },
                Err(CorpusError::FixpointNonConvergence(_)) => resolve_spec(staged, cap as nat)
                    is None,
                Err(CorpusError::EmptyCorpus) => resolve_spec(staged, cap as nat) matches Some(t)
                    && dedup_spec(t).len() == 0,
            }
        }),
        cap >= records@.len() ==> !(r matches Err(CorpusError::FixpointNonConvergence(_))),
{
    let ghost rv = records.deep_view();
    let deduped = dedup_records(records);
    proof {
        lemma_dedup_len_le(rv);
    }
    let staged = fill_records(deduped);
    let ghost sv = staged.deep_view();
    proof {
        assert(unique_dois(sv)) by {
            lemma_dedup_unique(rv);
            let dv = dedup_spec(rv);
            assert forall|i: int, j: int|
                0 <= i < j < sv.len() implies (#[trigger] sv[i]).doi != (
            #[trigger] sv[j]).doi by {
                lemma_fill_shape(dv);
                assert(sv[i] == fill_rec(dv[i]));
                assert(sv[j] == fill_rec(dv[j]));
            }
        }
    }
    proof {
        lemma_fill_shape(dedup_spec(rv));
    }
    let resolved = match resolve_citations(staged, cap) {
        Ok(t) => t,
        Err(e) => {
            return Err(e);
        },
    };
    proof {
        lemma_resolve_unique(sv, cap as nat);
        lemma_dedup_of_unique(resolved.deep_view());
    }
    let fin = dedup_records(resolved);
    if fin.len() == 0 {
        return Err(CorpusError::EmptyCorpus);
    }
    let docs = documents_of(&fin);
    let index = match tfidf_util(&docs) {
        Ok(v) => v,
        Err(_) => {
            proof {
                assert(docs.deep_view().len() == fin.deep_view().len());
                assert(false);
            }
            return Err(CorpusError::EmptyCorpus);
        },
    };
    Ok((fin, index))
}

/// The fill pass keeps length, dois, and dates.
pub proof fn lemma_fill_shape(t: Seq<RecView>)
    ensures
        fill_spec(t).len() == t.len(),
        forall|i: int| 0 <= i < t.len() ==> #[trigger] fill_spec(t)[i] == fill_rec(t[i]),
    decreases t.len(),
{
    if t.len() > 0 {
        lemma_fill_shape(t.drop_last());
    }
}

} // verus!
