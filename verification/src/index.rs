//! The corpus index builder. For every document it records, per distinct
//! term, the exact integer statistics behind the TF-IDF weight: the term's
//! occurrence count in the document, the document's length, the number of
//! documents whose token set contains the term, and the corpus size. The
//! weight itself is `(count / doc_len) * ln(n_docs / df)`; the division is
//! fractional by design — an integer division here would collapse most
//! counts to zero — and, with the logarithm, it is left to the consumer's
//! floating-point arithmetic, since the exact statistics are what can be
//! stated and proved. Every recorded `df` is at least one and at most
//! `n_docs`, so the logarithm's argument is never degenerate; an empty
//! corpus is rejected loudly instead.

use vstd::prelude::*;
use crate::errors::CorpusError;

verus! {

/// A document: a record's doi with its normalized token sequence.
#[derive(Debug)]
pub struct Document {
    pub doi: String,
    pub tokens: Vec<String>,
}

/// The mathematical value of a document.
#[verifier::ext_equal]
pub ghost struct DocView {
    pub doi: Seq<char>,
    pub tokens: Seq<Seq<char>>,
}

impl View for Document {
    type V = DocView;

    open spec fn view(&self) -> DocView {
        DocView { doi: self.doi@, tokens: self.tokens.deep_view() }
    }
}

impl DeepView for Document {
    type V = DocView;

    open spec fn deep_view(&self) -> DocView {
        self.view()
    }
}

/// One term's statistics within one document.
#[derive(Debug)]
pub struct TermStat {
    pub term: String,
    pub count: usize,
    pub df: usize,
}

/// The mathematical value of a term's statistics.
#[verifier::ext_equal]
pub ghost struct TermStatView {
    pub term: Seq<char>,
    pub count: nat,
    pub df: nat,
}

impl View for TermStat {
    type V = TermStatView;

    open spec fn view(&self) -> TermStatView {
        TermStatView { term: self.term@, count: self.count as nat, df: self.df as nat }
    }
}

impl DeepView for TermStat {
    type V = TermStatView;

    open spec fn deep_view(&self) -> TermStatView {
        self.view()
    }
}

/// A document's term vector: one entry per distinct term of the document,
/// with the document length and corpus size needed for the weights.
#[derive(Debug)]
pub struct TermVector {
    pub doi: String,
    pub doc_len: usize,
    pub n_docs: usize,
    pub entries: Vec<TermStat>,
}

/// The mathematical value of a term vector.
#[verifier::ext_equal]
pub ghost struct TermVectorView {
    pub doi: Seq<char>,
    pub doc_len: nat,
    pub n_docs: nat,
    pub entries: Seq<TermStatView>,
}

impl View for TermVector {
    type V = TermVectorView;

    open spec fn view(&self) -> TermVectorView {
        TermVectorView {
            doi: self.doi@,
            doc_len: self.doc_len as nat,
            n_docs: self.n_docs as nat,
            entries: self.entries.deep_view(),
        }
    }
}

impl DeepView for TermVector {
    type V = TermVectorView;

    open spec fn deep_view(&self) -> TermVectorView {
        self.view()
    }
}

/// The number of occurrences of a term in a token sequence.
pub open spec fn count_in(ts: Seq<Seq<char>>, t: Seq<char>) -> nat
    decreases ts.len(),
{
    if ts.len() == 0 {
        0
    } else {
        count_in(ts.drop_last(), t) + if ts.last() == t {
            1nat
        } else {
            0nat
        }
    }
}

/// Whether a token sequence contains a term.
pub open spec fn has_tok(ts: Seq<Seq<char>>, t: Seq<char>) -> bool {
    exists|i: int| 0 <= i < ts.len() && ts[i] == t
}

/// The distinct terms of a token sequence, in first-occurrence order.
pub open spec fn distinct_terms(ts: Seq<Seq<char>>) -> Seq<Seq<char>>
    decreases ts.len(),
{
    if ts.len() == 0 {
        Seq::empty()
    } else {
        let rest = distinct_terms(ts.drop_last());
        if has_tok(ts.drop_last(), ts.last()) {
            rest
        } else {
            rest.push(ts.last())
        }
    }
}

/// The document frequency of a term: how many documents' token sets
/// contain it.
pub open spec fn df_count(docs: Seq<DocView>, t: Seq<char>) -> nat
    decreases docs.len(),
{
    if docs.len() == 0 {
        0
    } else {
        df_count(docs.drop_last(), t) + if has_tok(docs.last().tokens, t) {
            1nat
        } else {
            0nat
        }
    }
}

/// The term vector of one document within a corpus.
pub open spec fn vector_for(docs: Seq<DocView>, d: DocView) -> TermVectorView {
    TermVectorView {
        doi: d.doi,
        doc_len: d.tokens.len(),
        n_docs: docs.len(),
        entries: distinct_terms(d.tokens).map_values(
            |t: Seq<char>|
                TermStatView { term: t, count: count_in(d.tokens, t), df: df_count(docs, t) },
        ),
    }
}

/// The index of a whole corpus: one term vector per document, in order.
pub open spec fn spec_index(docs: Seq<DocView>) -> Seq<TermVectorView> {
    Seq::new(docs.len(), |i: int| vector_for(docs, docs[i]))
}

/// Counts a term's occurrences in a token list.
pub fn count_term(tokens: &Vec<String>, t: &String) -> (r: usize)
    ensures
        r as nat == count_in(tokens.deep_view(), t@),
{
    let ghost all = tokens.deep_view();
    let mut cnt: usize = 0;
    let mut i: usize = 0;
    while i < tokens.len()
        invariant
            i <= tokens@.len(),
            all == tokens.deep_view(),
            cnt <= i,
            cnt as nat == count_in(all.take(i as int), t@),
        decreases tokens.len() - i,
    {
        if tokens[i] == *t {
            cnt = cnt + 1;
        }
        proof {
            assert(all.take(i + 1 as int).drop_last() =~= all.take(i as int));
            assert(all.take(i + 1 as int).last() == all[i as int]);
        }
        i = i + 1;
    }
    proof {
        assert(all.take(all.len() as int) =~= all);
    }
    cnt
}

/// Whether a token list contains a term.
pub fn doc_has(tokens: &Vec<String>, t: &String) -> (r: bool)
    ensures
        r == has_tok(tokens.deep_view(), t@),
{
    let ghost all = tokens.deep_view();
    let mut i: usize = 0;
    while i < tokens.len()
        invariant
            i <= tokens@.len(),
            all == tokens.deep_view(),
            forall|k: int| 0 <= k < i ==> #[trigger] all[k] != t@,
        decreases tokens.len() - i,
    {
        if tokens[i] == *t {
            proof {
                assert(all[i as int] == t@);
            }
            return true;
        }
        i = i + 1;
    }
    false
}

/// The distinct terms of a token list, in first-occurrence order.
pub fn distinct_of(tokens: &Vec<String>) -> (r: Vec<String>)
    ensures
        r.deep_view() == distinct_terms(tokens.deep_view()),
{
    let ghost all = tokens.deep_view();
    let mut out: Vec<String> = Vec::new();
    let mut i: usize = 0;
    while i < tokens.len()
        invariant
            i <= tokens@.len(),
            all == tokens.deep_view(),
            out.deep_view() == distinct_terms(all.take(i as int)),
        decreases tokens.len() - i,
    {
        let mut seen = false;
        let mut j: usize = 0;
        while j < i
            invariant
                j <= i < tokens@.len(),
                all == tokens.deep_view(),
                seen == (exists|k: int| 0 <= k < j && #[trigger] all[k] == all[i as int]),
            decreases i - j,
        {
            let eqt = tokens[j] == tokens[i];
            proof {
                assert(eqt == (all[j as int] == all[i as int]));
            }
            if eqt {
                seen = true;
            }
            j = j + 1;
        }
        proof {
            assert(seen == has_tok(all.take(i as int), all[i as int])) by {
                if seen {
                    let k = choose|k: int| 0 <= k < i && #[trigger] all[k] == all[i as int];
                    assert(all.take(i as int)[k] == all[i as int]);
                }
                if has_tok(all.take(i as int), all[i as int]) {
                    let w = all[i as int];
                    let k = choose|k: int| 0 <= k < i && #[trigger] all.take(i as int)[k] == w;
                    assert(all[k] == all[i as int]);
                }
            }
        }
        let ghost pre = out.deep_view();
        if !seen {
            out.push(tokens[i].clone());
            proof {
                assert(out.deep_view() =~~= pre.push(all[i as int]));
            }
        }
        proof {
            assert(all.take(i + 1 as int).drop_last() =~= all.take(i as int));
            assert(all.take(i + 1 as int).last() == all[i as int]);
        }
        i = i + 1;
    }
    proof {
        assert(all.take(all.len() as int) =~= all);
    }
    out
}

/// All tokens of a corpus, in document order.
pub open spec fn all_tokens(docs: Seq<DocView>) -> Seq<Seq<char>>
    decreases docs.len(),
{
    if docs.len() == 0 {
        Seq::empty()
    } else {
        all_tokens(docs.drop_last()) + docs.last().tokens
    }
}

/// The corpus vocabulary: the distinct terms over all documents, in
/// first-occurrence order (the set union of all token sets, given a
/// deterministic order).
pub fn corpus_unique_terms(docs: &Vec<Document>) -> (r: Vec<String>)
    ensures
        r.deep_view() == distinct_terms(all_tokens(docs.deep_view())),
{
    let ghost dv = docs.deep_view();
    let mut flat: Vec<String> = Vec::new();
    let mut i: usize = 0;
    while i < docs.len()
        invariant
            i <= docs@.len(),
            dv == docs.deep_view(),
            flat.deep_view() == all_tokens(dv.take(i as int)),
        decreases docs.len() - i,
    {
        let mut j: usize = 0;
        let ghost base = flat.deep_view();
        while j < docs[i].tokens.len()
            invariant
                i < docs@.len(),
                j <= dv[i as int].tokens.len(),
                dv == docs.deep_view(),
                flat.deep_view() == base + dv[i as int].tokens.take(j as int),
            decreases dv[i as int].tokens.len() - j,
        {
            let ghost pref = flat.deep_view();
            flat.push(docs[i].tokens[j].clone());
            proof {
                assert(dv[i as int] == docs@[i as int].deep_view());
                assert(dv[i as int].tokens == docs@[i as int].tokens.deep_view());
                assert(dv[i as int].tokens[j as int] == docs@[i as int].tokens@[j as int]@);
                assert(flat.deep_view() =~~= pref.push(dv[i as int].tokens[j as int]));
                assert(pref.push(dv[i as int].tokens[j as int]) =~~= base + dv[
                    i as int
                ].tokens.take(j + 1 as int));
            }
            j = j + 1;
        }
        proof {
            let ghost di = dv[i as int];
            assert(di.tokens.take(di.tokens.len() as int) =~= di.tokens);
            assert(dv.take(i + 1 as int).drop_last() =~= dv.take(i as int));
            assert(dv.take(i + 1 as int).last() == dv[i as int]);
            assert(flat.deep_view() =~~= all_tokens(dv.take(i + 1 as int)));
        }
        i = i + 1;
    }
    proof {
        assert(dv.take(dv.len() as int) =~= dv);
    }
    distinct_of(&flat)
}

/// Counts the documents whose token set contains a term.
pub fn df_of(docs: &Vec<Document>, t: &String) -> (r: usize)
    ensures
        r as nat == df_count(docs.deep_view(), t@),
        r <= docs@.len(),
{
    let ghost dv = docs.deep_view();
    let mut cnt: usize = 0;
    let mut i: usize = 0;
    while i < docs.len()
        invariant
            i <= docs@.len(),
            dv == docs.deep_view(),
            cnt <= i,
            cnt as nat == df_count(dv.take(i as int), t@),
        decreases docs.len() - i,
    {
        if doc_has(&docs[i].tokens, t) {
            cnt = cnt + 1;
        }
        proof {
            assert(dv.take(i + 1 as int).drop_last() =~= dv.take(i as int));
            assert(dv.take(i + 1 as int).last() == dv[i as int]);
        }
        i = i + 1;
    }
    proof {
        assert(dv.take(dv.len() as int) =~= dv);
    }
    cnt
}

/// Builds the term-weight index of a corpus: one vector per document, one
/// entry per distinct term of that document, with the exact occurrence
/// count and document frequency. An empty corpus is a fatal error.
pub fn tfidf_util(docs: &Vec<Document>) -> (r: Result<Vec<TermVector>, CorpusError>)
    ensures
        match r {
            Ok(v) => docs@.len() > 0 && v.deep_view() == spec_index(docs.deep_view()),
            Err(e) => docs@.len() == 0 && e == CorpusError::EmptyCorpus,
        },
{
    if docs.len() == 0 {
        return Err(CorpusError::EmptyCorpus);
    }
    let ghost dv = docs.deep_view();
    let mut out: Vec<TermVector> = Vec::new();
    let mut i: usize = 0;
    while i < docs.len()
        invariant
            i <= docs@.len(),
            dv == docs.deep_view(),
            out.deep_view() == spec_index(dv).take(i as int),
        decreases docs.len() - i,
    {
        let terms = distinct_of(&docs[i].tokens);
        let ghost vfull = vector_for(dv, dv[i as int]);
        let mut entries: Vec<TermStat> = Vec::new();
        let mut k: usize = 0;
        proof {
            assert(terms.deep_view() == distinct_terms(dv[i as int].tokens));
            assert(vfull.entries.len() == terms.deep_view().len());
        }
        while k < terms.len()
            invariant
                i < docs@.len(),
                dv == docs.deep_view(),
                terms.deep_view() == distinct_terms(dv[i as int].tokens),
                vfull == vector_for(dv, dv[i as int]),
                k <= terms@.len(),
                entries.deep_view() == vfull.entries.take(k as int),
            decreases terms.len() - k,
        {
            let count = count_term(&docs[i].tokens, &terms[k]);
            let df = df_of(docs, &terms[k]);
            let ghost pre = entries.deep_view();
            entries.push(TermStat { term: terms[k].clone(), count, df });
            proof {
                assert(terms.deep_view()[k as int] == terms@[k as int]@);
                assert(vfull.entries[k as int] == TermStatView {
                    term: terms.deep_view()[k as int],
                    count: count_in(dv[i as int].tokens, terms.deep_view()[k as int]),
                    df: df_count(dv, terms.deep_view()[k as int]),
                });
                assert(dv[i as int].tokens == docs@[i as int].tokens.deep_view());
                assert(entries.deep_view() =~~= pre.push(vfull.entries[k as int]));
                assert(pre.push(vfull.entries[k as int]) =~~= vfull.entries.take(k + 1 as int));
            }
            k = k + 1;
        }
        let vec = TermVector {
            doi: docs[i].doi.clone(),
            doc_len: docs[i].tokens.len(),
            n_docs: docs.len(),
            entries,
        };
        let ghost pre = out.deep_view();
        proof {
            assert(vfull.entries.take(vfull.entries.len() as int) =~= vfull.entries);
            assert(vec@ =~~= vfull);
            assert(spec_index(dv)[i as int] == vfull);
        }
        out.push(vec);
        proof {
            assert(out.deep_view() =~~= pre.push(vfull));
            assert(pre.push(vfull) =~~= spec_index(dv).take(i + 1 as int));
        }
        i = i + 1;
    }
    proof {
        assert(spec_index(dv).take(spec_index(dv).len() as int) =~= spec_index(dv));
    }
    Ok(out)
}

/// Every distinct term of a sequence occurs in it.
pub proof fn lemma_distinct_sound(ts: Seq<Seq<char>>)
    ensures
        forall|k: int|
            0 <= k < distinct_terms(ts).len() ==> has_tok(ts, #[trigger] distinct_terms(ts)[k]),
    decreases ts.len(),
{
    if ts.len() > 0 {
        lemma_distinct_sound(ts.drop_last());
        let rest = distinct_terms(ts.drop_last());
        assert forall|k: int|
            0 <= k < distinct_terms(ts).len() implies has_tok(
            ts,
            #[trigger] distinct_terms(ts)[k],
        ) by {
            if k < rest.len() {
                assert(distinct_terms(ts)[k] == rest[k]);
                assert(has_tok(ts.drop_last(), rest[k]));
                let w = choose|w: int| 0 <= w < ts.drop_last().len() && ts.drop_last()[w] == rest[k];
                assert(ts[w] == rest[k]);
            } else {
                assert(distinct_terms(ts)[k] == ts.last());
                assert(ts[ts.len() - 1] == ts.last());
            }
        }
    }
}

/// Document frequency never exceeds the corpus size.
pub proof fn lemma_df_le(docs: Seq<DocView>, t: Seq<char>)
    ensures
        df_count(docs, t) <= docs.len(),
    decreases docs.len(),
{
    if docs.len() > 0 {
        lemma_df_le(docs.drop_last(), t);
    }
}

/// A term contained in some document has positive document frequency.
pub proof fn lemma_df_pos(docs: Seq<DocView>, t: Seq<char>, i: int)
    requires
        0 <= i < docs.len(),
        has_tok(docs[i].tokens, t),
    ensures
        df_count(docs, t) >= 1,
    decreases docs.len(),
{
    if i == docs.len() - 1 {
        assert(docs.last() == docs[i]);
    } else {
        assert(docs.drop_last()[i] == docs[i]);
        lemma_df_pos(docs.drop_last(), t, i);
    }
}

/// The degenerate-idf case is structurally impossible: every entry of
/// every vector of the index has a document frequency of at least one and
/// at most the corpus size, so `ln(n_docs / df)` is always well defined.
pub proof fn lemma_index_df_bounds(docs: Seq<DocView>)
    ensures
        forall|i: int, k: int|
            0 <= i < spec_index(docs).len() && 0 <= k < (
            #[trigger] spec_index(docs)[i]).entries.len() ==> {
                let e = #[trigger] spec_index(docs)[i].entries[k];
                1 <= e.df <= docs.len()
            },
{
    assert forall|i: int, k: int|
        0 <= i < spec_index(docs).len() && 0 <= k < (
    #[trigger] spec_index(docs)[i]).entries.len() implies {
        let e = #[trigger] spec_index(docs)[i].entries[k];
        1 <= e.df <= docs.len()
    } by {
        let d = docs[i];
        let terms = distinct_terms(d.tokens);
        assert(spec_index(docs)[i] == vector_for(docs, d));
        let e = spec_index(docs)[i].entries[k];
        assert(e == TermStatView {
            term: terms[k],
            count: count_in(d.tokens, terms[k]),
            df: df_count(docs, terms[k]),
        });
        lemma_distinct_sound(d.tokens);
        assert(has_tok(d.tokens, terms[k]));
        lemma_df_pos(docs, terms[k], i);
        lemma_df_le(docs, terms[k]);
    }
}

} // verus!
