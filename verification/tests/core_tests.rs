use corpus::abstracts::{abstract_for, abstract_lf};
use corpus::date::Date;
use corpus::dedup::dedup_records;
use corpus::errors::CorpusError;
use corpus::graph::{prune_references, resolve_citations};
use corpus::index::{corpus_unique_terms, tfidf_util, Document};
use corpus::pipeline::{fill_records, merge_batches, process_records};
use corpus::record::{drop_nulls, Record};

fn rec(doi: &str, year: i64, month: u32, refs: Option<Vec<&str>>) -> Record {
    Record {
        doi: doi.to_string(),
        date: Some(Date { year, month }),
        title: Some(format!("title of {}", doi)),
        abstract_text: Some("An abstract with several meaningful tokens inside".to_string()),
        authors: Some(vec!["smith".to_string()]),
        author_keywords: Some(vec!["strategy".to_string(), "networks".to_string()]),
        wos_keywords: None,
        category: None,
        areas: None,
        journal: Some("journal".to_string()),
        text: Some("placeholder tokens".to_string()),
        references: refs.map(|v| v.into_iter().map(|s| s.to_string()).collect()),
    }
}

fn dois(t: &[Record]) -> Vec<String> {
    t.iter().map(|r| r.doi.clone()).collect()
}

#[test]
fn dedup_keeps_first_per_doi() {
    let a1 = rec("10.1/a", 2020, 1, None);
    let mut a2 = rec("10.1/a", 2021, 5, None);
    a2.title = Some("a different duplicate".to_string());
    let b = rec("10.1/b", 2019, 2, None);
    let out = dedup_records(vec![a1, a2, b]);
    assert_eq!(dois(&out), vec!["10.1/a".to_string(), "10.1/b".to_string()]);
    assert_eq!(out[0].date, Some(Date { year: 2020, month: 1 }));
}

#[test]
fn dedup_is_idempotent_on_deduplicated_input() {
    let out = dedup_records(vec![
        rec("10.1/a", 2020, 1, None),
        rec("10.1/a", 2021, 1, None),
        rec("10.1/b", 2019, 2, None),
    ]);
    let first = dois(&out);
    let again = dedup_records(out);
    assert_eq!(dois(&again), first);
}

#[test]
fn drop_nulls_removes_incomplete_records() {
    let good = rec("10.1/a", 2020, 1, Some(vec![]));
    let mut no_title = rec("10.1/b", 2020, 1, Some(vec![]));
    no_title.title = None;
    let no_refs = rec("10.1/c", 2020, 1, None);
    let out = drop_nulls(vec![good, no_title, no_refs]);
    assert_eq!(dois(&out), vec!["10.1/a".to_string()]);
}

#[test]
fn prune_keeps_equal_date_and_drops_later_date() {
    // Temporal boundary: citing an equal-dated record is kept, citing a
    // strictly later-dated record is dropped.
    let a = rec("10.1/a", 2020, 1, Some(vec!["10.1/b", "10.1/c"]));
    let b = rec("10.1/b", 2020, 1, Some(vec![]));
    let c = rec("10.1/c", 2020, 2, Some(vec![]));
    let out = prune_references(vec![a, b, c]);
    assert_eq!(out[0].references, Some(vec!["10.1/b".to_string()]));
}

#[test]
fn prune_drops_dangling_references() {
    let a = rec("10.1/a", 2020, 1, Some(vec!["10.1/missing", "10.1/b"]));
    let b = rec("10.1/b", 2019, 1, Some(vec![]));
    let out = prune_references(vec![a, b]);
    assert_eq!(out[0].references, Some(vec!["10.1/b".to_string()]));
}

#[test]
fn prune_aggregates_references_as_a_set() {
    // A repeated target is folded onto its first occurrence: the
    // aggregated references are a set of dois.
    let a = rec("10.1/a", 2020, 1, Some(vec!["10.1/b", "10.1/c", "10.1/b"]));
    let b = rec("10.1/b", 2019, 1, Some(vec![]));
    let c = rec("10.1/c", 2019, 2, Some(vec![]));
    let out = prune_references(vec![a, b, c]);
    assert_eq!(out[0].references, Some(vec!["10.1/b".to_string(), "10.1/c".to_string()]));
}

#[test]
fn resolver_prunes_adversarial_chain_to_empty_sets() {
    // Each record cites a later-dated one: every edge fails causality in
    // the first pass, the records survive with empty reference sets, and
    // a cap of n passes is enough.
    let n = 4i64;
    let mut recs = Vec::new();
    for i in 0..n {
        let target = format!("10.1/r{}", i + 1);
        recs.push(rec(
            &format!("10.1/r{}", i),
            2000 + i,
            1,
            if i < n - 1 { Some(vec![target.as_str()]) } else { Some(vec![]) },
        ));
    }
    let out = resolve_citations(recs, n as usize).unwrap();
    assert_eq!(out.len(), n as usize);
    for r in &out {
        assert_eq!(r.references, Some(vec![]));
    }
}

#[test]
fn resolver_cascades_removals_across_passes() {
    // B is dropped for a missing reference list; A's edge to B then
    // dangles and is pruned in the next pass.
    let a = rec("10.1/a", 2020, 1, Some(vec!["10.1/b"]));
    let b = rec("10.1/b", 2019, 1, None);
    let out = resolve_citations(vec![a, b], 2).unwrap();
    assert_eq!(dois(&out), vec!["10.1/a".to_string()]);
    assert_eq!(out[0].references, Some(vec![]));
}

#[test]
fn resolver_result_has_no_dangling_edges() {
    let a = rec("10.1/a", 2021, 1, Some(vec!["10.1/b", "10.1/ghost"]));
    let b = rec("10.1/b", 2020, 1, Some(vec![]));
    let out = resolve_citations(vec![a, b], 2).unwrap();
    let table: Vec<String> = dois(&out);
    for r in &out {
        for d in r.references.as_ref().unwrap() {
            assert!(table.contains(d));
        }
    }
    assert_eq!(out[0].references, Some(vec!["10.1/b".to_string()]));
}

#[test]
fn resolver_reports_nonconvergence_only_under_tight_caps() {
    // With a cap of zero passes a table that still needs pruning fails
    // loudly instead of being truncated silently.
    let a = rec("10.1/a", 2020, 1, Some(vec!["10.1/b"]));
    let b = rec("10.1/b", 2019, 1, None);
    match resolve_citations(vec![a, b], 0) {
        Err(CorpusError::FixpointNonConvergence(_)) => {},
        _ => panic!("expected a non-convergence report"),
    }
}

#[test]
fn index_matches_hand_computed_statistics() {
    // Doc A = "alpha beta beta", doc B = "beta gamma gamma":
    // idf(beta) = ln(2/2) = 0, so beta weighs 0 in both documents;
    // idf(alpha) = ln 2, nonzero only in A.
    let docs = vec![
        Document {
            doi: "10.1/a".to_string(),
            tokens: vec!["alpha".to_string(), "beta".to_string(), "beta".to_string()],
        },
        Document {
            doi: "10.1/b".to_string(),
            tokens: vec!["beta".to_string(), "gamma".to_string(), "gamma".to_string()],
        },
    ];
    let index = tfidf_util(&docs).unwrap();
    assert_eq!(index.len(), 2);
    let a = &index[0];
    assert_eq!(a.doi, "10.1/a");
    assert_eq!(a.doc_len, 3);
    assert_eq!(a.n_docs, 2);
    assert_eq!(a.entries.len(), 2);
    assert_eq!(a.entries[0].term, "alpha");
    assert_eq!(a.entries[0].count, 1);
    assert_eq!(a.entries[0].df, 1);
    assert_eq!(a.entries[1].term, "beta");
    assert_eq!(a.entries[1].count, 2);
    assert_eq!(a.entries[1].df, 2);
    let weight = |count: usize, doc_len: usize, n_docs: usize, df: usize| -> f64 {
        (count as f64 / doc_len as f64) * ((n_docs as f64 / df as f64).ln())
    };
    let beta_in_a = weight(2, 3, 2, 2);
    let beta_in_b = weight(1, 3, 2, 2);
    let alpha_in_a = weight(1, 3, 2, 1);
    assert_eq!(beta_in_a, 0.0);
    assert_eq!(beta_in_b, 0.0);
    assert!((alpha_in_a - (1.0 / 3.0) * 2.0f64.ln()).abs() < 1e-12);
    assert!(alpha_in_a > 0.0);
}

#[test]
fn index_rejects_an_empty_corpus() {
    match tfidf_util(&Vec::new()) {
        Err(CorpusError::EmptyCorpus) => {},
        _ => panic!("expected the empty-corpus report"),
    }
}

#[test]
fn vocabulary_is_distinct_in_first_occurrence_order() {
    let docs = vec![
        Document {
            doi: "10.1/a".to_string(),
            tokens: vec!["alpha".to_string(), "beta".to_string()],
        },
        Document {
            doi: "10.1/b".to_string(),
            tokens: vec!["beta".to_string(), "gamma".to_string()],
        },
    ];
    let vocab = corpus_unique_terms(&docs);
    assert_eq!(vocab, vec!["alpha".to_string(), "beta".to_string(), "gamma".to_string()]);
}

#[test]
fn abstract_table_has_all_entries() {
    let table = abstract_lf();
    assert_eq!(table.len(), 25);
    assert_eq!(table[0].0, "10.1177/014920639101700108");
    assert!(table[0].1.starts_with("Understanding sources"));
}

#[test]
fn abstract_lookup_hits_and_misses() {
    let hit = abstract_for(&"10.2307/2393553".to_string());
    assert!(hit.is_some());
    assert!(hit.unwrap().contains("absorptive capacity"));
    assert_eq!(abstract_for(&"10.9999/unknown".to_string()), None);
}

#[test]
fn fill_builds_text_from_title_abstract_and_keywords() {
    let mut r = rec("10.1/a", 2020, 1, Some(vec![]));
    r.text = None;
    let out = fill_records(vec![r]);
    let text = out[0].text.clone().unwrap();
    assert!(text.contains("title"));
    assert!(text.contains("meaningful"));
    assert!(text.contains("strategy"));
    assert!(text.contains("networks"));
}

#[test]
fn fill_takes_missing_abstract_from_the_fallback_table() {
    let mut r = rec("10.1177/014920639101700108", 2020, 1, Some(vec![]));
    r.abstract_text = None;
    r.text = None;
    let out = fill_records(vec![r]);
    assert!(out[0].abstract_text.clone().unwrap().starts_with("understanding sources"));
    assert!(out[0].text.clone().unwrap().contains("competitive"));
}

#[test]
fn merge_concatenates_batches_in_order() {
    let b1 = vec![rec("10.1/a", 2020, 1, None)];
    let b2 = vec![rec("10.1/b", 2020, 1, None), rec("10.1/a", 2021, 1, None)];
    let merged = merge_batches(vec![b1, b2]);
    assert_eq!(
        dois(&merged),
        vec!["10.1/a".to_string(), "10.1/b".to_string(), "10.1/a".to_string()]
    );
}

#[test]
fn pipeline_end_to_end_keeps_valid_citations() {
    let mut a = rec("10.1/a", 2020, 2, Some(vec!["10.1/b", "10.1/nowhere"]));
    a.text = None;
    let mut b = rec("10.1/b", 2020, 2, Some(vec![]));
    b.text = None;
    let (table, index) = process_records(vec![a, b], 2).unwrap();
    assert_eq!(dois(&table), vec!["10.1/a".to_string(), "10.1/b".to_string()]);
    assert_eq!(table[0].references, Some(vec!["10.1/b".to_string()]));
    assert_eq!(index.len(), 2);
    assert_eq!(index[0].n_docs, 2);
}

#[test]
fn pipeline_is_deterministic_across_runs() {
    let build = || {
        vec![
            rec("10.1/a", 2020, 2, Some(vec!["10.1/b"])),
            rec("10.1/b", 2020, 1, Some(vec![])),
            rec("10.1/a", 2021, 1, Some(vec![])),
        ]
    };
    let (t1, i1) = process_records(build(), 3).unwrap();
    let (t2, i2) = process_records(build(), 3).unwrap();
    assert_eq!(dois(&t1), dois(&t2));
    for (r1, r2) in t1.iter().zip(t2.iter()) {
        assert_eq!(r1.references, r2.references);
        assert_eq!(r1.text, r2.text);
        assert_eq!(r1.date, r2.date);
    }
    assert_eq!(i1.len(), i2.len());
    for (v1, v2) in i1.iter().zip(i2.iter()) {
        assert_eq!(v1.doi, v2.doi);
        assert_eq!(v1.doc_len, v2.doc_len);
        assert_eq!(v1.n_docs, v2.n_docs);
        assert_eq!(v1.entries.len(), v2.entries.len());
        for (e1, e2) in v1.entries.iter().zip(v2.entries.iter()) {
            assert_eq!(e1.term, e2.term);
            assert_eq!(e1.count, e2.count);
            assert_eq!(e1.df, e2.df);
        }
    }
}

#[test]
fn pipeline_reports_an_empty_corpus() {
    let mut r = rec("10.1/a", 2020, 1, Some(vec![]));
    r.title = None;
    r.text = None;
    match process_records(vec![r], 1) {
        Err(CorpusError::EmptyCorpus) => {},
        _ => panic!("expected the empty-corpus report"),
    }
}

#[test]
fn error_messages_describe_the_condition() {
    assert_eq!(
        CorpusError::EmptyCorpus.message(),
        "no documents reached the index builder".to_string()
    );
    assert_eq!(
        CorpusError::FixpointNonConvergence(7).message(),
        "citation resolution exceeded its pass cap".to_string()
    );
}
