use corpus::authors::{authors_split, authors_util};
use corpus::date::{date_util, Date};
use corpus::doi::{extract_dois, is_valid_doi, parse_doi};
use corpus::keywords::{keywords_split, keywords_util};
use corpus::month::{month_number, month_str_to_i64, month_util};
use corpus::refs::{refs_split, refs_util};

#[test]
fn authors_split_takes_lowercased_heads() {
    let r = authors_split(Some("Smith, John; Doe J.")).unwrap();
    assert_eq!(r, vec!["smith".to_string(), "doe".to_string()]);
}

#[test]
fn authors_split_keeps_empty_entries() {
    let r = authors_split(Some("Smith;; ,Lee")).unwrap();
    assert_eq!(r, vec!["smith".to_string(), String::new(), String::new()]);
}

#[test]
fn authors_split_none_is_none() {
    assert_eq!(authors_split(None), None);
}

#[test]
fn authors_util_maps_a_column() {
    let col = vec![Some("A B; C D".to_string()), None];
    let r = authors_util(&col);
    assert_eq!(r, vec![Some(vec!["a".to_string(), "c".to_string()]), None]);
}

#[test]
fn keywords_split_collapses_separator_runs() {
    let r = keywords_split(Some("Alpha, beta; gamma & delta")).unwrap();
    assert_eq!(
        r,
        vec!["alpha".to_string(), "beta".to_string(), "gamma".to_string(), "delta".to_string()]
    );
}

#[test]
fn keywords_split_keeps_boundary_empties() {
    let r = keywords_split(Some(",lead,")).unwrap();
    assert_eq!(r, vec![String::new(), "lead".to_string(), String::new()]);
}

#[test]
fn keywords_util_maps_a_column() {
    let col = vec![None, Some("x;y".to_string())];
    let r = keywords_util(&col);
    assert_eq!(r, vec![None, Some(vec!["x".to_string(), "y".to_string()])]);
}

#[test]
fn month_quarters() {
    assert_eq!(month_str_to_i64(Some(" JAN ")), Some(1));
    assert_eq!(month_str_to_i64(Some("FALL 2020")), Some(1));
    assert_eq!(month_str_to_i64(Some("APR")), Some(4));
    assert_eq!(month_str_to_i64(Some("SEP")), Some(8));
    assert_eq!(month_str_to_i64(Some("WINTER")), Some(12));
    assert_eq!(month_str_to_i64(Some("??")), None);
    assert_eq!(month_str_to_i64(Some("J")), None);
    assert_eq!(month_str_to_i64(None), None);
}

#[test]
fn month_numbers_default_to_january() {
    assert_eq!(month_number(Some("OCT")), 10);
    assert_eq!(month_number(Some("SPR")), 4);
    assert_eq!(month_number(Some("SEP-OCT")), 9);
    assert_eq!(month_number(Some("")), 1);
    assert_eq!(month_number(None), 1);
}

#[test]
fn month_util_maps_a_column() {
    let col = vec![Some("JUL".to_string()), Some("zz".to_string()), None];
    let r = month_util(&col);
    assert_eq!(r, vec![Some(8), None, None]);
}

#[test]
fn date_util_builds_and_rejects() {
    assert_eq!(date_util((Some(2020), Some(3))), Some(Date { year: 2020, month: 3 }));
    assert_eq!(date_util((Some(2020), None)), Some(Date { year: 2020, month: 1 }));
    assert_eq!(date_util((Some(2020), Some(13))), None);
    assert_eq!(date_util((None, Some(5))), None);
    assert_eq!(date_util((None, None)), None);
}

#[test]
fn parse_doi_finds_first_doi_shape() {
    let r = parse_doi("Smith J, 2001, ORG SCI, DOI 10.1234/abc-def more");
    assert_eq!(r, Some("10.1234/abc-def".to_string()));
}

#[test]
fn parse_doi_needs_four_to_nine_digits() {
    assert_eq!(parse_doi("10.123/x"), None);
    assert_eq!(parse_doi("10.123456789/x"), Some("10.123456789/x".to_string()));
    assert_eq!(parse_doi("10.1234567890/x"), None);
    assert_eq!(parse_doi("10.1234/"), None);
}

#[test]
fn extract_dois_finds_all_matches_in_order() {
    let r = extract_dois("a 10.1111/aa; b 10.2222/bb(c)");
    assert_eq!(r, vec!["10.1111/aa".to_string(), "10.2222/bb(c)".to_string()]);
}

#[test]
fn is_valid_doi_matches_anywhere() {
    assert!(is_valid_doi("prefix 10.5555/x.y:z suffix"));
    assert!(!is_valid_doi("no identifier here"));
}

#[test]
fn refs_split_takes_first_doi_per_entry() {
    let r = refs_split(Some("Smith J, 2001, DOI 10.1234/ABC; no entry; 10.9999/zz")).unwrap();
    assert_eq!(r, vec!["10.1234/abc".to_string(), "10.9999/zz".to_string()]);
}

#[test]
fn refs_util_maps_a_column() {
    let col = vec![Some("x 10.1234/a; none".to_string()), None];
    let r = refs_util(&col);
    assert_eq!(r, vec![Some(vec!["10.1234/a".to_string()]), None]);
}
