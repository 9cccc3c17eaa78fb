use corpus::text::{remove_non_words, remove_stop_words, text_clean, text_util};
use corpus::text::journal_util;

#[test]
fn text_util_drops_short_stop_and_repeated_initial_tokens() {
    // "to" is too short, "an" is a stopword, "aardvark" and "oops" start
    // with two equal characters; only "see" survives.
    let r = text_util(Some("To see an aardvark, oops!"));
    assert_eq!(r, Some("see".to_string()));
}

#[test]
fn text_util_keeps_order_and_joins_with_single_spaces() {
    let r = text_util(Some("Strategic   management of THE firm's resources"));
    assert_eq!(r, Some("strategic management firm resources".to_string()));
}

#[test]
fn text_util_none_is_none() {
    assert_eq!(text_util(None), None);
}

#[test]
fn text_util_empty_is_empty() {
    assert_eq!(text_util(Some("")), Some(String::new()));
}

#[test]
fn text_clean_drops_only_stopwords() {
    let r = text_clean(Some("The Journal of Strategic-Management"));
    assert_eq!(r, Some("journal strategic management".to_string()));
}

#[test]
fn text_clean_none_is_none() {
    assert_eq!(text_clean(None), None);
}

#[test]
fn remove_non_words_replaces_punctuation_with_spaces() {
    let r = remove_non_words("a-b c_d!".to_string());
    assert_eq!(r, "a b c_d ".to_string());
}

#[test]
fn remove_stop_words_drops_stopword_tokens() {
    let r = remove_stop_words("the cat and the hat".to_string());
    assert_eq!(r, "cat hat".to_string());
}

#[test]
fn journal_util_cleans_each_entry() {
    let col = vec![Some("The Academy of Management".to_string()), None];
    let r = journal_util(&col);
    assert_eq!(r.len(), 2);
    assert_eq!(r[0], Some("academy management".to_string()));
    assert_eq!(r[1], None);
}

#[test]
fn text_util_strips_non_ascii_to_spaces() {
    // Characters outside the word alphabet become spaces before
    // tokenization, so they never join a token.
    let r = text_util(Some("vis-\u{e0}-vis collaboration"));
    assert_eq!(r, Some("vis vis collaboration".to_string()));
}
