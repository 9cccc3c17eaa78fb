//! A bibliographic-corpus cleaning library.
//!
//! The crate takes canonical records (doi, date, title, abstract, authors,
//! keywords, raw reference strings), normalizes their free text into token
//! documents, computes the exact integer statistics behind TF-IDF weights,
//! and resolves the citation graph to a fixpoint in which every surviving
//! reference points to an earlier-or-equal-dated record of the same table.

pub mod abstracts;
pub mod authors;
pub mod chars;
pub mod date;
pub mod dedup;
pub mod doi;
pub mod errors;
pub mod graph;
pub mod index;
pub mod keywords;
pub mod month;
pub mod pipeline;
pub mod record;
pub mod refs;
pub mod split;
pub mod stopwords;
pub mod text;
