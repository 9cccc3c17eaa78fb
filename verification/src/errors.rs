//! The fatal error conditions of the pipeline. Both abort the whole run:
//! an empty corpus reaching the index builder, and a citation-graph
//! resolution that exhausts its pass cap before reaching a fixpoint (the
//! payload carries the last record count seen).

use vstd::prelude::*;

verus! {

#[derive(Clone, Copy, PartialEq, Eq, Structural, Debug)]
pub enum CorpusError {
    EmptyCorpus,
    FixpointNonConvergence(usize),
}

impl CorpusError {
    /// A short description of the error for reporting.
    pub fn message(&self) -> (r: String)
        ensures
            match *self {
                CorpusError::EmptyCorpus => r@ == "no documents reached the index builder"@,
                CorpusError::FixpointNonConvergence(_) => r@
                    == "citation resolution exceeded its pass cap"@,
            },
    {
        match *self {
            CorpusError::EmptyCorpus => "no documents reached the index builder".to_owned(),
            CorpusError::FixpointNonConvergence(_) => "citation resolution exceeded its pass cap"
                .to_owned(),
        }
    }
}

} // verus!
