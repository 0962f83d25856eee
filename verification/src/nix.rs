//! What the evaluator hands back: the jobs that an evaluation found.

use vstd::prelude::*;

verus! {

/// A buildable recipe: its path and its outputs, each a name and a path.
#[derive(Debug, PartialEq, Eq)]
pub struct Derivation {
    pub path: String,
    pub outputs: Vec<(String, String)>,
}

/// One job found by an evaluation.
#[derive(Debug, PartialEq, Eq)]
pub struct NewJob {
    pub system: String,
    pub name: String,
    pub drv: Derivation,
    pub dist: bool,
}

/// The jobs found by one evaluation.
pub type NewJobs = Vec<NewJob>;

/// A failure of the evaluator or of the builder, with what it printed.
#[derive(Debug, PartialEq, Eq)]
pub struct Error {
    pub message: String,
}

} // verus!
