use vstd::prelude::*;

verus! {

/// Recoverable failures surfaced by the composition components.
#[derive(Clone, Copy, Debug, PartialEq, Eq, Structural)]
pub enum FstError {
    /// A matcher or an epsilon self-loop was requested under a match type
    /// that does not support epsilon-loop synthesis.
    UnsupportedMatchType,
    /// A topological order was requested for a graph that has a cycle.
    CyclicTopology,
    /// Two automata compared for observational equality disagree.
    FstMismatch,
}

} // verus!
