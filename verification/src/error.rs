use vstd::prelude::*;

verus! {

/// The failure conditions this library reports.
#[derive(Clone, Copy, Debug, PartialEq, Eq, Structural)]
pub enum LogicError {
    /// A literal was requested for the id zero, which carries no polarity.
    InvalidLiteral,
    /// CNF flattening met a tree shape that the distribution step
    /// should have eliminated; the input was not reducible to a
    /// conjunction of disjunctions of literals by the rules used here.
    InternalInvariantViolation,
}

} // verus!
