//! The ways in which a call can be refused.

use vstd::prelude::*;

verus! {

/// Why a call was refused. Each variant is a violated precondition of the
/// call that returns it; none is transient.
#[derive(Clone, Copy, Debug, PartialEq, Eq, Structural)]
pub enum FitError {
    /// The sample vectors differ in length, or are empty.
    InvalidInput,
    /// A hyperparameter lies outside its admissible range.
    InvalidConfig,
    /// A vector's length differs from the shape the optimizer is bound to.
    ShapeMismatch,
}

} // verus!
