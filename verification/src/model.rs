//! Admissibility of the sample set that a loss and its gradient are taken
//! over.

use vstd::prelude::*;
use crate::error::FitError;

verus! {

/// Two sample vectors of these lengths pair up index by index and hold at
/// least one sample.
pub open spec fn samples_admissible(x_len: nat, y_len: nat) -> bool {
    x_len == y_len && x_len >= 1
}

/// The number of samples that vectors of the two lengths hold, by which the
/// loss and each gradient entry are averaged. It is never zero; lengths
/// that differ, or an empty set, are refused with `InvalidInput`.
pub fn sample_count(x_len: usize, y_len: usize) -> (r: Result<usize, FitError>)
    ensures
        samples_admissible(x_len as nat, y_len as nat) ==> r == Ok::<usize, FitError>(x_len),
        !samples_admissible(x_len as nat, y_len as nat) ==> r == Err::<usize, FitError>(
            FitError::InvalidInput,
        ),
{
    if x_len == y_len && x_len >= 1 {
        Ok(x_len)
    } else {
        Err(FitError::InvalidInput)
    }
}

} // verus!
