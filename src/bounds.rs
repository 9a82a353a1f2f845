//! Validation of a requested change magnitude.
use vstd::prelude::*;

use crate::types::Error;

verus! {

/// The outcome of validating magnitude `m` against the maximum `max`:
/// accepted exactly when `1 <= m <= max`.
pub open spec fn change_bounds(m: u32, max: u32) -> Result<(), Error> {
    if m == 0 {
        Err(Error::ReputationTooLow)
    } else if m > max {
        Err(Error::ReputationTooHigh)
    } else {
        Ok(())
    }
}

/// Checks that a requested change lies within `1..=max_change`.
pub fn validate_reputation_change(reputation: u32, max_change: u32) -> (r: Result<(), Error>)
    ensures
        r == change_bounds(reputation, max_change),
        r is Ok <==> 1 <= reputation <= max_change,
{
    if reputation > max_change {
        return Err(Error::ReputationTooHigh);
    }
    if reputation == 0 {
        return Err(Error::ReputationTooLow);
    }
    Ok(())
}

} // verus!
