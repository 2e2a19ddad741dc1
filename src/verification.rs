//! The verdict of a Groth16 pairing check, with rejection kept apart from a
//! key that does not fit the statement.

use vstd::prelude::*;

verus! {

/// Why the pairing check did not accept.
#[derive(Clone, Copy, Debug, PartialEq, Eq, Structural)]
pub enum CheckFailure {
    /// The key expects another number of public inputs.
    InvalidVerifyingKey,
    /// The pairing equation does not hold.
    InvalidProof,
}

/// A key that does not fit the statement: an error, not a rejection.
#[derive(Clone, Copy, Debug, PartialEq, Eq, Structural)]
pub enum VerifyError {
    InvalidVerifyingKey,
}

/// The verdict for the outcome of a pairing check: accepted, rejected as a
/// false or tampered proof, or an error for a key that does not fit.
pub fn verdict(outcome: Result<(), CheckFailure>) -> (r: Result<bool, VerifyError>)
    ensures
        outcome is Ok <==> r == Ok::<bool, VerifyError>(true),
        outcome == Err::<(), CheckFailure>(CheckFailure::InvalidProof) <==> r == Ok::<
            bool,
            VerifyError,
        >(false),
        outcome == Err::<(), CheckFailure>(CheckFailure::InvalidVerifyingKey) <==> r == Err::<
            bool,
            VerifyError,
        >(VerifyError::InvalidVerifyingKey),
{
    match outcome {
        Ok(()) => Ok(true),
        Err(CheckFailure::InvalidProof) => Ok(false),
        Err(CheckFailure::InvalidVerifyingKey) => Err(VerifyError::InvalidVerifyingKey),
    }
}

} // verus!
