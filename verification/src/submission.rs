//! What comes back from submitting a transaction, and what the operation hands to its
//! caller for it.
//!
//! Submitting is the caller's part. A transaction is submitted once; what the liquidity
//! program or the network answers is the answer, and an error reaches the caller as it came.

use crate::composer::TransactionBundle;
use crate::instruction::instructions_view;
use crate::lifecycle::{execute, spec_execute, Phase, Rejection};
use vstd::prelude::*;

verus! {

/// The identifier of a submitted transaction.
#[derive(Clone, Copy, Debug, PartialEq, Eq)]
pub struct Signature {
    pub bytes: [u8; 64],
}

/// Why a submitted transaction did not take effect.
#[derive(Clone, Debug, PartialEq, Eq)]
pub enum SubmissionError {
    /// The liquidity program refused an instruction, and with it the transaction.
    Rejected(Rejection),
    /// The transaction did not reach the chain, or its fate is not known. The text is the
    /// submitter's.
    Undelivered(String),
}

/// What an operation returns for the outcome of its submission: `value` where the
/// transaction took effect, and the error unchanged where it did not.
pub open spec fn spec_conclude<T>(value: T, outcome: Result<Signature, SubmissionError>) -> Result<
    T,
    SubmissionError,
> {
    match outcome {
        Ok(_) => Ok(value),
        Err(error) => Err(error),
    }
}

/// Concludes an operation: hands `value` to the caller where the transaction took effect,
/// and the error of the submission, unchanged, where it did not.
pub fn conclude<T>(value: T, outcome: Result<Signature, SubmissionError>) -> (result: Result<
    T,
    SubmissionError,
>)
    ensures
        result == spec_conclude(value, outcome),
{
    match outcome {
        Ok(_) => Ok(value),
        Err(error) => Err(error),
    }
}

/// What a position is after a transaction was submitted against the model of its life.
pub open spec fn spec_submit_to_model(
    position: Option<Phase>,
    bundle: TransactionBundle,
) -> Result<Option<Phase>, SubmissionError> {
    match spec_execute(position, instructions_view(bundle.instructions@)) {
        Ok(after) => Ok(after),
        Err(rejection) => Err(SubmissionError::Rejected(rejection)),
    }
}

/// Submits a transaction against the model of a position's life: the position after it, or
/// the refusal as the submission's error.
pub fn submit_to_model(position: Option<Phase>, bundle: &TransactionBundle) -> (result: Result<
    Option<Phase>,
    SubmissionError,
>)
    ensures
        result == spec_submit_to_model(position, *bundle),
{
    match execute(position, &bundle.instructions) {
        Ok(after) => Ok(after),
        Err(rejection) => Err(SubmissionError::Rejected(rejection)),
    }
}

/// An error of the submission reaches the caller as it came: whatever the operation would
/// have returned on success, it returns the same error, and it returns an error only where
/// the submission gave one.
pub proof fn lemma_errors_propagate_unmodified<T>(
    value: T,
    outcome: Result<Signature, SubmissionError>,
)
    ensures
        outcome matches Err(error) ==> spec_conclude(value, outcome) == Err::<
            T,
            SubmissionError,
        >(error),
        spec_conclude(value, outcome) is Err <==> outcome is Err,
        spec_conclude(value, outcome) matches Ok(returned) ==> returned == value,
{
}

} // verus!
