//! What can go wrong when proving, and how the backend's reports are read.

use crate::backend::CircuitShape;
use ark_relations::r1cs::SynthesisError;
use vstd::prelude::*;

verus! {

/// Why no proof was produced.
#[derive(Clone, Copy, Debug, PartialEq, Eq, Structural)]
pub enum ProofError {
    /// The key was set up for a statement of another shape than the one
    /// being proved.
    ConfigurationMismatch,
    /// The witness does not give a satisfying assignment of the circuit.
    MalformedWitness,
    /// The backend failed for a reason of its own.
    BackendFailure,
}

/// The error that stands for a backend report.
///
/// A key that does not fit the statement is a mismatch. A missing
/// assignment, a division by zero while assigning, and an unsatisfiable
/// system are faults of the witness. Everything else is the backend's.
pub open spec fn error_class(e: SynthesisError) -> ProofError {
    match e {
        SynthesisError::MalformedVerifyingKey => ProofError::ConfigurationMismatch,
        SynthesisError::AssignmentMissing
        | SynthesisError::DivisionByZero
        | SynthesisError::Unsatisfiable => ProofError::MalformedWitness,
        SynthesisError::MissingCS
        | SynthesisError::PolynomialDegreeTooLarge
        | SynthesisError::UnexpectedIdentity
        | SynthesisError::UnconstrainedVariable => ProofError::BackendFailure,
    }
}

/// Whether a verification outcome accepts the proof: only `Ok(true)` does.
pub open spec fn accepts(outcome: Result<bool, SynthesisError>) -> bool {
    outcome == Ok::<bool, SynthesisError>(true)
}

/// Whether a witness whose shape was found as `found` may be proved under a
/// key of shape `expected`: yes if the shapes agree. Where they differ the
/// key belongs to another statement, and where no shape was found the
/// report says why.
pub open spec fn shape_check(
    expected: CircuitShape,
    found: Result<CircuitShape, SynthesisError>,
) -> Result<(), ProofError> {
    match found {
        Ok(shape) => if shape == expected {
            Ok(())
        } else {
            Err(ProofError::ConfigurationMismatch)
        },
        Err(e) => Err(error_class(e)),
    }
}

/// Reads a backend report as a [`ProofError`].
pub fn classify(e: SynthesisError) -> (class: ProofError)
    ensures
        class == error_class(e),
{
    match e {
        SynthesisError::MalformedVerifyingKey => ProofError::ConfigurationMismatch,
        SynthesisError::AssignmentMissing => ProofError::MalformedWitness,
        SynthesisError::DivisionByZero => ProofError::MalformedWitness,
        SynthesisError::Unsatisfiable => ProofError::MalformedWitness,
        SynthesisError::MissingCS => ProofError::BackendFailure,
        SynthesisError::PolynomialDegreeTooLarge => ProofError::BackendFailure,
        SynthesisError::UnexpectedIdentity => ProofError::BackendFailure,
        SynthesisError::UnconstrainedVariable => ProofError::BackendFailure,
    }
}

/// Decides whether a witness may be proved under a key, from the shape of
/// each.
pub fn check_shape(expected: CircuitShape, found: Result<CircuitShape, SynthesisError>) -> (checked:
    Result<(), ProofError>)
    ensures
        checked == shape_check(expected, found),
{
    match found {
        Ok(shape) => {
            if shape.public_variables == expected.public_variables && shape.private_variables
                == expected.private_variables {
                Ok(())
            } else {
                Err(ProofError::ConfigurationMismatch)
            }
        },
        Err(e) => Err(classify(e)),
    }
}

/// Reads a verification outcome as a verdict. A backend error rejects the
/// proof like any other failure, so the verdict is the only thing a caller
/// learns.
pub fn verdict(outcome: Result<bool, SynthesisError>) -> (accepted: bool)
    ensures
        accepted == accepts(outcome),
{
    match outcome {
        Ok(accepted) => accepted,
        Err(_) => false,
    }
}

} // verus!
