//! The proof scheme underneath the proof objects.

use ark_relations::r1cs::SynthesisError;
use vstd::prelude::*;

verus! {

/// `ark_relations::r1cs::SynthesisError`, the error type of the arkworks proof
/// systems. It is a plain enum of eight unit variants, and is used here with
/// exactly those variants.
#[verifier::external_type_specification]
pub struct ExSynthesisError(SynthesisError);

/// The shape of a circuit, as far as a key depends on it: how many public
/// and how many private variables it has.
#[derive(Clone, Copy, Debug, PartialEq, Eq, Structural)]
pub struct CircuitShape {
    /// The number of public variables.
    pub public_variables: usize,
    /// The number of private variables.
    pub private_variables: usize,
}

/// A pairing-based proof scheme: its key, input and proof types, and what
/// key preparation and verification need of it.
///
/// Nothing is promised of what an implementation returns. The functions that
/// call it say which call they made and how they read its outcome.
pub trait Backend {
    /// The field in which statements are encoded.
    type ScalarField;

    /// Key material for proving. It carries the verifying key it was set up
    /// with.
    type ProvingKey;

    /// A verifying key in the form that verification consumes.
    type PreparedVerifyingKey;

    /// The public values of a statement, folded into one group element.
    type PublicInput;

    /// A proof.
    type Proof;

    /// The shape of the circuit that `pk` was set up for.
    fn key_shape(pk: &Self::ProvingKey) -> CircuitShape;

    /// Derives the prepared verifying key of `pk`.
    fn prepare(pk: &Self::ProvingKey) -> Self::PreparedVerifyingKey;

    /// Checks `proof` against `pvk` and `input`. `Ok(true)` means the proof
    /// was accepted.
    fn verify(
        pvk: &Self::PreparedVerifyingKey,
        input: &Self::PublicInput,
        proof: &Self::Proof,
    ) -> Result<bool, SynthesisError>;
}

/// A backend that can prove statements whose witness has type `W`.
pub trait Prover<W>: Backend {
    /// The shape of the circuit that `witness` instantiates.
    fn witness_shape(witness: &W) -> Result<CircuitShape, SynthesisError>;

    /// Proves the statement that `witness` instantiates, and encodes its
    /// public values. Called only with a key of the witness's shape.
    fn prove(pk: &Self::ProvingKey, witness: W) -> Result<
        (Self::Proof, Self::PublicInput),
        SynthesisError,
    >;
}

} // verus!
