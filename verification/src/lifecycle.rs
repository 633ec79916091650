//! The three operations on backend material, shared by both proof families.

use crate::backend::{Backend, CircuitShape, Prover};
use crate::error::{
    accepts, check_shape, classify, error_class, shape_check, verdict, ProofError,
};
use ark_relations::r1cs::SynthesisError;
use vstd::prelude::*;

verus! {

/// `pvk` is what the backend returned when asked to prepare `pk`.
pub open spec fn prepared_from<E: Backend>(
    pk: E::ProvingKey,
    pvk: E::PreparedVerifyingKey,
) -> bool {
    call_ensures(E::prepare, (&pk,), pvk)
}

/// `accepted` is the verdict on an outcome that the backend returned when
/// asked to verify `proof` against `pvk` and `input`.
pub open spec fn verified_as<E: Backend>(
    pvk: E::PreparedVerifyingKey,
    input: E::PublicInput,
    proof: E::Proof,
    accepted: bool,
) -> bool {
    exists|outcome: Result<bool, SynthesisError>|
        #[trigger] call_ensures(E::verify, (&pvk, &input, &proof), outcome) && accepted
            == accepts(outcome)
}

/// How the result of proving reads a backend outcome: a proof and its input
/// are passed on as they are, and a report becomes its class.
pub open spec fn proved_as<E: Backend>(
    outcome: Result<(E::Proof, E::PublicInput), SynthesisError>,
) -> Result<(E::Proof, E::PublicInput), ProofError> {
    match outcome {
        Ok(pair) => Ok(pair),
        Err(e) => Err(error_class(e)),
    }
}

/// `checked` is the shape check on what the backend returned when asked for
/// the shape of `pk` and for the shape of `witness`.
pub open spec fn shapes_checked<W, E: Prover<W>>(
    pk: E::ProvingKey,
    witness: W,
    checked: Result<(), ProofError>,
) -> bool {
    exists|expected: CircuitShape, found: Result<CircuitShape, SynthesisError>|
        #![trigger call_ensures(E::key_shape, (&pk,), expected), call_ensures(E::witness_shape, (&witness,), found)]
        call_ensures(E::key_shape, (&pk,), expected) && call_ensures(
            E::witness_shape,
            (&witness,),
            found,
        ) && checked == shape_check(expected, found)
}

/// `result` reads an outcome that the backend returned when asked to prove
/// from `pk` and `witness`.
pub open spec fn backend_proved<W, E: Prover<W>>(
    pk: E::ProvingKey,
    witness: W,
    result: Result<(E::Proof, E::PublicInput), ProofError>,
) -> bool {
    exists|outcome: Result<(E::Proof, E::PublicInput), SynthesisError>|
        #[trigger] call_ensures(E::prove, (&pk, witness), outcome) && result == proved_as::<E>(
            outcome,
        )
}

/// `result` is what proving from `pk` and `witness` gives: the error of the
/// shape check where that fails, and else what the backend's outcome reads
/// as.
pub open spec fn proved_from<W, E: Prover<W>>(
    pk: E::ProvingKey,
    witness: W,
    result: Result<(E::Proof, E::PublicInput), ProofError>,
) -> bool {
    ||| exists|e: ProofError|
        #![trigger shapes_checked::<W, E>(pk, witness, Err(e))]
        shapes_checked::<W, E>(pk, witness, Err(e)) && result == Err::<
            (E::Proof, E::PublicInput),
            ProofError,
        >(e)
    ||| shapes_checked::<W, E>(pk, witness, Ok(())) && backend_proved::<W, E>(pk, witness, result)
}

/// Prepares the verifying key that `pk` carries.
pub fn prepare<E: Backend>(pk: &E::ProvingKey) -> (pvk: E::PreparedVerifyingKey)
    ensures
        prepared_from::<E>(*pk, pvk),
{
    E::prepare(pk)
}

/// Reads the outcome of proving.
pub fn read_proved<E: Backend>(
    outcome: Result<(E::Proof, E::PublicInput), SynthesisError>,
) -> (result: Result<(E::Proof, E::PublicInput), ProofError>)
    ensures
        result == proved_as::<E>(outcome),
{
    match outcome {
        Ok(pair) => Ok(pair),
        Err(e) => Err(classify(e)),
    }
}

/// Proves the statement that `witness` instantiates. The backend is asked
/// for a proof only if `pk` was set up for a circuit of the witness's shape.
pub fn prove<W, E: Prover<W>>(pk: &E::ProvingKey, witness: W) -> (result: Result<
    (E::Proof, E::PublicInput),
    ProofError,
>)
    ensures
        proved_from::<W, E>(*pk, witness, result),
{
    let expected = E::key_shape(pk);
    let found = E::witness_shape(&witness);
    let checked = check_shape(expected, found);
    assert(shapes_checked::<W, E>(*pk, witness, checked)) by {
        assert(call_ensures(E::key_shape, (pk,), expected));
        assert(call_ensures(E::witness_shape, (&witness,), found));
    }
    match checked {
        Err(e) => Err(e),
        Ok(()) => {
            let outcome = E::prove(pk, witness);
            assert(call_ensures(E::prove, (pk, witness), outcome));
            read_proved::<E>(outcome)
        },
    }
}

/// Verifies `proof` against `pvk` and `input`.
pub fn verify<E: Backend>(
    pvk: &E::PreparedVerifyingKey,
    input: &E::PublicInput,
    proof: &E::Proof,
) -> (accepted: bool)
    ensures
        verified_as::<E>(*pvk, *input, *proof, accepted),
{
    let outcome = E::verify(pvk, input, proof);
    assert(call_ensures(E::verify, (pvk, input, proof), outcome));
    verdict(outcome)
}

} // verus!
