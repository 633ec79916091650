//! The proof objects of the predicate statement: committed attributes satisfy
//! a predicate.

use crate::backend::{Backend, Prover};
use crate::error::ProofError;
use crate::lifecycle::{prepare, prepared_from, prove, proved_from, verified_as, verify};
use ark_crypto_primitives::commitment::{constraints::CommitmentGadget, CommitmentScheme};
use ark_crypto_primitives::crh::{TwoToOneCRH, TwoToOneCRHGadget};
use ark_ff::{PrimeField, ToConstraintField};
use core::marker::PhantomData;
use vstd::prelude::*;

verus! {

/// The proving key for predicate proofs.
pub struct PredProvingKey<E: Backend, A, AV, AC, ACG, H, HG> {
    pub(crate) pk: E::ProvingKey,
    pub(crate) _marker: PhantomData<(A, AV, AC, ACG, H, HG)>,
}

/// The verifying key for predicate proofs, prepared for repeated use.
pub struct PredVerifyingKey<E: Backend, A, AV, AC, ACG, H, HG> {
    pub(crate) pvk: E::PreparedVerifyingKey,
    pub(crate) _marker: PhantomData<(A, AV, AC, ACG, H, HG)>,
}

/// The prepared public input of a predicate proof.
pub struct PredPublicInput<E: Backend, A, AV, AC, ACG, H, HG> {
    pub(crate) pinput: E::PublicInput,
    pub(crate) _marker: PhantomData<(A, AV, AC, ACG, H, HG)>,
}

/// A predicate proof.
pub struct PredProof<E: Backend, A, AV, AC, ACG, H, HG> {
    pub(crate) proof: E::Proof,
    pub(crate) _marker: PhantomData<(A, AV, AC, ACG, H, HG)>,
}

impl<E: Backend, A, AV, AC, ACG, H, HG> View for PredProvingKey<E, A, AV, AC, ACG, H, HG> {
    type V = E::ProvingKey;

    /// The backend's key material.
    closed spec fn view(&self) -> E::ProvingKey {
        self.pk
    }
}

impl<E: Backend, A, AV, AC, ACG, H, HG> View for PredVerifyingKey<E, A, AV, AC, ACG, H, HG> {
    type V = E::PreparedVerifyingKey;

    /// The backend's prepared key.
    closed spec fn view(&self) -> E::PreparedVerifyingKey {
        self.pvk
    }
}

impl<E: Backend, A, AV, AC, ACG, H, HG> View for PredPublicInput<E, A, AV, AC, ACG, H, HG> {
    type V = E::PublicInput;

    /// The backend's encoding of the public values.
    closed spec fn view(&self) -> E::PublicInput {
        self.pinput
    }
}

impl<E: Backend, A, AV, AC, ACG, H, HG> View for PredProof<E, A, AV, AC, ACG, H, HG> {
    type V = E::Proof;

    /// The backend's proof.
    closed spec fn view(&self) -> E::Proof {
        self.proof
    }
}

/// The backend material inside the result of proving.
pub open spec fn pred_material<E: Backend, A, AV, AC, ACG, H, HG>(
    result: Result<
        (PredProof<E, A, AV, AC, ACG, H, HG>, PredPublicInput<E, A, AV, AC, ACG, H, HG>),
        ProofError,
    >,
) -> Result<(E::Proof, E::PublicInput), ProofError> {
    match result {
        Ok((proof, input)) => Ok((proof@, input@)),
        Err(e) => Err(e),
    }
}

impl<E, A, AV, AC, ACG, H, HG> PredProvingKey<E, A, AV, AC, ACG, H, HG> where
    E: Backend,
    E::ScalarField: PrimeField,
    AC: CommitmentScheme,
    AC::Output: ToConstraintField<E::ScalarField>,
    ACG: CommitmentGadget<AC, E::ScalarField>,
    H: TwoToOneCRH,
    H::Output: ToConstraintField<E::ScalarField>,
    HG: TwoToOneCRHGadget<H, E::ScalarField>,
 {
    /// Brands a proving key that was set up for the predicate statement
    /// under this configuration.
    pub fn new(pk: E::ProvingKey) -> (key: Self)
        ensures
            key@ == pk,
    {
        PredProvingKey { pk, _marker: PhantomData }
    }

    /// The backend's key material.
    pub fn material(&self) -> (pk: &E::ProvingKey)
        ensures
            *pk == self@,
    {
        &self.pk
    }

    /// Prepares the verifying key that this proving key carries. The result
    /// has this key's configuration.
    pub fn prepare_verifying_key(&self) -> (vk: PredVerifyingKey<E, A, AV, AC, ACG, H, HG>)
        ensures
            prepared_from::<E>(self@, vk@),
    {
        let pvk = prepare::<E>(&self.pk);
        PredVerifyingKey { pvk, _marker: self._marker }
    }

    /// Proves that the attributes in `witness` satisfy the predicate. The
    /// proof and its public input have this key's configuration.
    pub fn prove<W>(&self, witness: W) -> (result: Result<
        (PredProof<E, A, AV, AC, ACG, H, HG>, PredPublicInput<E, A, AV, AC, ACG, H, HG>),
        ProofError,
    >) where E: Prover<W>
        ensures
            proved_from::<W, E>(self@, witness, pred_material(result)),
    {
        match prove::<W, E>(&self.pk, witness) {
            Ok((proof, pinput)) => Ok(
                (
                    PredProof { proof, _marker: self._marker },
                    PredPublicInput { pinput, _marker: self._marker },
                ),
            ),
            Err(e) => Err(e),
        }
    }
}

impl<E, A, AV, AC, ACG, H, HG> PredVerifyingKey<E, A, AV, AC, ACG, H, HG> where
    E: Backend,
    E::ScalarField: PrimeField,
    AC: CommitmentScheme,
    AC::Output: ToConstraintField<E::ScalarField>,
    ACG: CommitmentGadget<AC, E::ScalarField>,
    H: TwoToOneCRH,
    H::Output: ToConstraintField<E::ScalarField>,
    HG: TwoToOneCRHGadget<H, E::ScalarField>,
 {
    /// Brands a prepared verifying key of the predicate statement under this
    /// configuration.
    pub fn new(pvk: E::PreparedVerifyingKey) -> (key: Self)
        ensures
            key@ == pvk,
    {
        PredVerifyingKey { pvk, _marker: PhantomData }
    }

    /// The backend's prepared key.
    pub fn material(&self) -> (pvk: &E::PreparedVerifyingKey)
        ensures
            *pvk == self@,
    {
        &self.pvk
    }

    /// Verifies a predicate proof against this key and `input`. Anything but
    /// an accepted proof gives `false`.
    pub fn verify(
        &self,
        input: &PredPublicInput<E, A, AV, AC, ACG, H, HG>,
        proof: &PredProof<E, A, AV, AC, ACG, H, HG>,
    ) -> (accepted: bool)
        ensures
            verified_as::<E>(self@, input@, proof@, accepted),
    {
        verify::<E>(&self.pvk, &input.pinput, &proof.proof)
    }
}

impl<E, A, AV, AC, ACG, H, HG> PredPublicInput<E, A, AV, AC, ACG, H, HG> where
    E: Backend,
    E::ScalarField: PrimeField,
    AC: CommitmentScheme,
    AC::Output: ToConstraintField<E::ScalarField>,
    ACG: CommitmentGadget<AC, E::ScalarField>,
    H: TwoToOneCRH,
    H::Output: ToConstraintField<E::ScalarField>,
    HG: TwoToOneCRHGadget<H, E::ScalarField>,
 {
    /// Brands the public input of a predicate proof under this
    /// configuration.
    pub fn new(pinput: E::PublicInput) -> (input: Self)
        ensures
            input@ == pinput,
    {
        PredPublicInput { pinput, _marker: PhantomData }
    }

    /// The backend's encoding of the public values.
    pub fn material(&self) -> (pinput: &E::PublicInput)
        ensures
            *pinput == self@,
    {
        &self.pinput
    }
}

impl<E, A, AV, AC, ACG, H, HG> PredProof<E, A, AV, AC, ACG, H, HG> where
    E: Backend,
    E::ScalarField: PrimeField,
    AC: CommitmentScheme,
    AC::Output: ToConstraintField<E::ScalarField>,
    ACG: CommitmentGadget<AC, E::ScalarField>,
    H: TwoToOneCRH,
    H::Output: ToConstraintField<E::ScalarField>,
    HG: TwoToOneCRHGadget<H, E::ScalarField>,
 {
    /// Brands a predicate proof that was produced under this configuration.
    pub fn new(proof: E::Proof) -> (branded: Self)
        ensures
            branded@ == proof,
    {
        PredProof { proof, _marker: PhantomData }
    }

    /// The backend's proof.
    pub fn material(&self) -> (proof: &E::Proof)
        ensures
            *proof == self@,
    {
        &self.proof
    }
}

} // verus!
