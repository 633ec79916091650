//! Typed proof objects for anonymous credentials.
//!
//! A credential holder proves two kinds of statement in zero knowledge: that
//! committed attributes satisfy a predicate, and that a committed attribute
//! record is a leaf of a hash tree. Each statement has a family of four
//! objects (proving key, verifying key, public input, proof). Every object is
//! branded with the proof backend and with six building blocks: the attribute
//! model and its circuit form, the commitment scheme and its gadget, the
//! two-to-one hash and its gadget. Objects interoperate only when all seven
//! agree, and the two families never mix; the compiler enforces both.
//!
//! The cryptography itself is the backend's: one call per operation.

pub mod backend;
pub mod error;
pub mod lifecycle;
pub mod predicate;
pub mod tree;

pub use backend::{Backend, CircuitShape, Prover};
pub use error::ProofError;
pub use predicate::{PredProof, PredProvingKey, PredPublicInput, PredVerifyingKey};
pub use tree::{TreeProof, TreeProvingKey, TreePublicInput, TreeVerifyingKey};
