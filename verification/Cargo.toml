[package]
name = "cred_proofs"
version = "0.1.0"
edition = "2021"
publish = false

[dependencies]
ark-crypto-primitives = { version = "0.3", features = ["r1cs"] }
ark-ec = "0.3"
ark-ff = "0.3"
ark-groth16 = "0.3"
ark-relations = "0.3"
ark-r1cs-std = "0.3"
ark-serialize = "0.3"
ark-std = "0.3"

[dev-dependencies]
ark-bls12-381 = "0.3"
ark-ed-on-bls12-381 = { version = "0.3", features = ["r1cs"] }
