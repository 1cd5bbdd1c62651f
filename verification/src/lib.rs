//! Knowledge of a Pedersen-hash preimage, as an arithmetic relation.
//!
//! A prover holds a secret field element and discloses only its Pedersen
//! hash. This crate describes that relation as a circuit, computes the hash
//! outside the circuit, checks a witness against the circuit before any
//! proof is attempted, and orders the steps of setup, proving and
//! verification.
//!
//! - `scalar`: field elements and their bits.
//! - `tags`: the personalizations that keep hashes of different domains apart.
//! - `tables`: the generator tables of the curve.
//! - `hash`: the hash outside the circuit.
//! - `system`: the constraint system that records a circuit, and the
//!   gadgets of the circuit.
//! - `failure`: the kinds of failure.
//! - `shape`: what parameters are made for.
//! - `circuit`: the circuit, its public inputs and the check of a witness.
//! - `lifecycle`: the order of setup, witness check, proving and verification.

pub mod scalar;
pub mod tags;
pub mod tables;
pub mod hash;
pub mod system;
pub mod failure;
pub mod shape;
pub mod circuit;
pub mod lifecycle;
