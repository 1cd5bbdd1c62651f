//! The generator tables of the curve, the same for every hash and circuit.

use vstd::prelude::*;
use sapling_crypto_ce::alt_babyjubjub::AltJubjubBn256;

verus! {

/// The curve constants and generator tables:
/// `sapling_crypto_ce::alt_babyjubjub::AltJubjubBn256`.
#[verifier::external_type_specification]
#[verifier::external_body]
pub struct ExJubjubParams(AltJubjubBn256);

/// The curve constants and the generator tables that the curve's own
/// group hash derives. There is no other way to make a value of this type
/// than `Tables::new`, so all values hold the same tables.
pub struct Tables {
    inner: AltJubjubBn256,
}

/// Derives the tables with `AltJubjubBn256::new`.
#[verifier::external_body]
fn derive_tables() -> AltJubjubBn256 {
    AltJubjubBn256::new()
}

impl Tables {
    /// Derives the tables.
    pub fn new() -> Tables {
        Tables { inner: derive_tables() }
    }

    /// The tables, as the curve library takes them.
    pub fn curve(&self) -> &AltJubjubBn256 {
        &self.inner
    }
}

} // verus!
