//! The Pedersen hash of a field element, computed outside any circuit.

use vstd::prelude::*;
use bellman_ce::pairing::bn256::Bn256;
use bellman_ce::pairing::ff::PrimeField;
use sapling_crypto_ce::pedersen_hash;
use crate::scalar::bits_le;
use crate::scalar::Scalar;
use crate::scalar::NUM_BITS;
use crate::tables::Tables;
use crate::tags::Personalization;
use crate::tags::TAG_BITS;

verus! {

/// Largest number of bits, the tag among them, that the generator tables
/// can take: five segments of sixty-two windows of three bits.
pub const TABLE_CAPACITY: usize = 930;

/// The first affine coordinate of the point that the bits `tag`, followed
/// by `bits`, select and add up from the generator tables of the curve.
pub uninterp spec fn pedersen_x(tag: Seq<bool>, bits: Seq<bool>) -> nat;

/// The hash of a field element: `pedersen_x` of its bits, least
/// significant first, as many as the field's width.
pub open spec fn hash_of(personalization: Personalization, preimage: nat) -> nat {
    pedersen_x(personalization@, bits_le(preimage, NUM_BITS as nat))
}

/// Hashes a bit string with `sapling_crypto_ce::pedersen_hash::pedersen_hash`
/// and hands back the first affine coordinate of the resulting point. All
/// values of `Tables` hold the same generators, so the result depends on
/// the personalization and the bits alone.
#[verifier::external_body]
fn hash_bits(personalization: Personalization, bits: &Vec<bool>, tables: &Tables) -> (x:
    Scalar)
    requires
        TAG_BITS + bits@.len() <= TABLE_CAPACITY,
    ensures
        x@ == pedersen_x(personalization@, bits@),
{
    let tag = match personalization.tree_level() {
        None => pedersen_hash::Personalization::NoteCommitment,
        Some(n) => pedersen_hash::Personalization::MerkleTree(n),
    };
    let point = pedersen_hash::pedersen_hash::<Bn256, _>(tag, bits.iter().cloned(), tables.curve());
    Scalar::from_limbs(point.into_xy().0.into_repr().0).unwrap()
}

/// The Pedersen hash of `preimage` in the domain `personalization`.
pub fn pedersen_hash(personalization: Personalization, preimage: &Scalar, tables: &Tables) -> (h:
    Scalar)
    ensures
        h@ == hash_of(personalization, preimage@),
{
    let bits = preimage.to_bits_le();
    hash_bits(personalization, &bits, tables)
}

} // verus!
