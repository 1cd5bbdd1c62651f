use bellman_ce::pairing::bn256::Bn256;
use bellman_ce::pairing::ff::PrimeField;
use pedersen_preimage::hash::{pedersen_hash, TABLE_CAPACITY};
use pedersen_preimage::scalar::NUM_BITS;
use pedersen_preimage::shape::{SEGMENT_WINDOWS, WINDOW_BITS};
use pedersen_preimage::system::GADGET_CAPACITY;
use pedersen_preimage::tables::Tables;
use pedersen_preimage::tags::TAG_BITS;
use sapling_crypto_ce::jubjub::JubjubParams;
use pedersen_preimage::scalar::Scalar;
use pedersen_preimage::tags::Personalization;
use sapling_crypto_ce::pedersen_hash as outside;

#[test]
fn hash_of_eleven_is_the_known_value() {
    let params = Tables::new();
    let h = pedersen_hash(Personalization::note_commitment(), &Scalar::from_u64(0x0b), &params);
    assert_eq!(
        h.limbs(),
        [0xc4cc6af47c7117f6, 0xaaa9c1337a6af708, 0x9adcc4e256246a49, 0x7db74a59c118f8]
    );
    let again = pedersen_hash(Personalization::note_commitment(), &Scalar::from_u64(0x0b), &Tables::new());
    assert_eq!(h, again);
}

#[test]
fn hash_of_zero_is_well_defined() {
    let params = Tables::new();
    let z = pedersen_hash(Personalization::note_commitment(), &Scalar::from_u64(0), &params);
    assert_eq!(
        z.limbs(),
        [0x8514fec110d1dd8d, 0x73da498074cb7531, 0x1c2b4e5139f4a3a, 0x2fccb8198c1fd33f]
    );
}

#[test]
fn hash_depends_on_the_domain() {
    let params = Tables::new();
    let m = pedersen_hash(Personalization::merkle_tree(0).unwrap(), &Scalar::from_u64(0x0b), &params);
    assert_eq!(
        m.limbs(),
        [0x8af513e10972b274, 0xcd88c82cdbe58280, 0x94805fa1783b3825, 0x25b1eed99a5ff5f8]
    );
    let n = pedersen_hash(Personalization::note_commitment(), &Scalar::from_u64(0x0b), &params);
    assert_ne!(m, n);
    let deep = pedersen_hash(Personalization::merkle_tree(62).unwrap(), &Scalar::from_u64(0x0b), &params);
    assert_ne!(deep, m);
    assert_ne!(deep, n);
}

#[test]
fn hash_is_the_first_coordinate_of_the_summed_point() {
    let params = Tables::new();
    let preimage = Scalar::from_u64(0x0b);
    let mut bits = vec![false; 254];
    bits[0] = true;
    bits[1] = true;
    bits[3] = true;
    let point = outside::pedersen_hash::<Bn256, _>(outside::Personalization::NoteCommitment, bits, params.curve());
    let h = pedersen_hash(Personalization::note_commitment(), &preimage, &params);
    assert_eq!(h.limbs(), point.into_xy().0.into_repr().0);
    assert_ne!(h, preimage);
}

#[test]
fn flipping_any_bit_changes_the_hash() {
    let params = Tables::new();
    let tag = Personalization::note_commitment();
    let limbs = Scalar::from_u64(0x0b).limbs();
    let h = pedersen_hash(tag, &Scalar::from_u64(0x0b), &params);
    let mut seen = vec![h];
    for i in 0..254 {
        let mut flipped = limbs;
        flipped[i / 64] ^= 1u64 << (i % 64);
        let other = Scalar::from_limbs(flipped).unwrap();
        let g = pedersen_hash(tag, &other, &params);
        assert!(!seen.contains(&g), "bit {}", i);
        seen.push(g);
    }
}

#[test]
fn constants_agree_with_the_generator_tables() {
    let params = Tables::new();
    let params = params.curve();
    let segments = params.pedersen_circuit_generators().len();
    assert_eq!(segments, 5);
    assert_eq!(params.pedersen_hash_exp_table().len(), segments);
    assert_eq!(params.pedersen_hash_chunks_per_generator(), SEGMENT_WINDOWS);
    assert!(params.pedersen_circuit_generators().iter().all(|s| s.len() == SEGMENT_WINDOWS));
    assert_eq!(TABLE_CAPACITY, segments * SEGMENT_WINDOWS * WINDOW_BITS);
    assert_eq!(GADGET_CAPACITY, (segments - 1) * SEGMENT_WINDOWS * WINDOW_BITS - TAG_BITS);
    assert_eq!(outside::Personalization::NoteCommitment.get_bits().len(), TAG_BITS);
    assert_eq!(outside::Personalization::MerkleTree(62).get_bits().len(), TAG_BITS);
    assert_eq!(<bellman_ce::pairing::bn256::Fr as PrimeField>::NUM_BITS as usize, NUM_BITS);
}
