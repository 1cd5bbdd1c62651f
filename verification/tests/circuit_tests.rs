use bellman_ce::SynthesisError;
use pedersen_preimage::circuit::{Part, PedersenDemo};
use pedersen_preimage::failure::{ErrorKind, RelationError};
use pedersen_preimage::hash::pedersen_hash;
use pedersen_preimage::scalar::{Scalar, MODULUS_0, MODULUS_1, MODULUS_2, MODULUS_3};
use pedersen_preimage::shape::{match_parameters, ParameterKey};
use pedersen_preimage::system::ConstraintLog;
use pedersen_preimage::tables::Tables;
use pedersen_preimage::tags::Personalization;

fn instance<'a>(params: &'a Tables, preimage: u64, disclose: bool) -> PedersenDemo<'a> {
    let tag = Personalization::note_commitment();
    let value = Scalar::from_u64(preimage);
    PedersenDemo {
        params,
        personalization: tag,
        disclose_preimage: disclose,
        hash: Some(pedersen_hash(tag, &value, params)),
        preimage: Some(value),
    }
}

#[test]
fn parts_have_their_names() {
    assert_eq!(Part::Hash.name(), "hash");
    assert_eq!(Part::HashInput.name(), "hash input");
    assert_eq!(Part::Preimage.name(), "preimage");
    assert_eq!(Part::PreimageInput.name(), "preimage input");
    assert_eq!(Part::PreimageBits.name(), "preimage into bits");
    assert_eq!(Part::HashCalculated.name(), "hash calculated");
    assert_eq!(Part::Binding.name(), "add constraint between input and pedersen hash output");
}

#[test]
fn empty_system_holds_the_constant_only() {
    let cs = ConstraintLog::new();
    assert!(cs.has_inputs(&vec![]));
    assert!(!cs.has_inputs(&vec![Scalar::from_u64(1)]));
    assert_eq!(cs.which_is_unsatisfied(), None);
    assert_eq!(cs.find_unconstrained(), "\nONE\n");
}

#[test]
fn correct_hash_satisfies_the_circuit() {
    let params = Tables::new();
    let demo = instance(&params, 0x0b, false);
    let hash = demo.hash.unwrap();
    let preimage = demo.preimage.unwrap();
    let mut cs = ConstraintLog::new();
    assert!(demo.synthesize(&mut cs).is_ok());
    assert_eq!(cs.which_is_unsatisfied(), None);
    assert_eq!(cs.find_unconstrained(), "");
    assert!(cs.has_inputs(&vec![hash]));
    assert!(!cs.has_inputs(&vec![preimage]));
    assert!(!cs.has_inputs(&vec![hash, preimage]));
    assert_eq!(demo.public_inputs(), Some(vec![hash]));
    assert_eq!(demo.check_witness().1, Ok(()));
}

#[test]
fn disclosed_preimage_is_the_second_input() {
    let params = Tables::new();
    let demo = instance(&params, 0x0b, true);
    let hash = demo.hash.unwrap();
    let preimage = demo.preimage.unwrap();
    assert_eq!(demo.public_inputs(), Some(vec![hash, preimage]));
    let mut cs = ConstraintLog::new();
    assert!(demo.synthesize(&mut cs).is_ok());
    assert_eq!(cs.which_is_unsatisfied(), None);
    assert_eq!(cs.find_unconstrained(), "");
    assert!(cs.has_inputs(&vec![hash, preimage]));
    assert!(!cs.has_inputs(&vec![preimage, hash]));
    assert!(!cs.has_inputs(&vec![hash]));
    assert_eq!(demo.check_witness().1, Ok(()));
}

#[test]
fn checked_system_is_handed_back() {
    let params = Tables::new();
    let demo = instance(&params, 7, false);
    let (cs, result) = demo.check_witness();
    assert_eq!(result, Ok(()));
    assert!(cs.has_inputs(&vec![demo.hash.unwrap()]));
    assert_eq!(cs.which_is_unsatisfied(), None);
    assert_eq!(cs.find_unconstrained(), "");
}

#[test]
fn zero_and_the_largest_element_satisfy_the_circuit() {
    let params = Tables::new();
    let tag = Personalization::merkle_tree(3).unwrap();
    let top = Scalar::from_limbs([MODULUS_0 - 1, MODULUS_1, MODULUS_2, MODULUS_3]).unwrap();
    for value in [Scalar::from_u64(0), top] {
        let demo = PedersenDemo {
            params: &params,
            personalization: tag,
            disclose_preimage: false,
            hash: Some(pedersen_hash(tag, &value, &params)),
            preimage: Some(value),
        };
        assert_eq!(demo.check_witness().1, Ok(()));
    }
}

#[test]
fn wrong_hash_breaks_the_binding_constraint() {
    let params = Tables::new();
    let preimage = Scalar::from_u64(0x0b);
    let demo = PedersenDemo {
        params: &params,
        personalization: Personalization::note_commitment(),
        disclose_preimage: false,
        hash: Some(preimage),
        preimage: Some(preimage),
    };
    let mut cs = ConstraintLog::new();
    assert!(demo.synthesize(&mut cs).is_ok());
    assert_eq!(
        cs.which_is_unsatisfied(),
        Some("add constraint between input and pedersen hash output".to_string())
    );
    let (checked, result) = demo.check_witness();
    assert_eq!(
        result,
        Err(RelationError::Unsatisfied(Some(
            "add constraint between input and pedersen hash output".to_string()
        )))
    );
    assert!(checked.has_inputs(&vec![preimage]));
    assert_eq!(checked.find_unconstrained(), "");
}

#[test]
fn hash_of_another_domain_fails_the_check() {
    let params = Tables::new();
    let mut demo = instance(&params, 0x0b, false);
    demo.personalization = Personalization::merkle_tree(0).unwrap();
    assert_eq!(
        demo.check_witness().1,
        Err(RelationError::Unsatisfied(Some(Part::Binding.name().to_string())))
    );
}

#[test]
fn blank_instance_lacks_its_witness() {
    let params = Tables::new();
    let demo = PedersenDemo::blank(&params, Personalization::note_commitment(), false);
    assert!(demo.hash.is_none() && demo.preimage.is_none() && !demo.disclose_preimage);
    assert_eq!(demo.public_inputs(), None);
    let mut cs = ConstraintLog::new();
    assert!(matches!(demo.synthesize(&mut cs), Err(SynthesisError::AssignmentMissing)));
    assert!(cs.has_inputs(&vec![]));
    let (checked, result) = demo.check_witness();
    assert_eq!(result, Err(RelationError::MissingWitness));
    assert_eq!(RelationError::MissingWitness.kind(), ErrorKind::Construction);
    assert!(checked.has_inputs(&vec![]));
    assert_eq!(checked.which_is_unsatisfied(), None);
}

#[test]
fn missing_preimage_stops_after_the_hash() {
    let params = Tables::new();
    let mut demo = instance(&params, 0x0b, true);
    demo.preimage = None;
    assert_eq!(demo.public_inputs(), None);
    let mut cs = ConstraintLog::new();
    assert!(matches!(demo.synthesize(&mut cs), Err(SynthesisError::AssignmentMissing)));
    assert!(cs.has_inputs(&vec![demo.hash.unwrap()]));
    demo.disclose_preimage = false;
    assert_eq!(demo.public_inputs(), Some(vec![demo.hash.unwrap()]));
}

#[test]
fn values_beyond_the_field_are_refused() {
    let params = Tables::new();
    let tag = Personalization::note_commitment();
    let modulus = [MODULUS_0, MODULUS_1, MODULUS_2, MODULUS_3];
    let out_of_range = RelationError::ValueOutOfRange;
    assert_eq!(PedersenDemo::with_witness(&params, tag, false, modulus, [1, 0, 0, 0]).err(), Some(out_of_range.clone()));
    assert_eq!(PedersenDemo::with_witness(&params, tag, false, [1, 0, 0, 0], modulus).err(), Some(out_of_range));
    let demo = PedersenDemo::with_witness(&params, tag, true, [5, 0, 0, 0], [0x0b, 0, 0, 0]).ok().unwrap();
    assert_eq!(demo.hash, Some(Scalar::from_u64(5)));
    assert_eq!(demo.preimage, Some(Scalar::from_u64(0x0b)));
    assert!(demo.disclose_preimage);
    assert_eq!(demo.personalization, tag);
}

#[test]
fn shape_ignores_the_values() {
    let params = Tables::new();
    let tag = Personalization::note_commitment();
    let blank = PedersenDemo::blank(&params, tag, false);
    let full = instance(&params, 0x0b, false);
    assert_eq!(
        blank.shape(),
        ParameterKey { personalization: tag, segments: 2, window_bits: 3, public_inputs: 1 }
    );
    assert_eq!(blank.shape(), full.shape());
    assert_eq!(match_parameters(blank.shape(), full.shape()), Ok(()));
    let disclosed = instance(&params, 0x0b, true);
    assert_eq!(disclosed.shape().public_inputs, 2);
    assert_eq!(
        match_parameters(blank.shape(), disclosed.shape()),
        Err(RelationError::ParameterMismatch)
    );
    let other = PedersenDemo::blank(&params, Personalization::merkle_tree(1).unwrap(), false);
    assert_eq!(match_parameters(other.shape(), full.shape()), Err(RelationError::ParameterMismatch));
}

#[test]
fn verdict_comes_with_the_system_it_was_reached_on() {
    let params = Tables::new();
    let tag = Personalization::note_commitment();
    let preimage = Scalar::from_u64(0x0b);
    let hash = pedersen_hash(tag, &preimage, &params);
    let limbs = hash.limbs();
    let other = Scalar::from_limbs([limbs[0] ^ 1, limbs[1], limbs[2], limbs[3]]).unwrap();
    let demo = PedersenDemo {
        params: &params,
        personalization: tag,
        disclose_preimage: true,
        hash: Some(other),
        preimage: Some(preimage),
    };
    let (cs, result) = demo.check_witness();
    assert_eq!(result, Err(RelationError::Unsatisfied(Some(Part::Binding.name().to_string()))));
    assert_eq!(cs.which_is_unsatisfied(), Some(Part::Binding.name().to_string()));
    assert!(cs.has_inputs(&vec![other, preimage]));
    assert_eq!(cs.find_unconstrained(), "");
}
