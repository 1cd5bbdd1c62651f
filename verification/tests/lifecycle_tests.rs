use bellman_ce::SynthesisError;
use pedersen_preimage::failure::{classify, verdict, ErrorKind, RelationError};
use pedersen_preimage::lifecycle::{
    advance, next_action, outcome_of_check, outcome_of_verification, outcome_of_work, Action, Outcome, Phase,
};
use pedersen_preimage::shape::{match_parameters, segment_count, window_count, ParameterKey};
use pedersen_preimage::tags::Personalization;

#[test]
fn work_comes_in_one_order() {
    let mut phase = Phase::Created;
    assert_eq!(next_action(&phase), Action::Setup);
    phase = advance(phase, Outcome::Done);
    assert_eq!(phase, Phase::ParametersReady);
    assert_eq!(next_action(&phase), Action::CheckWitness);
    phase = advance(phase, Outcome::Done);
    assert_eq!(phase, Phase::WitnessChecked);
    assert_eq!(next_action(&phase), Action::Prove);
    phase = advance(phase, Outcome::Done);
    assert_eq!(phase, Phase::Proved);
    assert_eq!(next_action(&phase), Action::Verify);
    phase = advance(phase, Outcome::Verdict(true));
    assert_eq!(phase, Phase::Accepted);
    assert_eq!(next_action(&phase), Action::Stop);
}

#[test]
fn rejection_is_an_end_and_no_failure() {
    let phase = advance(Phase::Proved, Outcome::Verdict(false));
    assert_eq!(phase, Phase::Rejected);
    assert_eq!(next_action(&phase), Action::Stop);
    assert_eq!(advance(Phase::Rejected, Outcome::Verdict(true)), Phase::Rejected);
    assert_eq!(advance(Phase::Rejected, Outcome::Done), Phase::Rejected);
    assert_eq!(
        advance(Phase::Rejected, Outcome::Failure(RelationError::ParameterMismatch)),
        Phase::Rejected
    );
    assert_eq!(advance(Phase::Accepted, Outcome::Verdict(false)), Phase::Accepted);
}

#[test]
fn failure_gives_the_instance_up() {
    let e = RelationError::Unsatisfied(Some("a/b".to_string()));
    for phase in [Phase::Created, Phase::ParametersReady, Phase::WitnessChecked, Phase::Proved] {
        assert_eq!(advance(phase, Outcome::Failure(e.clone())), Phase::Failed(e.clone()));
    }
    let failed = Phase::Failed(e.clone());
    assert_eq!(next_action(&failed), Action::Stop);
    assert_eq!(advance(failed.clone(), Outcome::Done), failed);
    assert_eq!(
        advance(failed.clone(), Outcome::Failure(RelationError::ParameterMismatch)),
        failed
    );
}

#[test]
fn outcomes_out_of_turn_change_nothing() {
    assert_eq!(advance(Phase::Created, Outcome::Verdict(true)), Phase::Created);
    assert_eq!(advance(Phase::ParametersReady, Outcome::Verdict(false)), Phase::ParametersReady);
    assert_eq!(advance(Phase::WitnessChecked, Outcome::Verdict(true)), Phase::WitnessChecked);
    assert_eq!(advance(Phase::Proved, Outcome::Done), Phase::Proved);
}

#[test]
fn backend_results_become_outcomes() {
    assert_eq!(outcome_of_work(Ok(())), Outcome::Done);
    assert_eq!(
        outcome_of_work(Err(SynthesisError::PolynomialDegreeTooLarge)),
        Outcome::Failure(RelationError::PolynomialDegreeTooLarge)
    );
    assert_eq!(outcome_of_verification(Ok(true)), Outcome::Verdict(true));
    assert_eq!(outcome_of_verification(Ok(false)), Outcome::Verdict(false));
    assert_eq!(
        outcome_of_verification(Err(SynthesisError::MalformedVerifyingKey)),
        Outcome::Failure(RelationError::ParameterMismatch)
    );
    assert_eq!(outcome_of_check(Ok(())), Outcome::Done);
    assert_eq!(
        outcome_of_check(Err(RelationError::Unsatisfied(None))),
        Outcome::Failure(RelationError::Unsatisfied(None))
    );
}

#[test]
fn every_backend_error_has_its_kind() {
    assert_eq!(
        classify(SynthesisError::AssignmentMissing),
        RelationError::MissingWitness
    );
    assert_eq!(
        classify(SynthesisError::DivisionByZero),
        RelationError::DivisionByZero
    );
    assert_eq!(classify(SynthesisError::Unsatisfiable), RelationError::Unsatisfied(None));
    assert_eq!(
        classify(SynthesisError::PolynomialDegreeTooLarge),
        RelationError::PolynomialDegreeTooLarge
    );
    assert_eq!(
        classify(SynthesisError::UnexpectedIdentity),
        RelationError::UnexpectedIdentity
    );
    assert_eq!(
        classify(SynthesisError::IoError(std::io::Error::new(std::io::ErrorKind::Other, "x"))),
        RelationError::Io
    );
    assert_eq!(classify(SynthesisError::MalformedVerifyingKey), RelationError::ParameterMismatch);
    assert_eq!(
        classify(SynthesisError::UnconstrainedVariable),
        RelationError::Unconstrained(None)
    );
}

#[test]
fn every_failure_has_one_kind() {
    assert_eq!(RelationError::ValueOutOfRange.kind(), ErrorKind::Construction);
    assert_eq!(RelationError::MissingWitness.kind(), ErrorKind::Construction);
    assert_eq!(RelationError::DivisionByZero.kind(), ErrorKind::Construction);
    assert_eq!(RelationError::Unconstrained(None).kind(), ErrorKind::Construction);
    assert_eq!(RelationError::Unconstrained(Some("v".to_string())).kind(), ErrorKind::Construction);
    assert_eq!(RelationError::ParameterMismatch.kind(), ErrorKind::ParameterMismatch);
    assert_eq!(RelationError::Unsatisfied(None).kind(), ErrorKind::Unsatisfied);
    assert_eq!(RelationError::Unsatisfied(Some("c".to_string())).kind(), ErrorKind::Unsatisfied);
    assert_eq!(RelationError::PolynomialDegreeTooLarge.kind(), ErrorKind::Backend);
    assert_eq!(RelationError::UnexpectedIdentity.kind(), ErrorKind::Backend);
    assert_eq!(RelationError::Io.kind(), ErrorKind::Backend);
}

#[test]
fn verdict_names_the_first_fault() {
    assert_eq!(verdict(Ok(()), String::new(), None), Ok(()));
    assert_eq!(
        verdict(Err(SynthesisError::DivisionByZero), "\nv\n".to_string(), Some("c".to_string())),
        Err(RelationError::DivisionByZero)
    );
    assert_eq!(
        verdict(Ok(()), "\nv\n".to_string(), Some("c".to_string())),
        Err(RelationError::Unconstrained(Some("\nv\n".to_string())))
    );
    assert_eq!(
        verdict(Ok(()), String::new(), Some("c".to_string())),
        Err(RelationError::Unsatisfied(Some("c".to_string())))
    );
}

#[test]
fn windows_and_segments_round_up() {
    assert_eq!(window_count(0), 0);
    assert_eq!(window_count(1), 1);
    assert_eq!(window_count(3), 1);
    assert_eq!(window_count(4), 2);
    assert_eq!(window_count(260), 87);
    assert_eq!(window_count(usize::MAX), usize::MAX / 3);
    assert_eq!(segment_count(0), 0);
    assert_eq!(segment_count(62), 1);
    assert_eq!(segment_count(63), 2);
    assert_eq!(segment_count(87), 2);
    assert_eq!(segment_count(usize::MAX), usize::MAX / 62 + 1);
}

#[test]
fn parameters_serve_their_own_key_only() {
    let key = ParameterKey {
        personalization: Personalization::note_commitment(),
        segments: 2,
        window_bits: 3,
        public_inputs: 1,
    };
    assert_eq!(match_parameters(key, key), Ok(()));
    let other_domain = ParameterKey { personalization: Personalization::merkle_tree(5).unwrap(), ..key };
    assert_eq!(match_parameters(key, other_domain), Err(RelationError::ParameterMismatch));
    let more_inputs = ParameterKey { public_inputs: 2, ..key };
    assert_eq!(match_parameters(key, more_inputs), Err(RelationError::ParameterMismatch));
    let longer = ParameterKey { segments: 3, ..key };
    assert_eq!(match_parameters(longer, key), Err(RelationError::ParameterMismatch));
}
