//! The order of setup, witness check, proving and verification for one
//! instance of the relation.
//!
//! The library decides what is done next and what an outcome means; the
//! caller does the work and reports each outcome.

use vstd::prelude::*;
use bellman_ce::SynthesisError;
use crate::failure::classified;
use crate::failure::classify;
use crate::failure::RelationError;

verus! {

/// How far an instance has come.
#[derive(Clone, Debug, PartialEq, Eq)]
pub enum Phase {
    /// Nothing has been done.
    Created,
    /// Parameters have been set up.
    ParametersReady,
    /// The witness satisfies the circuit.
    WitnessChecked,
    /// A proof has been made.
    Proved,
    /// The proof was verified and holds.
    Accepted,
    /// The proof was verified and does not hold.
    Rejected,
    /// The instance was given up.
    Failed(RelationError),
}

/// The work that is due.
#[derive(Clone, Copy, Debug, PartialEq, Eq, Structural)]
pub enum Action {
    /// Set up parameters for the blank circuit.
    Setup,
    /// Check the witness against the circuit.
    CheckWitness,
    /// Make a proof.
    Prove,
    /// Verify the proof against the public inputs.
    Verify,
    /// Nothing: the instance has come to its end.
    Stop,
}

/// What came of a piece of work.
#[derive(Clone, Debug, PartialEq, Eq)]
pub enum Outcome {
    /// The work was done.
    Done,
    /// Verification ran, and the proof holds or does not.
    Verdict(bool),
    /// The work failed.
    Failure(RelationError),
}

/// The work that is due in a phase.
pub open spec fn pending(phase: Phase) -> Action {
    match phase {
        Phase::Created => Action::Setup,
        Phase::ParametersReady => Action::CheckWitness,
        Phase::WitnessChecked => Action::Prove,
        Phase::Proved => Action::Verify,
        _ => Action::Stop,
    }
}

/// Whether an outcome can come of an action: a verdict comes of
/// verification only, plain success of the work before it, failure of
/// any work.
pub open spec fn answers(action: Action, outcome: Outcome) -> bool {
    match (action, outcome) {
        (Action::Stop, _) => false,
        (_, Outcome::Failure(_)) => true,
        (Action::Verify, Outcome::Verdict(_)) => true,
        (Action::Verify, Outcome::Done) => false,
        (_, Outcome::Done) => true,
        (_, Outcome::Verdict(_)) => false,
    }
}

/// The phase that follows when `outcome` is reported in `phase`. An
/// outcome that cannot come of the work that is due changes nothing.
pub open spec fn stepped(phase: Phase, outcome: Outcome) -> Phase {
    if !answers(pending(phase), outcome) {
        phase
    } else {
        match outcome {
            Outcome::Failure(e) => Phase::Failed(e),
            Outcome::Verdict(holds) => if holds {
                Phase::Accepted
            } else {
                Phase::Rejected
            },
            Outcome::Done => match phase {
                Phase::Created => Phase::ParametersReady,
                Phase::ParametersReady => Phase::WitnessChecked,
                _ => Phase::Proved,
            },
        }
    }
}

/// The phase that is reached from `phase` when `outcomes` are reported one
/// after the other.
pub open spec fn run(phase: Phase, outcomes: Seq<Outcome>) -> Phase
    decreases outcomes.len(),
{
    if outcomes.len() == 0 {
        phase
    } else {
        stepped(run(phase, outcomes.drop_last()), outcomes.last())
    }
}

/// How many pieces of work lie behind a phase; four at the end.
pub open spec fn rank(phase: Phase) -> nat {
    match phase {
        Phase::Created => 0,
        Phase::ParametersReady => 1,
        Phase::WitnessChecked => 2,
        Phase::Proved => 3,
        _ => 4,
    }
}

/// The work that is due in a phase.
pub fn next_action(phase: &Phase) -> (a: Action)
    ensures
        a == pending(*phase),
{
    match phase {
        Phase::Created => Action::Setup,
        Phase::ParametersReady => Action::CheckWitness,
        Phase::WitnessChecked => Action::Prove,
        Phase::Proved => Action::Verify,
        _ => Action::Stop,
    }
}

/// The phase that follows when `outcome` is reported in `phase`.
pub fn advance(phase: Phase, outcome: Outcome) -> (next: Phase)
    ensures
        next == stepped(phase, outcome),
{
    match (phase, outcome) {
        (Phase::Created, Outcome::Done) => Phase::ParametersReady,
        (Phase::ParametersReady, Outcome::Done) => Phase::WitnessChecked,
        (Phase::WitnessChecked, Outcome::Done) => Phase::Proved,
        (Phase::Proved, Outcome::Verdict(true)) => Phase::Accepted,
        (Phase::Proved, Outcome::Verdict(false)) => Phase::Rejected,
        (Phase::Created, Outcome::Failure(e)) => Phase::Failed(e),
        (Phase::ParametersReady, Outcome::Failure(e)) => Phase::Failed(e),
        (Phase::WitnessChecked, Outcome::Failure(e)) => Phase::Failed(e),
        (Phase::Proved, Outcome::Failure(e)) => Phase::Failed(e),
        (phase, _) => phase,
    }
}

/// What came of setup or of proving: success, or the failure that the
/// backend's error stands for.
pub fn outcome_of_work(result: Result<(), SynthesisError>) -> (o: Outcome)
    ensures
        result is Ok ==> o == Outcome::Done,
        result matches Err(e) ==> (o matches Outcome::Failure(f) && f@ == classified(e)),
{
    match result {
        Ok(_) => Outcome::Done,
        Err(e) => Outcome::Failure(classify(e)),
    }
}

/// What came of the witness check.
pub fn outcome_of_check(result: Result<(), RelationError>) -> (o: Outcome)
    ensures
        result is Ok ==> o == Outcome::Done,
        result matches Err(e) ==> o == Outcome::Failure(e),
{
    match result {
        Ok(_) => Outcome::Done,
        Err(e) => Outcome::Failure(e),
    }
}

/// What came of verification: a verdict, which may well be that the proof
/// does not hold, or the failure that the backend's error stands for.
pub fn outcome_of_verification(result: Result<bool, SynthesisError>) -> (o: Outcome)
    ensures
        result matches Ok(holds) ==> o == Outcome::Verdict(holds),
        result matches Err(e) ==> (o matches Outcome::Failure(f) && f@ == classified(e)),
{
    match result {
        Ok(holds) => Outcome::Verdict(holds),
        Err(e) => Outcome::Failure(classify(e)),
    }
}

/// An instance that has come to its end stays where it is: no outcome
/// revives it, and none turns a rejection into a failure or back.
pub proof fn lemma_end_is_final(phase: Phase, outcome: Outcome)
    requires
        pending(phase) == Action::Stop,
    ensures
        stepped(phase, outcome) == phase,
{
}

/// A failure of the work that is due gives the instance up, whatever the phase.
pub proof fn lemma_failure_gives_up(phase: Phase, e: RelationError)
    requires
        pending(phase) != Action::Stop,
    ensures
        stepped(phase, Outcome::Failure(e)) == Phase::Failed(e),
{
}

/// A proof that does not hold is rejected, which is no failure; and an
/// instance is rejected in no other way.
pub proof fn lemma_rejection_is_no_failure(phase: Phase, outcome: Outcome)
    ensures
        stepped(Phase::Proved, Outcome::Verdict(false)) == Phase::Rejected,
        stepped(phase, outcome) == Phase::Rejected ==> phase == Phase::Rejected || (phase
            == Phase::Proved && outcome == Outcome::Verdict(false)),
        stepped(phase, outcome) is Failed ==> phase is Failed || outcome is Failure,
{
}

/// The phases follow one another in one order: an outcome moves an
/// instance on by one piece of work, or to its end, or not at all.
pub proof fn lemma_one_step_at_a_time(phase: Phase, outcome: Outcome)
    ensures
        rank(stepped(phase, outcome)) == rank(phase) || rank(stepped(phase, outcome)) == rank(phase)
            + 1 || rank(stepped(phase, outcome)) == 4,
        rank(stepped(phase, outcome)) >= rank(phase),
        stepped(phase, outcome) == Phase::Accepted ==> phase == Phase::Accepted || (phase
            == Phase::Proved && outcome == Outcome::Verdict(true)),
{
}

/// A proof is accepted only after setup, witness check, proving and
/// verification have each reported: never after fewer than four outcomes.
pub proof fn lemma_acceptance_takes_four(outcomes: Seq<Outcome>)
    requires
        run(Phase::Created, outcomes) == Phase::Accepted,
    ensures
        outcomes.len() >= 4,
{
    lemma_unfailed_rank_bounded(outcomes);
}

/// As long as nothing failed and no verdict came, the rank is at most the
/// number of outcomes.
proof fn lemma_unfailed_rank_bounded(outcomes: Seq<Outcome>)
    ensures
        run(Phase::Created, outcomes) is Accepted || run(Phase::Created, outcomes) is Rejected
            ==> outcomes.len() >= 4,
        !(run(Phase::Created, outcomes) is Failed) ==> rank(run(Phase::Created, outcomes))
            <= outcomes.len(),
    decreases outcomes.len(),
{
    if outcomes.len() > 0 {
        lemma_unfailed_rank_bounded(outcomes.drop_last());
    }
}

/// When all work succeeds, the instance ends as verification says.
pub proof fn lemma_full_run(holds: bool)
    ensures
        run(
            Phase::Created,
            seq![Outcome::Done, Outcome::Done, Outcome::Done, Outcome::Verdict(holds)],
        ) == (if holds {
            Phase::Accepted
        } else {
            Phase::Rejected
        }),
{
    let all = seq![Outcome::Done, Outcome::Done, Outcome::Done, Outcome::Verdict(holds)];
    let three = seq![Outcome::Done, Outcome::Done, Outcome::Done];
    let two = seq![Outcome::Done, Outcome::Done];
    let one = seq![Outcome::Done];
    assert(all.drop_last() =~= three);
    assert(three.drop_last() =~= two);
    assert(two.drop_last() =~= one);
    assert(one.drop_last() =~= Seq::<Outcome>::empty());
    assert(run(Phase::Created, Seq::<Outcome>::empty()) == Phase::Created);
    assert(run(Phase::Created, one) == Phase::ParametersReady);
    assert(run(Phase::Created, two) == Phase::WitnessChecked);
    assert(run(Phase::Created, three) == Phase::Proved);
}

} // verus!
