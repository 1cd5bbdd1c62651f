//! The ways in which an instance of the relation can fail, each kept
//! apart from the others and from a proof that is merely rejected.

use vstd::prelude::*;
use bellman_ce::SynthesisError;

verus! {

/// The kinds of failure.
#[derive(Clone, Copy, Debug, PartialEq, Eq, Structural)]
pub enum ErrorKind {
    /// The circuit cannot be built as described. Nothing is gained by
    /// trying again.
    Construction,
    /// The parameters were made for a circuit of another shape.
    ParameterMismatch,
    /// The values do not satisfy the circuit. Other values may.
    Unsatisfied,
    /// The proving backend failed.
    Backend,
}

/// Why an instance of the relation was given up.
#[derive(Clone, Debug, PartialEq, Eq)]
pub enum RelationError {
    /// A value does not fit the field.
    ValueOutOfRange,
    /// A value that synthesis needs is not known.
    MissingWitness,
    /// A point addition met a case that its formula does not cover.
    DivisionByZero,
    /// Variables are mentioned by no constraint: their paths, where known.
    Unconstrained(Option<String>),
    /// The parameters were made for a circuit of another shape.
    ParameterMismatch,
    /// The values do not satisfy a constraint: its path, where known.
    Unsatisfied(Option<String>),
    /// The circuit is too large for the backend's polynomials.
    PolynomialDegreeTooLarge,
    /// The parameters hold a point at infinity.
    UnexpectedIdentity,
    /// Reading or writing parameters failed.
    Io,
}

/// What a `RelationError` says, with each text as a sequence of characters.
pub enum Fault {
    /// A value does not fit the field.
    ValueOutOfRange,
    /// A value that synthesis needs is not known.
    MissingWitness,
    /// A point addition met a case that its formula does not cover.
    DivisionByZero,
    /// Variables are mentioned by no constraint: their paths, where known.
    Unconstrained(Option<Seq<char>>),
    /// The parameters were made for a circuit of another shape.
    ParameterMismatch,
    /// The values do not satisfy a constraint: its path, where known.
    Unsatisfied(Option<Seq<char>>),
    /// The circuit is too large for the backend's polynomials.
    PolynomialDegreeTooLarge,
    /// The parameters hold a point at infinity.
    UnexpectedIdentity,
    /// Reading or writing parameters failed.
    Io,
}

impl Fault {
    /// The kind of a failure.
    pub open spec fn kind(self) -> ErrorKind {
        match self {
            Fault::ValueOutOfRange => ErrorKind::Construction,
            Fault::MissingWitness => ErrorKind::Construction,
            Fault::DivisionByZero => ErrorKind::Construction,
            Fault::Unconstrained(_) => ErrorKind::Construction,
            Fault::ParameterMismatch => ErrorKind::ParameterMismatch,
            Fault::Unsatisfied(_) => ErrorKind::Unsatisfied,
            Fault::PolynomialDegreeTooLarge => ErrorKind::Backend,
            Fault::UnexpectedIdentity => ErrorKind::Backend,
            Fault::Io => ErrorKind::Backend,
        }
    }
}

impl View for RelationError {
    type V = Fault;

    open spec fn view(&self) -> Fault {
        match *self {
            RelationError::ValueOutOfRange => Fault::ValueOutOfRange,
            RelationError::MissingWitness => Fault::MissingWitness,
            RelationError::DivisionByZero => Fault::DivisionByZero,
            RelationError::Unconstrained(None) => Fault::Unconstrained(None),
            RelationError::Unconstrained(Some(paths)) => Fault::Unconstrained(Some(paths@)),
            RelationError::ParameterMismatch => Fault::ParameterMismatch,
            RelationError::Unsatisfied(None) => Fault::Unsatisfied(None),
            RelationError::Unsatisfied(Some(path)) => Fault::Unsatisfied(Some(path@)),
            RelationError::PolynomialDegreeTooLarge => Fault::PolynomialDegreeTooLarge,
            RelationError::UnexpectedIdentity => Fault::UnexpectedIdentity,
            RelationError::Io => Fault::Io,
        }
    }
}

impl RelationError {
    /// The kind of this failure.
    pub fn kind(&self) -> (k: ErrorKind)
        ensures
            k == self@.kind(),
    {
        match self {
            RelationError::ValueOutOfRange => ErrorKind::Construction,
            RelationError::MissingWitness => ErrorKind::Construction,
            RelationError::DivisionByZero => ErrorKind::Construction,
            RelationError::Unconstrained(_) => ErrorKind::Construction,
            RelationError::ParameterMismatch => ErrorKind::ParameterMismatch,
            RelationError::Unsatisfied(_) => ErrorKind::Unsatisfied,
            RelationError::PolynomialDegreeTooLarge => ErrorKind::Backend,
            RelationError::UnexpectedIdentity => ErrorKind::Backend,
            RelationError::Io => ErrorKind::Backend,
        }
    }
}

/// What a result says that may hold a `RelationError`.
pub open spec fn outcome_view(r: Result<(), RelationError>) -> Result<(), Fault> {
    match r {
        Ok(_) => Ok(()),
        Err(e) => Err(e@),
    }
}

/// The failure that an error of synthesis or of the backend stands for.
pub open spec fn classified(e: SynthesisError) -> Fault {
    match e {
        SynthesisError::AssignmentMissing => Fault::MissingWitness,
        SynthesisError::DivisionByZero => Fault::DivisionByZero,
        SynthesisError::Unsatisfiable => Fault::Unsatisfied(None),
        SynthesisError::PolynomialDegreeTooLarge => Fault::PolynomialDegreeTooLarge,
        SynthesisError::UnexpectedIdentity => Fault::UnexpectedIdentity,
        SynthesisError::IoError(_) => Fault::Io,
        SynthesisError::MalformedVerifyingKey => Fault::ParameterMismatch,
        SynthesisError::UnconstrainedVariable => Fault::Unconstrained(None),
    }
}

/// Sorts an error of synthesis or of the backend into the failures.
pub fn classify(e: SynthesisError) -> (r: RelationError)
    ensures
        r@ == classified(e),
{
    match e {
        SynthesisError::AssignmentMissing => RelationError::MissingWitness,
        SynthesisError::DivisionByZero => RelationError::DivisionByZero,
        SynthesisError::Unsatisfiable => RelationError::Unsatisfied(None),
        SynthesisError::PolynomialDegreeTooLarge => RelationError::PolynomialDegreeTooLarge,
        SynthesisError::UnexpectedIdentity => RelationError::UnexpectedIdentity,
        SynthesisError::IoError(_) => RelationError::Io,
        SynthesisError::MalformedVerifyingKey => RelationError::ParameterMismatch,
        SynthesisError::UnconstrainedVariable => RelationError::Unconstrained(None),
    }
}

/// What a check of a synthesized circuit amounts to: the failure of
/// synthesis if it failed, else the variables that nothing constrains,
/// else the first constraint that does not hold, else success.
pub open spec fn verdict_of(
    synthesis: Result<(), SynthesisError>,
    unconstrained: Seq<char>,
    unsatisfied: Option<Seq<char>>,
) -> Result<(), Fault> {
    match synthesis {
        Err(e) => Err(classified(e)),
        Ok(_) => if unconstrained.len() != 0 {
            Err(Fault::Unconstrained(Some(unconstrained)))
        } else {
            match unsatisfied {
                Some(path) => Err(Fault::Unsatisfied(Some(path))),
                None => Ok(()),
            }
        },
    }
}

/// Decides what a check of a synthesized circuit amounts to, from the
/// result of synthesis and from what the constraint system reports.
pub fn verdict(
    synthesis: Result<(), SynthesisError>,
    unconstrained: String,
    unsatisfied: Option<String>,
) -> (r: Result<(), RelationError>)
    ensures
        outcome_view(r) == verdict_of(
            synthesis,
            unconstrained@,
            match unsatisfied {
                Some(path) => Some(path@),
                None => None,
            },
        ),
{
    match synthesis {
        Err(e) => Err(classify(e)),
        Ok(_) => {
            if !unconstrained.as_str().is_empty() {
                Err(RelationError::Unconstrained(Some(unconstrained)))
            } else {
                match unsatisfied {
                    Some(path) => Err(RelationError::Unsatisfied(Some(path))),
                    None => Ok(()),
                }
            }
        },
    }
}

/// No error of synthesis or of the backend is taken for another kind of
/// failure than its own: want of a value, a division by zero and an
/// unconstrained variable are faults of construction, a malformed key is a
/// mismatch of parameters, and the rest are the backend's.
pub proof fn lemma_kinds_kept_apart(e: SynthesisError)
    ensures
        classified(e).kind() == ErrorKind::Construction <==> e is AssignmentMissing || e
            is DivisionByZero || e is UnconstrainedVariable,
        classified(e).kind() == ErrorKind::ParameterMismatch <==> e is MalformedVerifyingKey,
        classified(e).kind() == ErrorKind::Unsatisfied <==> e is Unsatisfiable,
        classified(e).kind() == ErrorKind::Backend <==> e is PolynomialDegreeTooLarge || e
            is UnexpectedIdentity || e is IoError,
{
}

} // verus!
