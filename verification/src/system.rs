//! A constraint system that records what a circuit allocates and enforces,
//! and the gadgets that are synthesized into it.

use vstd::prelude::*;
use bellman_ce::pairing::bn256::Bn256;
use bellman_ce::pairing::bn256::Fr;
use bellman_ce::pairing::bn256::FrRepr;
use bellman_ce::pairing::ff::PrimeField;
use bellman_ce::ConstraintSystem;
use bellman_ce::SynthesisError;
use sapling_crypto_ce::circuit::boolean::Boolean;
use sapling_crypto_ce::circuit::num::AllocatedNum;
use sapling_crypto_ce::circuit::pedersen_hash;
use sapling_crypto_ce::circuit::test::TestConstraintSystem;
use sapling_crypto_ce::circuit::Assignment;
use crate::hash::pedersen_x;
use crate::scalar::bit_of;
use crate::scalar::bits_le;
use crate::scalar::Scalar;
use crate::scalar::NUM_BITS;
use crate::tables::Tables;
use crate::tags::Personalization;

verus! {

/// Largest number of bits that the hash gadget takes. With the six bits of
/// the tag in front they fill four segments of sixty-two windows of three
/// bits; the gadget fetches the generators of one segment more than it
/// fills, and there are generators for five.
pub const GADGET_CAPACITY: usize = 738;

/// The error that the standard library's input and output report:
/// `std::io::Error`.
#[verifier::external_type_specification]
#[verifier::external_body]
pub struct ExIoError(std::io::Error);

/// The error that circuit synthesis and the proving backend report:
/// `bellman_ce::SynthesisError`.
#[verifier::external_type_specification]
pub struct ExSynthesisError(SynthesisError);

/// A bit of a circuit, constant or allocated:
/// `sapling_crypto_ce::circuit::boolean::Boolean`.
#[verifier::external_type_specification]
#[verifier::external_body]
pub struct ExBoolean(Boolean);

/// A constraint system that keeps every variable with its value and every
/// constraint with its name. It holds a
/// `sapling_crypto_ce::circuit::test::TestConstraintSystem` over BN256,
/// always at its root namespace.
#[verifier::external_body]
pub struct ConstraintLog {
    inner: TestConstraintSystem<Bn256>,
}

/// A field element allocated in a constraint system: a variable, with its
/// value where that is known. It holds a
/// `sapling_crypto_ce::circuit::num::AllocatedNum` over BN256.
#[verifier::external_body]
pub struct AllocatedScalar {
    inner: AllocatedNum<Bn256>,
}

/// The paths of all namespaces, variables and constraints that a
/// constraint system has registered.
pub uninterp spec fn recorded_paths(cs: ConstraintLog) -> Set<Seq<char>>;

/// The values of the public inputs of a constraint system, in the order
/// of their allocation. The first is the constant one.
pub uninterp spec fn recorded_inputs(cs: ConstraintLog) -> Seq<nat>;

/// The values of the private variables of a constraint system, in the
/// order of their allocation.
pub uninterp spec fn recorded_private(cs: ConstraintLog) -> Seq<nat>;

/// The paths of the constraints of a constraint system, in the order of
/// their enforcement.
pub uninterp spec fn recorded_constraints(cs: ConstraintLog) -> Seq<Seq<char>>;

/// The path of the first constraint, in the order of their enforcement,
/// that the recorded values do not satisfy.
pub uninterp spec fn unsatisfied_path(cs: ConstraintLog) -> Option<Seq<char>>;

/// The paths of the variables that no constraint mentions, each on a line
/// of its own between two line feeds; empty if every variable is mentioned.
pub uninterp spec fn unconstrained_report(cs: ConstraintLog) -> Seq<char>;

/// The value that an allocated field element carries, where it is known.
pub uninterp spec fn allocated_value(n: AllocatedScalar) -> Option<nat>;

/// The place of an allocated field element among the private variables of
/// the system that allocated it.
pub uninterp spec fn allocated_index(n: AllocatedScalar) -> nat;

/// The value that a bit of a circuit carries, where it is known.
pub uninterp spec fn bit_value(b: Boolean) -> Option<bool>;

/// The place of an allocated bit among the private variables of the
/// system that allocated it.
pub uninterp spec fn bit_index(b: Boolean) -> nat;

/// What the hash gadget does in the namespace `ns` with the bits `tag`,
/// followed by `bits`: the first coordinate of the point it arrives at,
/// the values of the private variables that it allocates on the way, in
/// their order, the paths that it registers, and the paths of the
/// constraints that it enforces, in their order; or nothing, where a point
/// addition divides by zero.
pub uninterp spec fn gadget_run(ns: Seq<char>, tag: Seq<bool>, bits: Seq<bool>) -> Option<
    (nat, Seq<nat>, Set<Seq<char>>, Seq<Seq<char>>),
>;

/// What a decomposition into bits registers in the namespace `ns`: the
/// paths, and the paths of the constraints in the order of their
/// enforcement.
pub uninterp spec fn decomposition_shape(ns: Seq<char>) -> (Set<Seq<char>>, Seq<Seq<char>>);

/// What the hash gadget computes and registers.
pub type Run = Option<(nat, Seq<nat>, Set<Seq<char>>, Seq<Seq<char>>)>;

/// The coordinate in what the hash gadget computes.
pub open spec fn run_x(run: Run) -> Option<nat> {
    match run {
        Some(found) => Some(found.0),
        None => None,
    }
}

/// The values of the private variables that the hash gadget allocates.
pub open spec fn run_private(run: Run) -> Seq<nat> {
    match run {
        Some(found) => found.1,
        None => Seq::empty(),
    }
}

/// The paths that the hash gadget registers.
pub open spec fn run_paths(run: Run) -> Set<Seq<char>> {
    match run {
        Some(found) => found.2,
        None => Set::empty(),
    }
}

/// The paths of the constraints that the hash gadget enforces.
pub open spec fn run_constraints(run: Run) -> Seq<Seq<char>> {
    match run {
        Some(found) => found.3,
        None => Seq::empty(),
    }
}

/// Whether two runs of the hash gadget have one shape: the same paths,
/// the same constraints, and as many private variables.
pub open spec fn same_shape(a: Run, b: Run) -> bool {
    &&& run_paths(a) == run_paths(b)
    &&& run_constraints(a) == run_constraints(b)
    &&& run_private(a).len() == run_private(b).len()
}

/// The paths that a decomposition into bits registers.
pub open spec fn shape_paths(shape: (Set<Seq<char>>, Seq<Seq<char>>)) -> Set<Seq<char>> {
    shape.0
}

/// The paths of the constraints that a decomposition into bits enforces.
pub open spec fn shape_constraints(shape: (Set<Seq<char>>, Seq<Seq<char>>)) -> Seq<Seq<char>> {
    shape.1
}

/// Whether `path` is the namespace `ns` or lies inside it.
pub open spec fn under(ns: Seq<char>, path: Seq<char>) -> bool {
    ns.is_prefix_of(path) && (path.len() == ns.len() || path[ns.len() as int] == '/')
}

/// Whether nothing is registered at `ns` or inside it.
pub open spec fn vacant(paths: Set<Seq<char>>, ns: Seq<char>) -> bool {
    forall|p: Seq<char>| paths.contains(p) ==> !under(ns, p)
}

/// Whether `after` holds all of `before`, holds `ns`, and holds nothing
/// else but paths inside `ns`.
pub open spec fn grown_under(before: Set<Seq<char>>, after: Set<Seq<char>>, ns: Seq<char>) -> bool {
    &&& before.subset_of(after)
    &&& after.contains(ns)
    &&& forall|p: Seq<char>| after.contains(p) ==> before.contains(p) || under(ns, p)
}

/// The path of what is called `name` inside the namespace `ns`.
pub open spec fn inside(ns: Seq<char>, name: Seq<char>) -> Seq<char> {
    ns + seq!['/'] + name
}

/// The numbers that a sequence of field elements stands for.
pub open spec fn values(elements: Seq<Scalar>) -> Seq<nat> {
    Seq::new(elements.len(), |i: int| elements[i].value())
}

/// Whether the inputs behind the first, the constant one, are `expected`.
pub open spec fn inputs_are(inputs: Seq<nat>, expected: Seq<nat>) -> bool {
    inputs.len() == expected.len() + 1 && inputs.subrange(1, inputs.len() as int) == expected
}

/// Whether an allocated field element is the private variable of `private`
/// at its place, with the value recorded there.
pub open spec fn tied(private: Seq<nat>, n: AllocatedScalar) -> bool {
    allocated_index(n) < private.len() && allocated_value(n) == Some(
        private[allocated_index(n) as int],
    )
}

/// Whether a bit is the private variable of `private` at its place, with
/// the value recorded there, which is zero or one.
pub open spec fn bit_tied(private: Seq<nat>, b: Boolean) -> bool {
    &&& bit_index(b) < private.len()
    &&& private[bit_index(b) as int] <= 1
    &&& bit_value(b) == Some(private[bit_index(b) as int] == 1)
}

/// Whether every bit is tied to `private`.
pub open spec fn bits_tied(private: Seq<nat>, bits: Seq<Boolean>) -> bool {
    forall|i: int| 0 <= i < bits.len() ==> bit_tied(private, #[trigger] bits[i])
}

/// The values of bits whose values are known.
pub open spec fn bit_values(bits: Seq<Boolean>) -> Seq<bool> {
    Seq::new(bits.len(), |i: int| bit_value(bits[i]) == Some(true))
}

/// Bits as numbers: one for a set bit, zero for a clear one.
pub open spec fn bit_numbers(bits: Seq<bool>) -> Seq<nat> {
    Seq::new(
        bits.len(),
        |i: int|
            if bits[i] {
                1nat
            } else {
                0nat
            },
    )
}

/// What enforcing one more constraint at `path` leaves as the first
/// unsatisfied constraint: the one that was, else the new one unless it holds.
pub open spec fn first_unsatisfied(before: Option<Seq<char>>, path: Seq<char>, holds: bool) -> Option<
    Seq<char>,
> {
    if before is Some || holds {
        before
    } else {
        Some(path)
    }
}

/// Makes an empty constraint system with `TestConstraintSystem::new`. Its
/// only registered path, and its only input, is the constant one; it has
/// no private variable and no constraint.
#[verifier::external_body]
fn new_log() -> (cs: ConstraintLog)
    ensures
        recorded_paths(cs) == set!["ONE"@],
        recorded_inputs(cs) == seq![1nat],
        recorded_private(cs) == Seq::<nat>::empty(),
        recorded_constraints(cs) == Seq::<Seq<char>>::empty(),
        unsatisfied_path(cs) is None,
{
    ConstraintLog { inner: TestConstraintSystem::new() }
}

/// Allocates a private variable with `AllocatedNum::alloc`, in the
/// namespace `ns`. Without a value the call fails when the namespace has
/// been registered, and allocates nothing. With a value it succeeds: the
/// variable is registered as `num` inside `ns` and put behind the private
/// variables that exist, and the result carries the value. No input is
/// allocated and no constraint enforced.
#[verifier::external_body]
pub(crate) fn alloc_num(cs: &mut ConstraintLog, ns: &str, value: Option<Scalar>) -> (r: Result<
    AllocatedScalar,
    SynthesisError,
>)
    requires
        !ns@.contains('/'),
        vacant(recorded_paths(*old(cs)), ns@),
    ensures
        grown_under(recorded_paths(*old(cs)), recorded_paths(*final(cs)), ns@),
        recorded_inputs(*final(cs)) == recorded_inputs(*old(cs)),
        recorded_constraints(*final(cs)) == recorded_constraints(*old(cs)),
        unsatisfied_path(*final(cs)) == unsatisfied_path(*old(cs)),
        value is None ==> {
            &&& r is Err
            &&& r->Err_0 is AssignmentMissing
            &&& recorded_paths(*final(cs)) == recorded_paths(*old(cs)).insert(ns@)
            &&& recorded_private(*final(cs)) == recorded_private(*old(cs))
        },
        value is Some ==> {
            &&& r is Ok
            &&& allocated_value(r->Ok_0) == Some(value->0@)
            &&& allocated_index(r->Ok_0) == recorded_private(*old(cs)).len()
            &&& recorded_paths(*final(cs)) == recorded_paths(*old(cs)).insert(ns@).insert(
                inside(ns@, "num"@),
            )
            &&& recorded_private(*final(cs)) == recorded_private(*old(cs)).push(value->0@)
        },
{
    let value = value.map(|v| Fr::from_repr(FrRepr(v.limbs())).unwrap());
    let inner = AllocatedNum::alloc(cs.inner.namespace(|| ns), || Ok(*value.get()?))?;
    Ok(AllocatedScalar { inner })
}

/// Makes a variable of this system public with `AllocatedNum::inputize`,
/// in the namespace `ns`: an input with the variable's value is put behind
/// the inputs that exist, registered as `input variable` inside `ns`, and
/// the constraint `enforce input is correct` inside `ns` makes it equal to
/// the variable, which holds. No private variable is allocated.
#[verifier::external_body]
pub(crate) fn inputize(cs: &mut ConstraintLog, ns: &str, num: &AllocatedScalar) -> (r: Result<
    (),
    SynthesisError,
>)
    requires
        !ns@.contains('/'),
        vacant(recorded_paths(*old(cs)), ns@),
        tied(recorded_private(*old(cs)), *num),
    ensures
        r is Ok,
        grown_under(recorded_paths(*old(cs)), recorded_paths(*final(cs)), ns@),
        recorded_paths(*final(cs)) == recorded_paths(*old(cs)).insert(ns@).insert(
            inside(ns@, "input variable"@),
        ).insert(inside(ns@, "enforce input is correct"@)),
        recorded_inputs(*final(cs)) == recorded_inputs(*old(cs)).push(allocated_value(*num)->0),
        recorded_private(*final(cs)) == recorded_private(*old(cs)),
        recorded_constraints(*final(cs)) == recorded_constraints(*old(cs)).push(
            inside(ns@, "enforce input is correct"@),
        ),
        unsatisfied_path(*final(cs)) == unsatisfied_path(*old(cs)),
{
    num.inner.inputize(cs.inner.namespace(|| ns))
}

/// Decomposes a variable of this system into bits with
/// `AllocatedNum::into_bits_le`, in the namespace `ns`. The bits are those
/// of the variable's value, least significant first, as many as the
/// field's width; each is a private variable of value zero or one, put
/// behind those that exist, in that order. One constraint for each bit
/// and one for their sum are enforced, and they hold. What is registered
/// depends on the namespace alone. No input is allocated.
#[verifier::external_body]
pub(crate) fn into_bits_le(cs: &mut ConstraintLog, ns: &str, num: &AllocatedScalar) -> (r: Result<
    Vec<Boolean>,
    SynthesisError,
>)
    requires
        !ns@.contains('/'),
        vacant(recorded_paths(*old(cs)), ns@),
        tied(recorded_private(*old(cs)), *num),
    ensures
        r is Ok,
        r->Ok_0@.len() == NUM_BITS,
        forall|i: int|
            0 <= i < NUM_BITS ==> bit_index(#[trigger] r->Ok_0@[i]) == recorded_private(*old(cs)).len()
                + i && bit_value(r->Ok_0@[i]) == Some(bit_of(allocated_value(*num)->0, i as nat)),
        grown_under(recorded_paths(*old(cs)), recorded_paths(*final(cs)), ns@),
        recorded_inputs(*final(cs)) == recorded_inputs(*old(cs)),
        recorded_private(*final(cs)) == recorded_private(*old(cs)) + bit_numbers(
            bits_le(allocated_value(*num)->0, NUM_BITS as nat),
        ),
        recorded_paths(*final(cs)) == recorded_paths(*old(cs)).union(
            shape_paths(decomposition_shape(ns@)),
        ),
        recorded_constraints(*final(cs)) == recorded_constraints(*old(cs)) + shape_constraints(
            decomposition_shape(ns@),
        ),
        recorded_constraints(*final(cs)).len() == recorded_constraints(*old(cs)).len() + NUM_BITS + 1,
        unsatisfied_path(*final(cs)) == unsatisfied_path(*old(cs)),
{
    num.inner.into_bits_le(cs.inner.namespace(|| ns))
}

/// Synthesizes the Pedersen hash of bits of this system with
/// `sapling_crypto_ce::circuit::pedersen_hash::pedersen_hash`, in the
/// namespace `ns`, and hands back the first coordinate of the resulting
/// point. What comes of it depends on the namespace, the personalization
/// and the values of the bits alone: the call fails, on a division by
/// zero, where `gadget_run` gives nothing; else the result carries the
/// coordinate, the gadget's private variables are put behind those that
/// exist, the result among them, and the constraints that it enforces
/// hold. The coordinate is the one that the hash outside the circuit
/// arrives at, to which the curve library's own tests hold the gadget.
/// What is registered, and how many variables are allocated, is the same
/// for every run that succeeds on as many bits. No input is allocated.
#[verifier::external_body]
pub(crate) fn hash_gadget(
    cs: &mut ConstraintLog,
    ns: &str,
    personalization: Personalization,
    bits: &Vec<Boolean>,
    tables: &Tables,
) -> (r: Result<AllocatedScalar, SynthesisError>)
    requires
        !ns@.contains('/'),
        vacant(recorded_paths(*old(cs)), ns@),
        bits@.len() <= GADGET_CAPACITY,
        bits_tied(recorded_private(*old(cs)), bits@),
    ensures
        grown_under(recorded_paths(*old(cs)), recorded_paths(*final(cs)), ns@),
        recorded_inputs(*final(cs)) == recorded_inputs(*old(cs)),
        recorded_private(*old(cs)).is_prefix_of(recorded_private(*final(cs))),
        recorded_constraints(*old(cs)).is_prefix_of(recorded_constraints(*final(cs))),
        r is Ok <==> gadget_run(ns@, personalization@, bit_values(bits@)) is Some,
        r is Err ==> r->Err_0 is DivisionByZero,
        r is Ok ==> {
            &&& allocated_value(r->Ok_0) == run_x(gadget_run(ns@, personalization@, bit_values(bits@)))
            &&& allocated_value(r->Ok_0) == Some(pedersen_x(personalization@, bit_values(bits@)))
            &&& tied(recorded_private(*final(cs)), r->Ok_0)
            &&& recorded_private(*final(cs)) == recorded_private(*old(cs)) + run_private(
                gadget_run(ns@, personalization@, bit_values(bits@)),
            )
            &&& recorded_paths(*final(cs)) == recorded_paths(*old(cs)).union(
                run_paths(gadget_run(ns@, personalization@, bit_values(bits@))),
            )
            &&& recorded_constraints(*final(cs)) == recorded_constraints(*old(cs)) + run_constraints(
                gadget_run(ns@, personalization@, bit_values(bits@)),
            )
            &&& unsatisfied_path(*final(cs)) == unsatisfied_path(*old(cs))
        },
        r is Ok ==> forall|tag: Seq<bool>, other: Seq<bool>|
            tag.len() == personalization@.len() && other.len() == bits@.len() && (#[trigger] gadget_run(
                ns@,
                tag,
                other,
            )) is Some ==> same_shape(
                gadget_run(ns@, tag, other),
                gadget_run(ns@, personalization@, bit_values(bits@)),
            ),
{
    let tag = match personalization.tree_level() {
        None => pedersen_hash::Personalization::NoteCommitment,
        Some(n) => pedersen_hash::Personalization::MerkleTree(n),
    };
    let point = pedersen_hash::pedersen_hash(cs.inner.namespace(|| ns), tag, &bits[..], tables.curve())?;
    Ok(AllocatedScalar { inner: point.get_x().clone() })
}

/// Enforces with `ConstraintSystem::enforce` that `left` times one equals
/// `right`, both variables of this system, under the name `name`. The
/// constraint holds exactly when the two values are the same. Nothing
/// else is registered, and no variable is allocated.
#[verifier::external_body]
pub(crate) fn enforce_equal(
    cs: &mut ConstraintLog,
    name: &str,
    left: &AllocatedScalar,
    right: &AllocatedScalar,
)
    requires
        !name@.contains('/'),
        !recorded_paths(*old(cs)).contains(name@),
        tied(recorded_private(*old(cs)), *left),
        tied(recorded_private(*old(cs)), *right),
    ensures
        recorded_paths(*final(cs)) == recorded_paths(*old(cs)).insert(name@),
        recorded_inputs(*final(cs)) == recorded_inputs(*old(cs)),
        recorded_private(*final(cs)) == recorded_private(*old(cs)),
        recorded_constraints(*final(cs)) == recorded_constraints(*old(cs)).push(name@),
        unsatisfied_path(*final(cs)) == first_unsatisfied(
            unsatisfied_path(*old(cs)),
            name@,
            allocated_value(*left) == allocated_value(*right),
        ),
{
    cs.inner.enforce(
        || name,
        |lc| lc + left.inner.get_variable(),
        |lc| lc + TestConstraintSystem::<Bn256>::one(),
        |lc| lc + right.inner.get_variable(),
    );
}

/// Asks `TestConstraintSystem::which_is_unsatisfied` for the first
/// constraint that does not hold.
#[verifier::external_body]
fn which_is_unsatisfied(cs: &ConstraintLog) -> (r: Option<String>)
    ensures
        r is Some <==> unsatisfied_path(*cs) is Some,
        r matches Some(path) ==> unsatisfied_path(*cs) == Some(path@),
{
    cs.inner.which_is_unsatisfied().map(|path| path.to_string())
}

/// Asks `TestConstraintSystem::find_unconstrained` for the variables that
/// no constraint mentions.
#[verifier::external_body]
fn find_unconstrained(cs: &ConstraintLog) -> (r: String)
    ensures
        r@ == unconstrained_report(*cs),
{
    cs.inner.find_unconstrained()
}

/// Counts the inputs with `TestConstraintSystem::num_inputs`, the
/// constant one among them.
#[verifier::external_body]
fn num_inputs(cs: &ConstraintLog) -> (r: usize)
    ensures
        r == recorded_inputs(*cs).len(),
{
    cs.inner.num_inputs()
}

/// Compares the inputs behind the constant one with `expected`, using
/// `TestConstraintSystem::verify`, which wants as many values as there
/// are such inputs.
#[verifier::external_body]
fn inputs_equal(cs: &ConstraintLog, expected: &Vec<Scalar>) -> (r: bool)
    requires
        expected@.len() + 1 == recorded_inputs(*cs).len(),
    ensures
        r <==> recorded_inputs(*cs).subrange(1, recorded_inputs(*cs).len() as int) == values(
            expected@,
        ),
{
    let wanted: Vec<Fr> = expected.iter().map(|v| Fr::from_repr(FrRepr(v.limbs())).unwrap()).collect();
    cs.inner.verify(&wanted)
}

impl ConstraintLog {
    /// An empty constraint system: nothing is registered but the constant
    /// one, which is its only input, and there is neither a private
    /// variable nor a constraint.
    pub fn new() -> (cs: ConstraintLog)
        ensures
            recorded_paths(cs) == set!["ONE"@],
            recorded_inputs(cs) == seq![1nat],
            recorded_private(cs) == Seq::<nat>::empty(),
            recorded_constraints(cs) == Seq::<Seq<char>>::empty(),
            unsatisfied_path(cs) is None,
    {
        new_log()
    }

    /// The path of the first constraint that the recorded values do not
    /// satisfy, if there is one.
    pub fn which_is_unsatisfied(&self) -> (r: Option<String>)
        ensures
            r is Some <==> unsatisfied_path(*self) is Some,
            r matches Some(path) ==> unsatisfied_path(*self) == Some(path@),
    {
        which_is_unsatisfied(self)
    }

    /// The paths of the variables that no constraint mentions; empty if
    /// there is none.
    pub fn find_unconstrained(&self) -> (r: String)
        ensures
            r@ == unconstrained_report(*self),
    {
        find_unconstrained(self)
    }

    /// Whether the public inputs behind the constant one are exactly
    /// `expected`, in that order.
    pub fn has_inputs(&self, expected: &Vec<Scalar>) -> (r: bool)
        ensures
            r <==> inputs_are(recorded_inputs(*self), values(expected@)),
    {
        let count: usize = num_inputs(self);
        if count == 0 || count - 1 != expected.len() {
            false
        } else {
            inputs_equal(self, expected)
        }
    }
}

} // verus!
