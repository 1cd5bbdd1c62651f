//! The relation between a preimage and its Pedersen hash, as a circuit.

use vstd::prelude::*;
use bellman_ce::SynthesisError;
use crate::failure::Fault;
use crate::failure::RelationError;
use crate::failure::verdict;
use crate::scalar::NUM_BITS;
use crate::scalar::Scalar;
use crate::scalar::limbs_value;
use crate::scalar::modulus;
use crate::shape::ParameterKey;
use crate::shape::SEGMENT_WINDOWS;
use crate::shape::WINDOW_BITS;
use crate::shape::parts_needed;
use crate::shape::segment_count;
use crate::shape::window_count;
use crate::system::ConstraintLog;
use crate::system::alloc_num;
use crate::system::enforce_equal;
use crate::system::grown_under;
use crate::system::hash_gadget;
use crate::system::inputize;
use crate::system::inputs_are;
use crate::system::into_bits_le;
use crate::system::recorded_inputs;
use crate::system::recorded_paths;
use crate::system::recorded_private;
use crate::system::unconstrained_report;
use crate::system::allocated_index;
use crate::system::allocated_value;
use crate::system::bit_numbers;
use crate::system::bit_values;
use crate::system::bits_tied;
use crate::system::first_unsatisfied;
use crate::system::gadget_run;
use crate::system::inside;
use crate::system::recorded_constraints;
use crate::system::run_constraints;
use crate::system::run_paths;
use crate::system::run_private;
use crate::system::same_shape;
use crate::system::shape_constraints;
use crate::system::shape_paths;
use crate::system::decomposition_shape;
use crate::system::Run;
use crate::system::run_x;
use crate::system::tied;
use crate::system::AllocatedScalar;
use crate::failure::outcome_view;
use crate::hash::hash_of;
use crate::scalar::bits_le;
use crate::system::under;
use crate::system::unsatisfied_path;
use crate::system::vacant;
use crate::system::values;
use crate::tables::Tables;
use crate::tags::Personalization;
use crate::tags::TAG_BITS;

verus! {

/// The names under which the circuit registers its parts, in the order of
/// their synthesis.
pub open spec fn part_names() -> Seq<Seq<char>> {
    seq![
        "hash"@,
        "hash input"@,
        "preimage"@,
        "preimage input"@,
        "preimage into bits"@,
        "hash calculated"@,
        "add constraint between input and pedersen hash output"@,
    ]
}

/// The parts of the circuit, in the order of their synthesis.
#[derive(Clone, Copy, Debug, PartialEq, Eq, Structural)]
pub enum Part {
    /// The hash, as a private variable.
    Hash,
    /// The public input that is constrained to equal the hash.
    HashInput,
    /// The preimage, as a private variable.
    Preimage,
    /// The public input that is constrained to equal the preimage.
    PreimageInput,
    /// The bits of the preimage.
    PreimageBits,
    /// The hash that the circuit computes from the bits.
    HashCalculated,
    /// The constraint that the computed hash equals the disclosed one.
    Binding,
}

impl Part {
    /// The place of this part among the parts.
    pub open spec fn index(self) -> int {
        match self {
            Part::Hash => 0,
            Part::HashInput => 1,
            Part::Preimage => 2,
            Part::PreimageInput => 3,
            Part::PreimageBits => 4,
            Part::HashCalculated => 5,
            Part::Binding => 6,
        }
    }

    /// The name under which this part is registered.
    pub fn name(self) -> (r: &'static str)
        ensures
            r@ == part_names()[self.index()],
    {
        match self {
            Part::Hash => "hash",
            Part::HashInput => "hash input",
            Part::Preimage => "preimage",
            Part::PreimageInput => "preimage input",
            Part::PreimageBits => "preimage into bits",
            Part::HashCalculated => "hash calculated",
            Part::Binding => "add constraint between input and pedersen hash output",
        }
    }
}

/// Whether `path` is one of the circuit's parts or lies inside one.
pub open spec fn in_circuit(path: Seq<char>) -> bool {
    exists|i: int| 0 <= i < part_names().len() && under(#[trigger] part_names()[i], path)
}

/// Whether a constraint system has room for the circuit: nothing is
/// registered under any of the names of its parts.
pub open spec fn has_room(paths: Set<Seq<char>>) -> bool {
    forall|i: int| 0 <= i < part_names().len() ==> vacant(paths, #[trigger] part_names()[i])
}

/// Two different names without a separator have nothing in common: no
/// path lies under both.
pub proof fn lemma_names_apart(a: Seq<char>, b: Seq<char>, path: Seq<char>)
    requires
        a != b,
        !a.contains('/'),
        !b.contains('/'),
        under(a, path),
    ensures
        !under(b, path),
{
    if under(b, path) {
        if a.len() == b.len() {
            assert(a =~= b);
        } else if a.len() < b.len() {
            assert(path[a.len() as int] == '/');
            assert(b[a.len() as int] == path.subrange(0, b.len() as int)[a.len() as int]);
            assert(b.contains('/'));
        } else {
            assert(path[b.len() as int] == '/');
            assert(a[b.len() as int] == path.subrange(0, a.len() as int)[b.len() as int]);
            assert(a.contains('/'));
        }
    }
}

/// The names of the parts are all different, and none holds a separator.
pub proof fn lemma_part_names()
    ensures
        part_names().len() == 7,
        forall|i: int| 0 <= i < 7 ==> (#[trigger] part_names()[i]).len() > 3,
        forall|i: int| 0 <= i < 7 ==> !(#[trigger] part_names()[i]).contains('/'),
        forall|i: int, j: int|
            0 <= i < 7 && 0 <= j < 7 && i != j ==> #[trigger] part_names()[i] != #[trigger] part_names()[j],
{
    reveal_strlit("hash");
    reveal_strlit("hash input");
    reveal_strlit("preimage");
    reveal_strlit("preimage input");
    reveal_strlit("preimage into bits");
    reveal_strlit("hash calculated");
    reveal_strlit("add constraint between input and pedersen hash output");
    let names = part_names();
    assert(names[0].len() == 4);
    assert(names[1].len() == 10);
    assert(names[2].len() == 8);
    assert(names[3].len() == 14);
    assert(names[4].len() == 18);
    assert(names[5].len() == 15);
    assert(names[6].len() == 53);
}

/// Whether the parts from index `k` on still have room.
pub open spec fn room_from(paths: Set<Seq<char>>, k: int) -> bool {
    forall|i: int| k <= i < part_names().len() ==> vacant(paths, #[trigger] part_names()[i])
}

/// Whether `now` holds all of `start` and nothing else but paths of the circuit.
pub open spec fn framed(start: Set<Seq<char>>, now: Set<Seq<char>>) -> bool {
    start.subset_of(now) && forall|p: Seq<char>| now.contains(p) ==> start.contains(p) || in_circuit(p)
}

/// Synthesizing part `k` under its name keeps the frame, and leaves room
/// for the parts behind it.
proof fn lemma_part_done(start: Set<Seq<char>>, before: Set<Seq<char>>, after: Set<Seq<char>>, k: int)
    requires
        0 <= k < 7,
        framed(start, before),
        room_from(before, k),
        grown_under(before, after, part_names()[k]),
    ensures
        framed(start, after),
        room_from(after, k + 1),
        after.contains(part_names()[k]),
{
    lemma_part_names();
    assert forall|p: Seq<char>| after.contains(p) implies start.contains(p) || in_circuit(p) by {
        if !before.contains(p) {
            assert(under(part_names()[k], p));
        }
    }
    assert forall|i: int| k + 1 <= i < 7 implies vacant(after, #[trigger] part_names()[i]) by {
        assert(vacant(before, part_names()[i]));
        assert forall|p: Seq<char>| after.contains(p) implies !under(part_names()[i], p) by {
            if !before.contains(p) {
                lemma_names_apart(part_names()[k], part_names()[i], p);
            }
        }
    }
}

/// An empty constraint system has room for the circuit.
pub proof fn lemma_fresh_has_room()
    ensures
        has_room(set!["ONE"@]),
{
    lemma_part_names();
    reveal_strlit("ONE");
}

/// What begins a beginning of a sequence begins the sequence.
proof fn lemma_prefix_chain<T>(a: Seq<T>, b: Seq<T>, c: Seq<T>)
    requires
        a.is_prefix_of(b),
        b.is_prefix_of(c),
    ensures
        a.is_prefix_of(c),
        forall|i: int| 0 <= i < b.len() ==> b[i] == c[i],
{
    assert forall|i: int| 0 <= i < b.len() implies b[i] == c[i] by {
        assert(b[i] == c.subrange(0, b.len() as int)[i]);
    }
    assert forall|i: int| 0 <= i < a.len() implies a[i] == c[i] by {
        assert(a[i] == b.subrange(0, a.len() as int)[i]);
    }
    assert(a =~= c.subrange(0, a.len() as int));
}

/// What the allocation of a variable registers in the namespace `ns`.
pub open spec fn allocated_paths(ns: Seq<char>) -> Set<Seq<char>> {
    set![ns, inside(ns, "num"@)]
}

/// What making a variable public registers in the namespace `ns`.
pub open spec fn published_paths(ns: Seq<char>) -> Set<Seq<char>> {
    set![ns, inside(ns, "input variable"@), inside(ns, "enforce input is correct"@)]
}

/// One instance of the relation: the hash that is disclosed, the preimage
/// that is claimed to hash to it, and the domain of the hash. While
/// parameters are set up neither value is known; for a proof both are.
#[derive(Clone, Copy)]
pub struct PedersenDemo<'a> {
    /// The curve constants and generator tables.
    pub params: &'a Tables,
    /// The domain of the hash.
    pub personalization: Personalization,
    /// Whether the preimage is a public input behind the hash.
    pub disclose_preimage: bool,
    /// The disclosed hash.
    pub hash: Option<Scalar>,
    /// The preimage.
    pub preimage: Option<Scalar>,
}

impl<'a> PedersenDemo<'a> {
    /// Number of public inputs that the circuit allocates.
    pub open spec fn public_count(self) -> nat {
        if self.disclose_preimage {
            2
        } else {
            1
        }
    }

    /// Whether both values are known.
    pub open spec fn known(self) -> bool {
        self.hash is Some && self.preimage is Some
    }

    /// The bits of the preimage, least significant first.
    pub open spec fn preimage_bits(self) -> Seq<bool>
        recommends
            self.preimage is Some,
    {
        bits_le(self.preimage->0@, NUM_BITS as nat)
    }

    /// What the hash gadget computes from the bits of the preimage.
    pub open spec fn run(self) -> Run
        recommends
            self.preimage is Some,
    {
        gadget_run(part_names()[5], self.personalization@, self.preimage_bits())
    }

    /// The paths that the circuit registers when its synthesis succeeds.
    pub open spec fn circuit_paths(self) -> Set<Seq<char>>
        recommends
            self.known(),
    {
        allocated_paths(part_names()[0]).union(published_paths(part_names()[1])).union(
            allocated_paths(part_names()[2]),
        ).union(
            if self.disclose_preimage {
                published_paths(part_names()[3])
            } else {
                Set::empty()
            },
        ).union(shape_paths(decomposition_shape(part_names()[4]))).union(run_paths(self.run())).insert(
            part_names()[6],
        )
    }

    /// The paths of the constraints that the circuit enforces when its
    /// synthesis succeeds, in their order.
    pub open spec fn circuit_constraints(self) -> Seq<Seq<char>>
        recommends
            self.known(),
    {
        seq![inside(part_names()[1], "enforce input is correct"@)] + (if self.disclose_preimage {
            seq![inside(part_names()[3], "enforce input is correct"@)]
        } else {
            Seq::empty()
        }) + shape_constraints(decomposition_shape(part_names()[4])) + run_constraints(self.run())
            + seq![part_names()[6]]
    }

    /// Whether the circuit of `other` has the shape of this one: the same
    /// paths, the same constraints in the same order, and as many private
    /// variables.
    pub open spec fn shares_shape(self, other: Self) -> bool
        recommends
            self.known(),
            other.known(),
    {
        &&& self.circuit_paths() == other.circuit_paths()
        &&& self.circuit_constraints() == other.circuit_constraints()
        &&& self.witness_head().len() + run_private(self.run()).len() == other.witness_head().len()
            + run_private(other.run()).len()
    }

    /// The values of the private variables, in the order of their
    /// allocation, up to the hash gadget: the hash, the preimage, and the
    /// bits of the preimage as zeros and ones.
    pub open spec fn witness_head(self) -> Seq<nat>
        recommends
            self.known(),
    {
        seq![self.hash->0@, self.preimage->0@] + bit_numbers(self.preimage_bits())
    }

    /// Whether the hash that the gadget computes is the disclosed one.
    pub open spec fn binding_holds(self) -> bool
        recommends
            self.known(),
    {
        run_x(self.run()) == Some(self.hash->0@)
    }

    /// Whether the circuit has the part of index `i`: it has them all,
    /// but for the input of a preimage that is not disclosed.
    pub open spec fn has_part(self, i: int) -> bool {
        0 <= i < 7 && (i == Part::PreimageInput.index() ==> self.disclose_preimage)
    }

    /// The values of the public inputs, in their order: the hash, and
    /// behind it the preimage if it is disclosed.
    pub open spec fn public_values(self) -> Seq<nat>
        recommends
            self.hash is Some,
            self.disclose_preimage ==> self.preimage is Some,
    {
        if self.disclose_preimage {
            seq![self.hash->0@, self.preimage->0@]
        } else {
            seq![self.hash->0@]
        }
    }

    /// What parameters for this circuit are made for. The values play no part in it.
    pub open spec fn key(self) -> ParameterKey {
        ParameterKey {
            personalization: self.personalization,
            segments: parts_needed(
                parts_needed((TAG_BITS + NUM_BITS) as nat, WINDOW_BITS as nat),
                SEGMENT_WINDOWS as nat,
            ) as usize,
            window_bits: WINDOW_BITS,
            public_inputs: self.public_count() as usize,
        }
    }

    /// The instance without values, as parameters are set up for it.
    pub fn blank(
        params: &'a Tables,
        personalization: Personalization,
        disclose_preimage: bool,
    ) -> (r: PedersenDemo<'a>)
        ensures
            r == (PedersenDemo { params, personalization, disclose_preimage, hash: None, preimage: None }),
    {
        PedersenDemo { params, personalization, disclose_preimage, hash: None, preimage: None }
    }

    /// The instance with the values that four limbs each stand for, lowest
    /// limb first. A value that does not lie below the modulus is refused.
    pub fn with_witness(
        params: &'a Tables,
        personalization: Personalization,
        disclose_preimage: bool,
        hash: [u64; 4],
        preimage: [u64; 4],
    ) -> (r: Result<PedersenDemo<'a>, RelationError>)
        ensures
            r is Ok <==> limbs_value(hash[0], hash[1], hash[2], hash[3]) < modulus() && limbs_value(
                preimage[0],
                preimage[1],
                preimage[2],
                preimage[3],
            ) < modulus(),
            r matches Err(e) ==> e@ == Fault::ValueOutOfRange,
            r matches Ok(d) ==> {
                &&& d.params == params
                &&& d.personalization == personalization
                &&& d.disclose_preimage == disclose_preimage
                &&& d.hash matches Some(h) && h@ == limbs_value(hash[0], hash[1], hash[2], hash[3])
                &&& d.preimage matches Some(p) && p@ == limbs_value(
                    preimage[0],
                    preimage[1],
                    preimage[2],
                    preimage[3],
                )
            },
    {
        match (Scalar::from_limbs(hash), Scalar::from_limbs(preimage)) {
            (Some(h), Some(p)) => Ok(
                PedersenDemo { params, personalization, disclose_preimage, hash: Some(h), preimage: Some(p) },
            ),
            _ => Err(RelationError::ValueOutOfRange),
        }
    }

    /// What parameters for this circuit are made for.
    pub fn shape(&self) -> (k: ParameterKey)
        ensures
            k == self.key(),
    {
        ParameterKey {
            personalization: self.personalization,
            segments: segment_count(window_count(TAG_BITS + NUM_BITS)),
            window_bits: WINDOW_BITS,
            public_inputs: if self.disclose_preimage {
                2
            } else {
                1
            },
        }
    }

    /// The public inputs, in their order, if their values are known.
    pub fn public_inputs(&self) -> (r: Option<Vec<Scalar>>)
        ensures
            r is Some <==> self.hash is Some && (self.disclose_preimage ==> self.preimage is Some),
            r matches Some(v) ==> values(v@) == self.public_values(),
    {
        match (self.hash, self.preimage, self.disclose_preimage) {
            (Some(h), Some(p), true) => {
                let v = vec![h, p];
                assert(values(v@) =~= self.public_values());
                Some(v)
            },
            (Some(h), _, false) => {
                let v = vec![h];
                assert(values(v@) =~= self.public_values());
                Some(v)
            },
            _ => None,
        }
    }

    /// Synthesizes the circuit into `cs`: the hash is allocated and made
    /// public, the preimage is allocated, made public if it is disclosed,
    /// and decomposed into bits, the bits are hashed, and the first
    /// coordinate of the result is constrained to equal the hash.
    ///
    /// A missing value stops synthesis at its allocation. With both values
    /// synthesis succeeds unless the hash gadget divides by zero; the
    /// constraints of all parts but the last hold, and the last holds
    /// exactly when the disclosed hash is the hash of the preimage, at
    /// which the gadget arrives.
    pub fn synthesize(self, cs: &mut ConstraintLog) -> (r: Result<(), SynthesisError>)
        requires
            has_room(recorded_paths(*old(cs))),
        ensures
            framed(recorded_paths(*old(cs)), recorded_paths(*final(cs))),
            recorded_constraints(*old(cs)).is_prefix_of(recorded_constraints(*final(cs))),
            self.hash is None ==> {
                &&& r is Err
                &&& r->Err_0 is AssignmentMissing
                &&& recorded_paths(*final(cs)) == recorded_paths(*old(cs)).insert(part_names()[0])
                &&& recorded_inputs(*final(cs)) == recorded_inputs(*old(cs))
                &&& recorded_private(*final(cs)) == recorded_private(*old(cs))
                &&& recorded_constraints(*final(cs)) == recorded_constraints(*old(cs))
                &&& unsatisfied_path(*final(cs)) == unsatisfied_path(*old(cs))
            },
            self.hash is Some && self.preimage is None ==> {
                &&& r is Err
                &&& r->Err_0 is AssignmentMissing
                &&& recorded_inputs(*final(cs)) == recorded_inputs(*old(cs)).push(self.hash->0@)
                &&& recorded_private(*final(cs)) == recorded_private(*old(cs)).push(self.hash->0@)
                &&& recorded_constraints(*final(cs)) == recorded_constraints(*old(cs)).push(
                    inside(part_names()[1], "enforce input is correct"@),
                )
                &&& recorded_paths(*final(cs)) == recorded_paths(*old(cs)).union(
                    allocated_paths(part_names()[0]),
                ).union(published_paths(part_names()[1])).insert(part_names()[2])
                &&& unsatisfied_path(*final(cs)) == unsatisfied_path(*old(cs))
            },
            self.known() ==> {
                &&& r is Ok <==> self.run() is Some
                &&& r is Err ==> r->Err_0 is DivisionByZero
                &&& recorded_inputs(*final(cs)) == recorded_inputs(*old(cs)) + self.public_values()
                &&& (recorded_private(*old(cs)) + self.witness_head()).is_prefix_of(
                    recorded_private(*final(cs)),
                )
            },
            r is Ok ==> {
                &&& recorded_private(*final(cs)) == recorded_private(*old(cs)) + self.witness_head()
                    + run_private(self.run())
                &&& recorded_paths(*final(cs)) == recorded_paths(*old(cs)).union(self.circuit_paths())
                &&& recorded_constraints(*final(cs)) == recorded_constraints(*old(cs))
                    + self.circuit_constraints()
                &&& unsatisfied_path(*final(cs)) == first_unsatisfied(
                    unsatisfied_path(*old(cs)),
                    part_names()[6],
                    self.binding_holds(),
                )
                &&& forall|i: int|
                    self.has_part(i) ==> recorded_paths(*final(cs)).contains(
                        #[trigger] part_names()[i],
                    )
            },
            r is Ok ==> forall|other: Self|
                other.known() && other.disclose_preimage == self.disclose_preimage && (
                #[trigger] other.run()) is Some ==> self.shares_shape(other),
            r is Ok ==> (self.binding_holds() <==> self.hash->0@ == hash_of(
                self.personalization,
                self.preimage->0@,
            )),
    {
        let ghost start = recorded_paths(*cs);
        let ghost inputs = recorded_inputs(*cs);
        let ghost private = recorded_private(*cs);
        let ghost constraints = recorded_constraints(*cs);
        proof {
            lemma_part_names();
            assert(constraints.is_prefix_of(constraints));
        }

        let ghost before = recorded_paths(*cs);
        let allocated = alloc_num(cs, Part::Hash.name(), self.hash);
        proof {
            lemma_part_done(start, before, recorded_paths(*cs), Part::Hash.index());
        }
        let hash = allocated?;

        let ghost before = recorded_paths(*cs);
        let published = inputize(cs, Part::HashInput.name(), &hash);
        proof {
            lemma_part_done(start, before, recorded_paths(*cs), Part::HashInput.index());
            assert(constraints.is_prefix_of(recorded_constraints(*cs)));
        }
        published?;
        let ghost with_hash = recorded_constraints(*cs);

        let ghost before = recorded_paths(*cs);
        let allocated = alloc_num(cs, Part::Preimage.name(), self.preimage);
        proof {
            lemma_part_done(start, before, recorded_paths(*cs), Part::Preimage.index());
        }
        let preimage = allocated?;

        if self.disclose_preimage {
            let ghost before = recorded_paths(*cs);
            let published = inputize(cs, Part::PreimageInput.name(), &preimage);
            proof {
                lemma_part_done(start, before, recorded_paths(*cs), Part::PreimageInput.index());
                assert(with_hash.is_prefix_of(recorded_constraints(*cs)));
                lemma_prefix_chain(constraints, with_hash, recorded_constraints(*cs));
            }
            published?;
        }
        let ghost published_all = recorded_constraints(*cs);
        let ghost published_paths_all = recorded_paths(*cs);
        let ghost two = recorded_private(*cs);
        proof {
            assert(published_paths_all =~= start.union(allocated_paths(part_names()[0])).union(
                published_paths(part_names()[1]),
            ).union(allocated_paths(part_names()[2])).union(
                if self.disclose_preimage {
                    published_paths(part_names()[3])
                } else {
                    Set::empty()
                },
            ));
            assert(published_all =~= constraints + seq![
                inside(part_names()[1], "enforce input is correct"@),
            ] + (if self.disclose_preimage {
                seq![inside(part_names()[3], "enforce input is correct"@)]
            } else {
                Seq::empty()
            }));
            assert(recorded_inputs(*cs) =~= inputs + self.public_values());
            assert(two =~= private + seq![self.hash->0@, self.preimage->0@]);
        }

        let ghost before = recorded_paths(*cs);
        let decomposed = into_bits_le(cs, Part::PreimageBits.name(), &preimage);
        proof {
            lemma_part_done(start, before, recorded_paths(*cs), Part::PreimageBits.index());
            lemma_prefix_chain(constraints, published_all, recorded_constraints(*cs));
        }
        let preimage_bits = decomposed?;
        let ghost decomposed_all = recorded_constraints(*cs);
        let ghost head = recorded_private(*cs);
        proof {
            assert(head =~= private + self.witness_head());
            assert(bit_values(preimage_bits@) =~= self.preimage_bits());
            assert(bits_tied(head, preimage_bits@));
        }

        let ghost before = recorded_paths(*cs);
        let hashed = hash_gadget(
            cs,
            Part::HashCalculated.name(),
            self.personalization,
            &preimage_bits,
            self.params,
        );
        proof {
            lemma_part_done(start, before, recorded_paths(*cs), Part::HashCalculated.index());
            lemma_prefix_chain(constraints, decomposed_all, recorded_constraints(*cs));
            lemma_tied_kept(head, recorded_private(*cs), hash);
        }
        let hash_calculated = hashed?;
        let ghost hashed_all = recorded_constraints(*cs);

        let ghost before = recorded_paths(*cs);
        enforce_equal(cs, Part::Binding.name(), &hash_calculated, &hash);
        proof {
            assert(under(part_names()[6], part_names()[6]));
            lemma_part_done(start, before, recorded_paths(*cs), Part::Binding.index());
            assert(hashed_all.is_prefix_of(recorded_constraints(*cs)));
            lemma_prefix_chain(constraints, hashed_all, recorded_constraints(*cs));
            assert(recorded_paths(*cs) =~= start.union(self.circuit_paths()));
            assert(recorded_constraints(*cs) =~= constraints + self.circuit_constraints());
            assert forall|other: Self|
                other.known() && other.disclose_preimage == self.disclose_preimage && (
                #[trigger] other.run()) is Some implies self.shares_shape(other) by {
                assert(other.preimage_bits().len() == self.preimage_bits().len());
                assert(other.personalization@.len() == self.personalization@.len());
                assert(same_shape(other.run(), self.run()));
                assert(other.circuit_paths() =~= self.circuit_paths());
                assert(other.circuit_constraints() =~= self.circuit_constraints());
            }
        }
        Ok(())
    }

    /// What a check of the witness amounts to, given the report of
    /// unconstrained variables of the synthesized system: a missing value
    /// first, then a division by zero in the hash gadget, then variables
    /// that nothing constrains, then a computed hash that is not the
    /// disclosed one, which leaves the last constraint unsatisfied.
    pub open spec fn witness_verdict(self, unconstrained: Seq<char>) -> Result<(), Fault> {
        if !self.known() {
            Err(Fault::MissingWitness)
        } else if self.run() is None {
            Err(Fault::DivisionByZero)
        } else if unconstrained.len() != 0 {
            Err(Fault::Unconstrained(Some(unconstrained)))
        } else if !self.binding_holds() {
            Err(Fault::Unsatisfied(Some(part_names()[6])))
        } else {
            Ok(())
        }
    }

    /// Synthesizes the circuit into an empty constraint system and checks
    /// the result before any proof is attempted: synthesis succeeded, every
    /// variable is constrained, and every constraint holds. The system is
    /// handed back with the verdict.
    pub fn check_witness(self) -> (r: (ConstraintLog, Result<(), RelationError>))
        ensures
            outcome_view(r.1) == self.witness_verdict(unconstrained_report(r.0)),
            self.known() ==> inputs_are(recorded_inputs(r.0), self.public_values()),
            r.1 is Ok ==> {
                &&& recorded_private(r.0) == self.witness_head() + run_private(self.run())
                &&& unsatisfied_path(r.0) is None
            },
            self.known() && self.run() is Some ==> (self.binding_holds() <==> self.hash->0@
                == hash_of(self.personalization, self.preimage->0@)),
    {
        let mut cs = ConstraintLog::new();
        proof {
            lemma_fresh_has_room();
        }
        let synthesis = self.synthesize(&mut cs);
        let unconstrained = cs.find_unconstrained();
        let unsatisfied = cs.which_is_unsatisfied();
        proof {
            if self.known() {
                let inputs = recorded_inputs(cs);
                assert(inputs =~= seq![1nat] + self.public_values());
                assert(inputs.subrange(1, inputs.len() as int) =~= self.public_values());
            }
            if synthesis is Ok {
                assert(recorded_private(cs) =~= self.witness_head() + run_private(self.run()));
            }
        }
        let result = verdict(synthesis, unconstrained, unsatisfied);
        (cs, result)
    }
}

/// An allocated field element stays tied to a system whose private
/// variables only grow.
proof fn lemma_tied_kept(before: Seq<nat>, after: Seq<nat>, n: AllocatedScalar)
    requires
        tied(before, n),
        before.is_prefix_of(after),
    ensures
        tied(after, n),
{
    assert(before[allocated_index(n) as int] == after.subrange(0, before.len() as int)[allocated_index(
        n,
    ) as int]);
}

/// The shape of the circuit is the same with and without values: what is
/// set up for the blank instance serves every proof in its domain.
pub proof fn lemma_shape_ignores_values(a: PedersenDemo, b: PedersenDemo)
    requires
        a.personalization == b.personalization,
        a.disclose_preimage == b.disclose_preimage,
    ensures
        a.key() == b.key(),
        a.public_count() == b.public_count(),
        forall|i: int| a.has_part(i) == b.has_part(i),
{
}

} // verus!
