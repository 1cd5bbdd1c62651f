//! Personalizations: the tags that keep hashes of different purposes apart.

use vstd::prelude::*;
use vstd::arithmetic::div_mod::*;
use vstd::arithmetic::power2::*;
use crate::scalar::bit_of;
use crate::scalar::bits_le;
use crate::scalar::le_sum;
use crate::scalar::lemma_bits_sum;

verus! {

/// Number of bits that a personalization puts in front of the hashed bits.
pub const TAG_BITS: usize = 6;

/// Number of levels of a Merkle tree that have a personalization of their own.
pub const TREE_LEVELS: usize = 63;

/// The domain of a hash: a note commitment, or a level of a Merkle tree.
/// Hashes of different domains use different generator tables.
#[derive(Clone, Copy, Debug, PartialEq, Eq, Structural)]
pub struct Personalization {
    tree_level: Option<usize>,
}

impl View for Personalization {
    type V = Seq<bool>;

    /// The bits that stand in front of the hashed bits.
    open spec fn view(&self) -> Seq<bool> {
        self.tag()
    }
}

impl Personalization {
    /// The level of the Merkle tree, or nothing for a note commitment.
    pub closed spec fn level(self) -> Option<usize> {
        self.tree_level
    }

    /// A tree level lies below `TREE_LEVELS`.
    #[verifier::type_invariant]
    pub closed spec fn in_range(self) -> bool {
        self.tree_level matches Some(n) ==> n < TREE_LEVELS
    }

    /// The bits that stand in front of the hashed bits: six ones for a note
    /// commitment, the six lowest bits of the level, least significant
    /// first, for a level of a Merkle tree.
    pub open spec fn tag(self) -> Seq<bool> {
        match self.level() {
            None => Seq::new(TAG_BITS as nat, |i: int| true),
            Some(n) => bits_le(n as nat, TAG_BITS as nat),
        }
    }

    /// The personalization of note commitments.
    pub fn note_commitment() -> (p: Personalization)
        ensures
            p.level() is None,
    {
        Personalization { tree_level: None }
    }

    /// The personalization of one level of a Merkle tree, if the level has one.
    pub fn merkle_tree(level: usize) -> (p: Option<Personalization>)
        ensures
            p is Some <==> level < TREE_LEVELS,
            p matches Some(q) ==> q.level() == Some(level),
    {
        if level < TREE_LEVELS {
            Some(Personalization { tree_level: Some(level) })
        } else {
            None
        }
    }

    /// The level of the Merkle tree, or nothing for a note commitment.
    pub fn tree_level(&self) -> (r: Option<usize>)
        ensures
            r == self.level(),
            r matches Some(n) ==> n < TREE_LEVELS,
    {
        proof {
            use_type_invariant(self);
        }
        self.tree_level
    }
}

/// Different personalizations put different bits in front of what is
/// hashed: no two domains share a tag.
pub proof fn lemma_tags_apart(p: Personalization, q: Personalization)
    requires
        p.in_range(),
        q.in_range(),
        p.level() != q.level(),
    ensures
        p@ != q@,
{
    lemma_tag_sum(p);
    lemma_tag_sum(q);
}

/// A tag stands for the level of the tree, and for sixty-three where
/// there is no tree.
proof fn lemma_tag_sum(p: Personalization)
    requires
        p.in_range(),
    ensures
        le_sum(p@) == (match p.level() {
            None => TREE_LEVELS as nat,
            Some(n) => n as nat,
        }),
{
    lemma2_to64();
    let n: nat = match p.level() {
        None => TREE_LEVELS as nat,
        Some(n) => n as nat,
    };
    lemma_bits_sum(n, TAG_BITS as nat);
    lemma_small_mod(n, pow2(TAG_BITS as nat));
    if p.level() is None {
        let ones = bits_le(63, TAG_BITS as nat);
        assert forall|i: int| 0 <= i < TAG_BITS implies #[trigger] ones[i] by {
            assert(ones[i] == bit_of(63, i as nat));
            let d = pow2(i as nat);
            assert(d == 1 || d == 2 || d == 4 || d == 8 || d == 16 || d == 32) by {
                if i == 0 {
                    assert(pow2(i as nat) == 1);
                } else if i == 1 {
                    assert(pow2(i as nat) == 2);
                } else if i == 2 {
                    assert(pow2(i as nat) == 4);
                } else if i == 3 {
                    assert(pow2(i as nat) == 8);
                } else if i == 4 {
                    assert(pow2(i as nat) == 16);
                } else {
                    assert(pow2(i as nat) == 32);
                }
            }
            assert((63nat / d) % 2 == 1) by (nonlinear_arith)
                requires
                    d == 1 || d == 2 || d == 4 || d == 8 || d == 16 || d == 32,
            ;
        }
        assert(p@ =~= bits_le(63, TAG_BITS as nat));
    }
}

} // verus!
