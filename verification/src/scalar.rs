//! Elements of the scalar field of BN256, held as four 64-bit limbs.

use vstd::prelude::*;
use vstd::arithmetic::div_mod::*;
use vstd::arithmetic::power2::*;

verus! {

/// Number of bits in the canonical representation of a field element.
pub const NUM_BITS: usize = 254;

/// Lowest limb of the field's modulus.
pub const MODULUS_0: u64 = 0x43e1f593f0000001;

/// Second limb of the field's modulus.
pub const MODULUS_1: u64 = 0x2833e84879b97091;

/// Third limb of the field's modulus.
pub const MODULUS_2: u64 = 0xb85045b68181585d;

/// Highest limb of the field's modulus.
pub const MODULUS_3: u64 = 0x30644e72e131a029;

/// The number that four limbs stand for, lowest limb first.
pub open spec fn limbs_value(l0: u64, l1: u64, l2: u64, l3: u64) -> nat {
    (l0 as nat) + limb_base() * ((l1 as nat) + limb_base() * ((l2 as nat) + limb_base() * (l3
        as nat)))
}

/// The weight of a limb relative to the one below it.
pub open spec fn limb_base() -> nat {
    0x1_0000_0000_0000_0000
}

/// The order of the field, a prime of 254 bits:
/// 21888242871839275222246405745257275088548364400416034343698204186575808495617.
pub open spec fn modulus() -> nat {
    limbs_value(MODULUS_0, MODULUS_1, MODULUS_2, MODULUS_3)
}

/// Bit `i` of `v`, counting from the least significant one.
pub open spec fn bit_of(v: nat, i: nat) -> bool {
    (v / pow2(i)) % 2 == 1
}

/// The lowest `n` bits of `v`, least significant first.
pub open spec fn bits_le(v: nat, n: nat) -> Seq<bool> {
    Seq::new(n, |i: int| bit_of(v, i as nat))
}

/// The number that a little-endian bit string stands for.
pub open spec fn le_sum(bits: Seq<bool>) -> nat
    decreases bits.len(),
{
    if bits.len() == 0 {
        0
    } else {
        (if bits[0] { 1nat } else { 0nat }) + 2 * le_sum(bits.drop_first())
    }
}

/// The bit width is exact: the modulus lies between two to the power of
/// the width less one and two to the power of the width.
pub proof fn lemma_modulus_width()
    ensures
        pow2((NUM_BITS - 1) as nat) < modulus() < pow2(NUM_BITS as nat),
{
    lemma2_to64();
    lemma2_to64_rest();
    lemma_pow2_adds(64, 64);
    lemma_pow2_adds(128, 64);
    lemma_pow2_adds(192, 61);
    lemma_pow2_adds(192, 62);
    let b = limb_base();
    assert(pow2(192) == b * (b * b)) by (nonlinear_arith)
        requires
            pow2(128) == pow2(64) * pow2(64),
            pow2(192) == pow2(128) * pow2(64),
            b == pow2(64),
    ;
    assert(b * (b * (b * 0x2000_0000_0000_0000)) < modulus() < b * (b * (b * 0x4000_0000_0000_0000)))
        by (nonlinear_arith)
        requires
            modulus() == limbs_value(MODULUS_0, MODULUS_1, MODULUS_2, MODULUS_3),
            b == limb_base(),
            b == 0x1_0000_0000_0000_0000,
    ;
    assert(pow2(253) == b * (b * (b * 0x2000_0000_0000_0000)) && pow2(254) == b * (b * (b
        * 0x4000_0000_0000_0000))) by (nonlinear_arith)
        requires
            pow2(192) == b * (b * b),
            pow2(253) == pow2(192) * 0x2000_0000_0000_0000,
            pow2(254) == pow2(192) * 0x4000_0000_0000_0000,
    ;
}

/// A little-endian bit string of a number sums to that number, reduced
/// modulo two to the power of the string's length.
pub proof fn lemma_bits_sum(v: nat, n: nat)
    ensures
        le_sum(bits_le(v, n)) == v % pow2(n),
    decreases n,
{
    lemma2_to64();
    if n == 0 {
    } else {
        let m = (n - 1) as nat;
        lemma_pow2_pos(m);
        lemma_pow2_unfold(n);
        assert(bits_le(v, n)[0] == (v % 2 == 1));
        let tail = bits_le(v, n).drop_first();
        let halved = bits_le(v / 2, m);
        assert forall|i: int| 0 <= i < m implies #[trigger] tail[i] == halved[i] by {
            lemma_pow2_pos(i as nat);
            lemma_pow2_unfold((i + 1) as nat);
            lemma_div_denominator(v as int, 2, pow2(i as nat) as int);
            assert(tail[i] == bit_of(v, (i + 1) as nat));
            assert(halved[i] == bit_of(v / 2, i as nat));
        }
        assert(tail =~= halved);
        lemma_bits_sum(v / 2, m);
        lemma_mod_breakdown(v as int, 2, pow2(m) as int);
    }
}

/// Every canonical value is the sum of its lowest `NUM_BITS` bits: no
/// field element needs a further bit.
pub proof fn lemma_decomposition_exact(v: nat)
    requires
        v < modulus(),
    ensures
        bits_le(v, NUM_BITS as nat).len() == NUM_BITS,
        le_sum(bits_le(v, NUM_BITS as nat)) == v,
{
    lemma_modulus_width();
    lemma_bits_sum(v, NUM_BITS as nat);
    lemma_small_mod(v, pow2(NUM_BITS as nat));
}

/// The largest field element, one below the modulus, needs every bit: its
/// highest bit is set.
pub proof fn lemma_largest_fills_width()
    ensures
        bits_le((modulus() - 1) as nat, NUM_BITS as nat)[NUM_BITS - 1],
{
    lemma_modulus_width();
    let top = (modulus() - 1) as nat;
    let half = pow2((NUM_BITS - 1) as nat);
    lemma_pow2_unfold(NUM_BITS as nat);
    lemma_fundamental_div_mod_converse(top as int, half as int, 1, top - half);
}

/// Two field elements that stand for the same number are the same.
pub proof fn lemma_value_decides(a: Scalar, b: Scalar)
    requires
        a@ == b@,
    ensures
        a == b,
{
    lemma_limbs_decide(a.l0, a.l1, a.l2, a.l3, b.l0, b.l1, b.l2, b.l3);
}

/// Limbs that stand for the same number are the same.
pub proof fn lemma_limbs_decide(a0: u64, a1: u64, a2: u64, a3: u64, b0: u64, b1: u64, b2: u64, b3: u64)
    requires
        limbs_value(a0, a1, a2, a3) == limbs_value(b0, b1, b2, b3),
    ensures
        a0 == b0 && a1 == b1 && a2 == b2 && a3 == b3,
{
    let b = limb_base() as int;
    let ha = a1 + b * (a2 + b * a3);
    let hb = b1 + b * (b2 + b * b3);
    lemma_fundamental_div_mod_converse(limbs_value(a0, a1, a2, a3) as int, b, ha, a0 as int);
    lemma_fundamental_div_mod_converse(limbs_value(b0, b1, b2, b3) as int, b, hb, b0 as int);
    lemma_fundamental_div_mod_converse(ha, b, a2 + b * a3, a1 as int);
    lemma_fundamental_div_mod_converse(hb, b, b2 + b * b3, b1 as int);
    lemma_fundamental_div_mod_converse(a2 + b * a3, b, a3 as int, a2 as int);
    lemma_fundamental_div_mod_converse(b2 + b * b3, b, b3 as int, b2 as int);
}

/// Whether four limbs stand for a number below the modulus.
pub fn limbs_canonical(l0: u64, l1: u64, l2: u64, l3: u64) -> (r: bool)
    ensures
        r == (limbs_value(l0, l1, l2, l3) < modulus()),
{
    if l3 != MODULUS_3 {
        l3 < MODULUS_3
    } else if l2 != MODULUS_2 {
        l2 < MODULUS_2
    } else if l1 != MODULUS_1 {
        l1 < MODULUS_1
    } else {
        l0 < MODULUS_0
    }
}

/// A field element in canonical form: a number below the modulus.
#[derive(Clone, Copy, Debug, PartialEq, Eq, Structural)]
pub struct Scalar {
    l0: u64,
    l1: u64,
    l2: u64,
    l3: u64,
}

impl View for Scalar {
    type V = nat;

    /// The number that this element stands for.
    open spec fn view(&self) -> nat {
        self.value()
    }
}

impl Scalar {
    /// The number that this element stands for.
    pub closed spec fn value(self) -> nat {
        limbs_value(self.l0, self.l1, self.l2, self.l3)
    }

    /// Every element is below the modulus.
    #[verifier::type_invariant]
    pub closed spec fn canonical(self) -> bool {
        self.value() < modulus()
    }

    /// The element that four limbs stand for, lowest limb first, if they
    /// stand for a number below the modulus.
    pub fn from_limbs(limbs: [u64; 4]) -> (r: Option<Scalar>)
        ensures
            r is Some <==> limbs_value(limbs[0], limbs[1], limbs[2], limbs[3]) < modulus(),
            r matches Some(s) ==> s.value() == limbs_value(limbs[0], limbs[1], limbs[2], limbs[3]),
    {
        if limbs_canonical(limbs[0], limbs[1], limbs[2], limbs[3]) {
            Some(Scalar { l0: limbs[0], l1: limbs[1], l2: limbs[2], l3: limbs[3] })
        } else {
            None
        }
    }

    /// The four limbs of this element, lowest limb first.
    pub fn limbs(&self) -> (r: [u64; 4])
        ensures
            limbs_value(r[0], r[1], r[2], r[3]) == self.value(),
            self.value() < modulus(),
    {
        proof {
            use_type_invariant(self);
        }
        [self.l0, self.l1, self.l2, self.l3]
    }

    /// The bits of this element, least significant first.
    pub fn to_bits_le(&self) -> (bits: Vec<bool>)
        ensures
            bits@ == bits_le(self.value(), NUM_BITS as nat),
    {
        let mut r0: u64 = self.l0;
        let mut r1: u64 = self.l1;
        let mut r2: u64 = self.l2;
        let mut r3: u64 = self.l3;
        let mut bits: Vec<bool> = Vec::new();
        let mut i: usize = 0;
        proof {
            lemma2_to64();
        }
        while i < NUM_BITS
            invariant
                i <= NUM_BITS,
                bits@.len() == i,
                limbs_value(r0, r1, r2, r3) == self.value() / pow2(i as nat),
                forall|k: int| 0 <= k < i ==> bits@[k] == bit_of(self.value(), k as nat),
            decreases NUM_BITS - i,
        {
            let ghost rest = limbs_value(r0, r1, r2, r3);
            bits.push(r0 % 2 == 1);
            assert(rest % 2 == (r0 % 2) as nat);
            r0 = r0 / 2 + (r1 % 2) * 0x8000_0000_0000_0000;
            r1 = r1 / 2 + (r2 % 2) * 0x8000_0000_0000_0000;
            r2 = r2 / 2 + (r3 % 2) * 0x8000_0000_0000_0000;
            r3 = r3 / 2;
            assert(limbs_value(r0, r1, r2, r3) == rest / 2);
            proof {
                lemma_pow2_pos(i as nat);
                lemma_pow2_unfold((i + 1) as nat);
                lemma_div_denominator(self.value() as int, pow2(i as nat) as int, 2);
                assert(pow2(i as nat) * 2 == pow2((i + 1) as nat));
            }
            i += 1;
        }
        assert(bits@ =~= bits_le(self.value(), NUM_BITS as nat));
        bits
    }

    /// The element that a small number stands for.
    pub fn from_u64(x: u64) -> (r: Scalar)
        ensures
            r.value() == x,
    {
        Scalar { l0: x, l1: 0, l2: 0, l3: 0 }
    }
}

} // verus!
