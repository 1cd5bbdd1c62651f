//! The shape of the circuit: what parameters are made for, whatever the
//! values that are later proved.

use vstd::prelude::*;
use crate::failure::Fault;
use crate::failure::RelationError;
use crate::tags::Personalization;

verus! {

/// Number of bits that select one point from a generator table.
pub const WINDOW_BITS: usize = 3;

/// Number of windows that share one generator.
pub const SEGMENT_WINDOWS: usize = 62;

/// The least number of parts of size `d` that hold `n` things.
pub open spec fn parts_needed(n: nat, d: nat) -> nat
    recommends
        d > 0,
{
    if n % d == 0 {
        n / d
    } else {
        n / d + 1
    }
}

/// Number of windows that `bits` bits fill; the last one is padded with
/// zeros where the bits run out.
pub fn window_count(bits: usize) -> (w: usize)
    ensures
        w == parts_needed(bits as nat, WINDOW_BITS as nat),
        WINDOW_BITS * w >= bits,
        WINDOW_BITS * w < bits + WINDOW_BITS,
{
    if bits % WINDOW_BITS == 0 {
        bits / WINDOW_BITS
    } else {
        bits / WINDOW_BITS + 1
    }
}

/// Number of segments, each with a generator of its own, that `windows`
/// windows fill.
pub fn segment_count(windows: usize) -> (s: usize)
    ensures
        s == parts_needed(windows as nat, SEGMENT_WINDOWS as nat),
        SEGMENT_WINDOWS * s >= windows,
        SEGMENT_WINDOWS * s < windows + SEGMENT_WINDOWS,
{
    if windows % SEGMENT_WINDOWS == 0 {
        windows / SEGMENT_WINDOWS
    } else {
        windows / SEGMENT_WINDOWS + 1
    }
}

/// What parameters are made for. Parameters made for one key serve no
/// circuit of another.
#[derive(Clone, Copy, Debug, PartialEq, Eq, Structural)]
pub struct ParameterKey {
    /// The domain of the hash.
    pub personalization: Personalization,
    /// Number of segments that the hashed bits fill.
    pub segments: usize,
    /// Number of bits in a window.
    pub window_bits: usize,
    /// Number of public inputs.
    pub public_inputs: usize,
}

/// Tells whether parameters made for `made_for` serve a circuit whose key
/// is `wanted`: they do exactly when the keys are the same.
pub fn match_parameters(made_for: ParameterKey, wanted: ParameterKey) -> (r: Result<
    (),
    RelationError,
>)
    ensures
        made_for == wanted ==> r is Ok,
        made_for != wanted ==> (r matches Err(e) && e@ == Fault::ParameterMismatch),
{
    if made_for == wanted {
        Ok(())
    } else {
        Err(RelationError::ParameterMismatch)
    }
}

} // verus!
