//! Support for the compiler's instrumentation callback: the default
//! instrumenter type and the lane-mask arithmetic the callback needs.

use vstd::prelude::*;

verus! {

/// Number of set bits among the low `n` bits of `mask`.
pub open spec fn ones_below(mask: u64, n: nat) -> nat
    decreases n,
{
    if n == 0 {
        0
    } else {
        ones_below(mask, (n - 1) as nat) + (if (mask >> ((n - 1) as u64)) & 1 == 1 {
            1nat
        } else {
            0nat
        })
    }
}

/// Number of set bits of `mask`.
pub open spec fn ones(mask: u64) -> nat {
    ones_below(mask, 64)
}

/// How many program instances are active in the execution mask `mask`
/// that instrumented compiled code reports: the number of set bits.
pub fn active_count(mask: u64) -> (r: u32)
    ensures
        r == ones(mask),
{
    let mut count: u32 = 0;
    let mut i: u64 = 0;
    while i < 64
        invariant
            i <= 64,
            count == ones_below(mask, i as nat),
            count <= i,
        decreases 64 - i,
    {
        if (mask >> i) & 1 == 1 {
            count = count + 1;
        }
        i = i + 1;
    }
    count
}

/// A simple instrumenter that reports the information handed to the
/// instrumentation callback as it arrives. How a report is emitted is
/// the embedding's affair; the type itself carries no state.
#[derive(Clone, Copy, Debug)]
pub struct SimpleInstrument;

} // verus!
