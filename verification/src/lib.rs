//! User-space GPU compute thunk: verified core logic.
//!
//! The library models the process-wide virtual-address aperture manager,
//! the compute-queue builder computations, the signal and event state,
//! and the topology snapshot enrichment.  All kernel and device I/O is
//! performed by callers outside this crate, which hand plain values in
//! and take plain values back.

pub mod aperture;
pub mod cwsr;
pub mod enrich;
pub mod error;
pub mod events;
pub mod flags;
pub mod ioctl;
pub mod manager;
pub mod parse;
pub mod queue;
pub mod signal;
pub mod sysfs;
pub mod topology;

use vstd::prelude::*;

verus! {

/// The least multiple of `a` at or above `v`.
pub open spec fn spec_align_up(v: int, a: int) -> int {
    if v % a == 0 {
        v
    } else {
        v + a - v % a
    }
}

/// The rounded value stays within one alignment step of `v`.
pub proof fn lemma_spec_align_up_bounds(v: int, a: int)
    requires
        a >= 1,
        v >= 0,
    ensures
        v <= spec_align_up(v, a) < v + a,
        spec_align_up(v, a) % a == 0,
{
    if v % a != 0 {
        assert((v + a - v % a) % a == 0) by (nonlinear_arith)
            requires
                a >= 1,
                v >= 0,
        ;
    }
}

/// Rounds a `u128` up to the next multiple of `align`.
pub fn align_up_u128(val: u128, align: u128) -> (r: u128)
    requires
        align >= 1,
        val + align - 1 <= u128::MAX,
    ensures
        r == spec_align_up(val as int, align as int),
        val <= r < val + align,
{
    let rem: u128 = val % align;
    if rem == 0 {
        val
    } else {
        val + (align - rem)
    }
}

} // verus!
