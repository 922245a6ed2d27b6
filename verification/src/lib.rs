//! A verified core for a GPU-dispatched two-dimensional FFT.
//!
//! The crate models everything the host engine needs to run a multi-pass
//! butterfly transform on a GPU: the symbolic twiddle-factor table and its
//! stage-major layout, the per-request transform settings, the ping-pong
//! texture set and its lifecycle, the binding and pipeline descriptors, and
//! the per-frame dispatch plan with its workgroup arithmetic. The host is
//! expected to carry out the planned GPU work (allocation, uploads, compute
//! passes); every decision that selects, sizes or orders that work is made
//! here and verified.

use vstd::prelude::*;

pub mod node;
pub mod pipeline;
pub mod resources;
pub mod settings;
pub mod twiddle;

verus! {

use vstd::arithmetic::div_mod::lemma_fundamental_div_mod;
use vstd::arithmetic::div_mod::lemma_fundamental_div_mod_converse;
use vstd::arithmetic::power2::lemma2_to64;
use vstd::arithmetic::power2::lemma_pow2_strictly_increases;
use vstd::arithmetic::power2::lemma_pow2_unfold;
use vstd::arithmetic::power2::pow2;

/// The error conditions this subsystem can report.
///
/// `InvalidConfiguration` is fatal to a request and surfaces synchronously
/// when the request is validated; the other three are recoverable per-frame
/// conditions that the orchestrator reports and retries.
#[derive(Clone, Copy, Debug, PartialEq, Eq, Structural)]
pub enum FftError {
    /// The grid size is not a square power of two matching the stage count.
    InvalidConfiguration,
    /// GPU resource allocation failed; the request stays pending.
    AllocationFailed,
    /// A required compute pipeline has not finished compiling.
    PipelineNotReady,
    /// A required buffer or binding has not been produced yet.
    BindingMissing,
}

/// A two-dimensional extent in texels.
#[derive(Clone, Copy, Debug, PartialEq, Eq, Structural)]
pub struct Extent2 {
    pub x: u32,
    pub y: u32,
}

impl Extent2 {
    pub fn new(x: u32, y: u32) -> (r: Extent2)
        ensures
            r == (Extent2 { x, y }),
    {
        Extent2 { x, y }
    }
}

/// Ceiling division, the workgroup-count arithmetic used by every dispatch.
pub open spec fn spec_div_ceil(x: int, d: int) -> int
    recommends
        d > 0,
{
    (x + d - 1) / d
}

/// Computes `ceil(x / d)` without intermediate overflow.
pub fn div_ceil_u32(x: u32, d: u32) -> (r: u32)
    requires
        d > 0,
    ensures
        r == spec_div_ceil(x as int, d as int),
{
    let q: u32 = x / d;
    let rem: u32 = x % d;
    proof {
        lemma_fundamental_div_mod(x as int, d as int);
        assert(x as int == (q as int) * (d as int) + rem as int) by (nonlinear_arith)
            requires
                x as int == (d as int) * (q as int) + rem as int,
        ;
        if rem == 0 {
            lemma_fundamental_div_mod_converse(
                x as int + d as int - 1,
                d as int,
                q as int,
                d as int - 1,
            );
        } else {
            assert((q as int + 1) * (d as int) == (q as int) * (d as int) + d as int)
                by (nonlinear_arith);
            lemma_fundamental_div_mod_converse(
                x as int + d as int - 1,
                d as int,
                q as int + 1,
                rem as int - 1,
            );
            assert(2 * (q as int) <= (d as int) * (q as int)) by (nonlinear_arith)
                requires
                    d >= 2,
                    q >= 0,
            ;
        }
    }
    if rem == 0 {
        q
    } else {
        q + 1
    }
}

/// Computes `2^e` by repeated doubling.
pub fn pow2_u32(e: u32) -> (r: u32)
    requires
        e <= 31,
    ensures
        r as nat == pow2(e as nat),
{
    let mut r: u32 = 1;
    let mut i: u32 = 0;
    proof {
        lemma2_to64();
    }
    while i < e
        invariant
            i <= e,
            e <= 31,
            r as nat == pow2(i as nat),
        decreases e - i,
    {
        proof {
            lemma2_to64();
            if (i as nat) < 31 {
                lemma_pow2_strictly_increases(i as nat, 31);
            }
            lemma_pow2_unfold((i + 1) as nat);
        }
        r = r * 2;
        i = i + 1;
    }
    r
}

} // verus!
