//! The sampling schedule of the render loop.
//!
//! For each pixel the renderer fans a fixed sample budget out across a
//! pool of workers, sums the colours they send back, and only then
//! finalizes the pixel. The colour arithmetic is floating-point and stays
//! with the renderer; the division of the budget — every worker draws the
//! same share, and the shares add up to the whole budget whenever the
//! worker count divides it — is verified here.

use vstd::prelude::*;

verus! {

/// The total of a sequence of per-worker sample counts.
pub open spec fn total_samples(counts: Seq<u32>) -> int
    decreases counts.len(),
{
    if counts.len() == 0 {
        0
    } else {
        total_samples(counts.drop_last()) + counts.last()
    }
}

/// Splits a pixel's sample budget evenly across `workers` workers: each
/// gets `samples_per_pixel / workers` samples, and when the worker count
/// divides the budget the shares add up to the whole budget — every
/// sample of the pixel is drawn by exactly one worker.
pub fn worker_sample_counts(samples_per_pixel: u32, workers: u32) -> (counts: Vec<u32>)
    requires
        workers >= 1,
    ensures
        counts@.len() == workers,
        forall|k: int|
            0 <= k < counts@.len() ==> (#[trigger] counts@[k]) == samples_per_pixel / workers,
        total_samples(counts@) == (workers as int) * ((samples_per_pixel / workers) as int),
        samples_per_pixel % workers == 0 ==> total_samples(counts@) == samples_per_pixel,
{
    let share = samples_per_pixel / workers;
    let mut counts: Vec<u32> = Vec::new();
    let mut w: u32 = 0;
    while w < workers
        invariant
            w <= workers,
            counts@.len() == w,
            forall|k: int| 0 <= k < counts@.len() ==> (#[trigger] counts@[k]) == share,
            total_samples(counts@) == (w as int) * (share as int),
        decreases workers - w,
    {
        let ghost before = counts@;
        counts.push(share);
        proof {
            assert(counts@.drop_last() =~= before);
            assert((w as int + 1) * (share as int) == (w as int) * (share as int) + (
            share as int)) by (nonlinear_arith);
        }
        w = w + 1;
    }
    proof {
        if samples_per_pixel % workers == 0 {
            vstd::arithmetic::div_mod::lemma_fundamental_div_mod(
                samples_per_pixel as int,
                workers as int,
            );
        }
    }
    counts
}

} // verus!
