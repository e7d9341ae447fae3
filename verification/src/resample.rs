//! What surrounds the sample-rate converter: whether it is needed, how its
//! output joins the batch, and what stands in for it on a block it fails on.

use vstd::prelude::*;
use crate::frames::{append_paired, interleave, paired};
use crate::time::lemma_wide_product;

verus! {

/// A stream is converted only when its rate differs from the device's.
pub open spec fn conversion_needed(source_rate: u32, target_rate: u32) -> bool {
    source_rate != target_rate
}

/// Executable form of [`conversion_needed`].
pub fn needs_resampling(source_rate: u32, target_rate: u32) -> (r: bool)
    ensures
        r == conversion_needed(source_rate, target_rate),
{
    source_rate != target_rate
}

/// The frames in the planes that the converter returned: none without a
/// plane; with one plane, that plane on both sides; otherwise the first
/// plane on the left and the second on the right.
pub open spec fn resampled_frames(planes: Seq<Vec<u32>>) -> Seq<(u32, u32)> {
    if planes.len() == 0 {
        Seq::empty()
    } else if planes.len() == 1 {
        paired(planes[0]@, planes[0]@)
    } else {
        paired(planes[0]@, planes[1]@)
    }
}

/// Appends the converter's output to the batch, interleaved.
pub fn append_resampled(batch: &mut Vec<u32>, planes: &Vec<Vec<u32>>)
    ensures
        final(batch)@ == old(batch)@ + interleave(resampled_frames(planes@)),
{
    if planes.len() == 0 {
        assert(interleave(resampled_frames(planes@)) =~= Seq::<u32>::empty());
        assert(batch@ + Seq::<u32>::empty() =~= batch@);
    } else if planes.len() == 1 {
        append_paired(batch, &planes[0], &planes[0]);
    } else {
        append_paired(batch, &planes[0], &planes[1]);
    }
}

/// Number of samples that `len` samples at `source_rate` become at
/// `target_rate`, rounded down.
pub open spec fn held_len(len: nat, source_rate: u32, target_rate: u32) -> nat {
    if source_rate == 0 {
        0
    } else {
        ((len * target_rate) / (source_rate as int)) as nat
    }
}

/// The plane `input` at `target_rate` by sample and hold: output sample `j`
/// is the input sample that is playing at its instant, the one at index
/// `j * source_rate / target_rate`.
pub open spec fn held(input: Seq<u32>, source_rate: u32, target_rate: u32) -> Seq<u32> {
    Seq::new(
        held_len(input.len(), source_rate, target_rate),
        |j: int| input[(j * source_rate) / (target_rate as int)],
    )
}

/// Every sample of [`held`] is read inside the input.
pub proof fn lemma_held_index(len: nat, source_rate: u32, target_rate: u32, j: int)
    requires
        0 <= j < held_len(len, source_rate, target_rate),
    ensures
        source_rate > 0,
        target_rate > 0,
        0 <= (j * source_rate) / (target_rate as int) < len,
{
    let s = source_rate as int;
    let t = target_rate as int;
    let n = len as int;
    assert(s > 0);
    assert(t > 0) by {
        if t == 0 {
            assert(n * t == 0) by (nonlinear_arith)
                requires
                    t == 0;
        }
    }
    // j < floor(n t / s), so (j + 1) s <= n t, so j s < n t
    assert((j + 1) * s <= n * t) by (nonlinear_arith)
        requires
            s > 0,
            j + 1 <= (n * t) / s;
    assert(j * s < n * t) by (nonlinear_arith)
        requires
            (j + 1) * s <= n * t,
            s > 0;
    assert((j * s) / t < n) by (nonlinear_arith)
        requires
            j * s < n * t,
            t > 0,
            j * s >= 0;
    assert(0 <= (j * s) / t) by (nonlinear_arith)
        requires
            j >= 0,
            s > 0,
            t > 0;
}

/// Converts one plane by sample and hold, the stand-in for a block on which
/// the converter failed. `None` when a rate is zero or when the output would
/// be longer than a vector can be.
pub fn hold_resample(input: &Vec<u32>, source_rate: u32, target_rate: u32) -> (r: Option<
    Vec<u32>,
>)
    ensures
        match r {
            Some(out) => {
                &&& source_rate > 0
                &&& target_rate > 0
                &&& out@ == held(input@, source_rate, target_rate)
            },
            None => source_rate == 0 || target_rate == 0 || held_len(
                input@.len(),
                source_rate,
                target_rate,
            ) > usize::MAX,
        },
{
    if source_rate == 0 || target_rate == 0 {
        return None;
    }
    let len: usize = input.len();
    proof {
        lemma_wide_product(len as int, target_rate as int);
    }
    let total: u128 = len as u128 * target_rate as u128 / source_rate as u128;
    if total > usize::MAX as u128 {
        return None;
    }
    let out_len: usize = total as usize;
    let mut out: Vec<u32> = Vec::new();
    let mut j: usize = 0;
    while j < out_len
        invariant
            0 <= j <= out_len,
            len == input@.len(),
            source_rate > 0,
            target_rate > 0,
            out_len == held_len(input@.len(), source_rate, target_rate),
            out@ == held(input@, source_rate, target_rate).take(j as int),
        decreases out_len - j,
    {
        proof {
            lemma_held_index(input@.len(), source_rate, target_rate, j as int);
            lemma_wide_product(j as int, source_rate as int);
        }
        let at: u128 = j as u128 * source_rate as u128 / target_rate as u128;
        let sample = input[at as usize];
        assert(sample == held(input@, source_rate, target_rate)[j as int]);
        out.push(sample);
        assert(out@ =~= held(input@, source_rate, target_rate).take(j as int + 1));
        j += 1;
    }
    assert(held(input@, source_rate, target_rate).take(out_len as int) =~= held(
        input@,
        source_rate,
        target_rate,
    ));
    Some(out)
}

} // verus!
