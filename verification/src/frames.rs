//! Stereo frames and the sample sequences they are laid out in.
//!
//! Inside the pipeline audio is always two channels wide. A frame is a pair
//! of sample bit patterns, left then right; a batch is the interleaved
//! sequence `L R L R ..` of its frames.

use vstd::prelude::*;

verus! {

/// The interleaved samples of `frames`: the left sample of frame `i` at
/// position `2 i`, its right sample at `2 i + 1`.
pub open spec fn interleave(frames: Seq<(u32, u32)>) -> Seq<u32> {
    Seq::new(
        2 * frames.len(),
        |k: int|
            if k % 2 == 0 {
                frames[k / 2].0
            } else {
                frames[k / 2].1
            },
    )
}

/// The left samples of `frames`, in order.
pub open spec fn lefts(frames: Seq<(u32, u32)>) -> Seq<u32> {
    Seq::new(frames.len(), |i: int| frames[i].0)
}

/// The right samples of `frames`, in order.
pub open spec fn rights(frames: Seq<(u32, u32)>) -> Seq<u32> {
    Seq::new(frames.len(), |i: int| frames[i].1)
}

/// The frames of a single channel played on both sides.
pub open spec fn duplicated(mono: Seq<u32>) -> Seq<(u32, u32)> {
    Seq::new(mono.len(), |i: int| (mono[i], mono[i]))
}

/// The frames of two planes. There are as many as the left plane has
/// samples; where the right plane is shorter the left sample stands on
/// both sides.
pub open spec fn paired(left: Seq<u32>, right: Seq<u32>) -> Seq<(u32, u32)> {
    Seq::new(
        left.len(),
        |i: int|
            (
                left[i],
                if i < right.len() {
                    right[i]
                } else {
                    left[i]
                },
            ),
    )
}

/// `n` frames of silence.
pub open spec fn silent_frames(n: nat) -> Seq<(u32, u32)> {
    Seq::new(n, |i: int| (0u32, 0u32))
}

/// Interleaving one more frame appends its two samples.
pub proof fn lemma_interleave_push(frames: Seq<(u32, u32)>, frame: (u32, u32))
    ensures
        interleave(frames.push(frame)) == interleave(frames).push(frame.0).push(frame.1),
{
    let a = interleave(frames.push(frame));
    let b = interleave(frames).push(frame.0).push(frame.1);
    assert(a.len() == b.len());
    assert forall|k: int| 0 <= k < a.len() implies a[k] == b[k] by {
        if k < 2 * frames.len() {
            assert(k / 2 < frames.len());
            assert(frames.push(frame)[k / 2] == frames[k / 2]);
        } else {
            assert(k / 2 == frames.len());
        }
    }
    assert(a =~= b);
}

/// Interleaving a concatenation is the concatenation of the interleavings:
/// frames keep their order and none is split.
pub proof fn lemma_interleave_concat(a: Seq<(u32, u32)>, b: Seq<(u32, u32)>)
    ensures
        interleave(a + b) == interleave(a) + interleave(b),
{
    let x = interleave(a + b);
    let y = interleave(a) + interleave(b);
    assert(x.len() == y.len());
    assert forall|k: int| 0 <= k < x.len() implies x[k] == y[k] by {
        if k < 2 * a.len() {
            assert(k / 2 < a.len());
            assert((a + b)[k / 2] == a[k / 2]);
        } else {
            let m = k - 2 * a.len();
            assert(m / 2 == k / 2 - a.len());
            assert(m % 2 == k % 2);
            assert((a + b)[k / 2] == b[k / 2 - a.len()]);
            assert(y[k] == interleave(b)[m]);
        }
    }
    assert(x =~= y);
}

/// Appends the interleaved samples of the two planes `left` and `right` to
/// `out`. Each left sample gives one frame; where `right` has run out the
/// left sample is repeated on the right.
pub fn append_paired(out: &mut Vec<u32>, left: &Vec<u32>, right: &Vec<u32>)
    ensures
        final(out)@ == old(out)@ + interleave(paired(left@, right@)),
{
    let ghost before = out@;
    let mut i: usize = 0;
    while i < left.len()
        invariant
            0 <= i <= left@.len(),
            out@ == before + interleave(paired(left@, right@).take(i as int)),
        decreases left@.len() - i,
    {
        let l = left[i];
        let r = if i < right.len() {
            right[i]
        } else {
            l
        };
        proof {
            let all = paired(left@, right@);
            assert(all.take(i as int + 1) =~= all.take(i as int).push((l, r)));
            lemma_interleave_push(all.take(i as int), (l, r));
        }
        out.push(l);
        out.push(r);
        i += 1;
    }
    assert(paired(left@, right@).take(i as int) =~= paired(left@, right@));
}

} // verus!
