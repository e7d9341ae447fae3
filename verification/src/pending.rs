//! The frames that wait between the decoder and the resampler.
//!
//! The resampler takes blocks of exactly [`BLOCK_FRAMES`] frames. Decoded
//! packets have any length, so their frames queue up here until a block is
//! full. At the end of the stream the remainder leaves once, padded with
//! silence.

use std::collections::VecDeque;
use vstd::prelude::*;
use crate::frames::{interleave, lefts, lemma_interleave_push, rights, silent_frames};
use crate::packet::DecodedPacket;

verus! {

/// Frames in one resampler block.
pub const BLOCK_FRAMES: usize = 8192;

/// Most frames that may wait; beyond it the oldest are dropped.
pub const PENDING_MAX: usize = 163840;

/// One input block of the resampler, a plane per channel.
#[derive(Debug)]
pub struct Block {
    pub left: Vec<u32>,
    pub right: Vec<u32>,
}

/// Queue of decoded stereo frames, oldest first.
pub struct PendingFrames {
    frames: VecDeque<(u32, u32)>,
}

impl View for PendingFrames {
    type V = Seq<(u32, u32)>;

    closed spec fn view(&self) -> Seq<(u32, u32)> {
        self.frames@
    }
}

/// How many of `len` waiting frames are dropped to come back under [`PENDING_MAX`].
pub open spec fn overflow(len: nat) -> nat {
    if len > PENDING_MAX {
        (len - PENDING_MAX) as nat
    } else {
        0
    }
}

/// How many of `len` waiting frames go into the last, padded block.
pub open spec fn tail_frames(len: nat) -> nat {
    if len < BLOCK_FRAMES {
        len
    } else {
        BLOCK_FRAMES as nat
    }
}

impl PendingFrames {
    /// An empty queue.
    pub fn new() -> (r: Self)
        ensures
            r@ == Seq::<(u32, u32)>::empty(),
    {
        PendingFrames { frames: VecDeque::new() }
    }

    /// Number of waiting frames.
    pub fn len(&self) -> (n: usize)
        ensures
            n == self@.len(),
    {
        self.frames.len()
    }

    /// Queues the usable frames of `packet` behind those that wait, a mono
    /// plane on both sides. Returns how many frames were queued.
    pub fn push_packet(&mut self, packet: &DecodedPacket, limit: u64) -> (n: usize)
        ensures
            final(self)@ == old(self)@ + packet.usable(limit),
            n == packet.usable(limit).len(),
    {
        let count = packet.usable_count(limit);
        let ghost before = self@;
        let ghost taken = packet.usable(limit);
        let mut i: usize = 0;
        while i < count
            invariant
                0 <= i <= count,
                count == taken.len(),
                count <= packet.data.frames().len(),
                taken == packet.data.frames().take(count as int),
                self@ == before + taken.take(i as int),
            decreases count - i,
        {
            let f = packet.data.frame(i);
            assert(taken.take(i as int + 1) =~= taken.take(i as int).push(f));
            self.frames.push_back(f);
            assert(self@ =~= before + taken.take(i as int + 1));
            i += 1;
        }
        assert(taken.take(count as int) =~= taken);
        count
    }

    /// Drops the oldest frames until at most [`PENDING_MAX`] wait. Returns
    /// how many were dropped.
    pub fn trim_oldest(&mut self) -> (dropped: usize)
        ensures
            dropped == overflow(old(self)@.len()),
            final(self)@ == old(self)@.skip(dropped as int),
            final(self)@.len() <= PENDING_MAX,
    {
        let ghost before = self@;
        let waiting = self.frames.len();
        let mut dropped: usize = 0;
        while self.frames.len() > PENDING_MAX
            invariant
                waiting == before.len(),
                dropped + self@.len() == before.len(),
                self@ == before.skip(dropped as int),
                dropped <= overflow(before.len()),
            decreases self@.len(),
        {
            let _ = self.frames.pop_front();
            assert(self@ =~= before.skip(dropped as int + 1));
            dropped += 1;
        }
        dropped
    }

    /// Takes the oldest [`BLOCK_FRAMES`] frames as a block when that many
    /// wait, and nothing otherwise.
    pub fn take_block(&mut self) -> (r: Option<Block>)
        ensures
            match r {
                Some(b) => {
                    &&& old(self)@.len() >= BLOCK_FRAMES
                    &&& b.left@ == lefts(old(self)@.take(BLOCK_FRAMES as int))
                    &&& b.right@ == rights(old(self)@.take(BLOCK_FRAMES as int))
                    &&& final(self)@ == old(self)@.skip(BLOCK_FRAMES as int)
                },
                None => old(self)@.len() < BLOCK_FRAMES && final(self)@ == old(self)@,
            },
    {
        if self.frames.len() < BLOCK_FRAMES {
            return None;
        }
        let ghost before = self@;
        let mut left: Vec<u32> = Vec::with_capacity(BLOCK_FRAMES);
        let mut right: Vec<u32> = Vec::with_capacity(BLOCK_FRAMES);
        let mut i: usize = 0;
        while i < BLOCK_FRAMES
            invariant
                0 <= i <= BLOCK_FRAMES,
                before.len() >= BLOCK_FRAMES,
                self@ == before.skip(i as int),
                left@ == lefts(before.take(i as int)),
                right@ == rights(before.take(i as int)),
            decreases BLOCK_FRAMES - i,
        {
            let f = self.frames.pop_front();
            match f {
                Some((l, r)) => {
                    left.push(l);
                    right.push(r);
                },
                None => {},
            }
            assert(self@ =~= before.skip(i as int + 1));
            assert(left@ =~= lefts(before.take(i as int + 1)));
            assert(right@ =~= rights(before.take(i as int + 1)));
            i += 1;
        }
        Some(Block { left, right })
    }

    /// Takes what waits as the last block of the stream: up to
    /// [`BLOCK_FRAMES`] of the oldest frames, followed by silence up to the
    /// block's length. Nothing when no frame waits.
    pub fn take_padded_block(&mut self) -> (r: Option<Block>)
        ensures
            match r {
                Some(b) => {
                    let n = tail_frames(old(self)@.len());
                    let padded = old(self)@.take(n as int) + silent_frames(
                        (BLOCK_FRAMES - n) as nat,
                    );
                    &&& old(self)@.len() > 0
                    &&& b.left@ == lefts(padded)
                    &&& b.right@ == rights(padded)
                    &&& final(self)@ == old(self)@.skip(n as int)
                },
                None => old(self)@.len() == 0 && final(self)@ == old(self)@,
            },
    {
        if self.frames.len() == 0 {
            return None;
        }
        let ghost before = self@;
        let ghost n = tail_frames(before.len());
        let ghost padded = before.take(n as int) + silent_frames((BLOCK_FRAMES - n) as nat);
        let mut left: Vec<u32> = Vec::with_capacity(BLOCK_FRAMES);
        let mut right: Vec<u32> = Vec::with_capacity(BLOCK_FRAMES);
        let mut i: usize = 0;
        while i < BLOCK_FRAMES
            invariant
                0 <= i <= BLOCK_FRAMES,
                n == tail_frames(before.len()),
                padded == before.take(n as int) + silent_frames((BLOCK_FRAMES - n) as nat),
                self@ == before.skip(
                    if i <= n {
                        i as int
                    } else {
                        n as int
                    },
                ),
                left@ == lefts(padded.take(i as int)),
                right@ == rights(padded.take(i as int)),
            decreases BLOCK_FRAMES - i,
        {
            let f = self.frames.pop_front();
            let (l, r) = match f {
                Some(pair) => pair,
                None => (0u32, 0u32),
            };
            left.push(l);
            right.push(r);
            proof {
                if i < n {
                    assert(self@ =~= before.skip(i as int + 1));
                    assert(padded[i as int] == before[i as int]);
                } else {
                    assert(self@ =~= before.skip(n as int));
                    assert(padded[i as int] == (0u32, 0u32));
                }
                assert(left@ =~= lefts(padded.take(i as int + 1)));
                assert(right@ =~= rights(padded.take(i as int + 1)));
            }
            i += 1;
        }
        assert(padded.take(BLOCK_FRAMES as int) =~= padded);
        Some(Block { left, right })
    }

    /// Moves every waiting frame to the end of `out`, interleaved: the path
    /// of a stream whose rate already is the device's.
    pub fn drain_interleaved(&mut self, out: &mut Vec<u32>)
        ensures
            final(out)@ == old(out)@ + interleave(old(self)@),
            final(self)@ == Seq::<(u32, u32)>::empty(),
    {
        let ghost before = self@;
        let ghost out_before = out@;
        let waiting = self.frames.len();
        let mut moved: usize = 0;
        while self.frames.len() > 0
            invariant
                waiting == before.len(),
                moved + self@.len() == before.len(),
                self@ == before.skip(moved as int),
                out@ == out_before + interleave(before.take(moved as int)),
            decreases self@.len(),
        {
            let f = self.frames.pop_front();
            match f {
                Some((l, r)) => {
                    proof {
                        assert(before.take(moved as int + 1) =~= before.take(moved as int).push(
                            (l, r),
                        ));
                        lemma_interleave_push(before.take(moved as int), (l, r));
                    }
                    out.push(l);
                    out.push(r);
                },
                None => {},
            }
            assert(self@ =~= before.skip(moved as int + 1));
            moved += 1;
        }
        assert(before.take(moved as int) =~= before);
        assert(self@ =~= Seq::<(u32, u32)>::empty());
    }
}

} // verus!
