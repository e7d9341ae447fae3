//! The batch of samples that is on its way to the output queue, and the
//! rule that says when it leaves.

use vstd::prelude::*;

verus! {

/// Number of batches that the queue between the decode worker and the
/// output stage holds; the worker waits while it is full.
pub const QUEUE_BATCHES: usize = 256;

/// A batch that has grown to this many samples leaves at once, cut to
/// exactly this length.
pub const BATCH_MAX_SAMPLES: usize = 32768;

/// A batch below this many samples waits for the long interval.
pub const MIN_FLUSH_SAMPLES: usize = 2048;

/// A batch of at least [`MIN_FLUSH_SAMPLES`] leaves once this many
/// milliseconds have passed since the last timed flush.
pub const FLUSH_INTERVAL_MS: u64 = 30;

/// Any batch that is not empty leaves once this many milliseconds have
/// passed since the last timed flush.
pub const FORCE_FLUSH_INTERVAL_MS: u64 = 200;

/// Whether a batch of `len` samples is flushed on the timer, `elapsed_ms`
/// after the last timed flush. Small batches are held back so that the queue
/// is not flooded with messages; the long interval keeps the output from
/// starving while decoding is slow.
pub open spec fn flush_due(len: nat, elapsed_ms: u64) -> bool {
    if elapsed_ms >= FORCE_FLUSH_INTERVAL_MS {
        len > 0
    } else if elapsed_ms >= FLUSH_INTERVAL_MS {
        len >= MIN_FLUSH_SAMPLES
    } else {
        false
    }
}

/// Executable form of [`flush_due`].
pub fn should_flush(len: usize, elapsed_ms: u64) -> (r: bool)
    ensures
        r == flush_due(len as nat, elapsed_ms),
{
    if elapsed_ms >= FORCE_FLUSH_INTERVAL_MS {
        len > 0
    } else if elapsed_ms >= FLUSH_INTERVAL_MS {
        len >= MIN_FLUSH_SAMPLES
    } else {
        false
    }
}

/// Cuts the first [`BATCH_MAX_SAMPLES`] samples off a batch that holds at
/// least that many, and leaves the rest in it. A smaller batch stays whole.
pub fn take_full(batch: &mut Vec<u32>) -> (r: Option<Vec<u32>>)
    ensures
        match r {
            Some(chunk) => {
                &&& old(batch)@.len() >= BATCH_MAX_SAMPLES
                &&& chunk@ == old(batch)@.take(BATCH_MAX_SAMPLES as int)
                &&& final(batch)@ == old(batch)@.skip(BATCH_MAX_SAMPLES as int)
            },
            None => old(batch)@.len() < BATCH_MAX_SAMPLES && final(batch)@ == old(batch)@,
        },
{
    if batch.len() < BATCH_MAX_SAMPLES {
        return None;
    }
    let mut rest = batch.split_off(BATCH_MAX_SAMPLES);
    std::mem::swap(batch, &mut rest);
    Some(rest)
}

/// Takes the whole batch and leaves it empty.
pub fn take_all(batch: &mut Vec<u32>) -> (r: Vec<u32>)
    ensures
        r@ == old(batch)@,
        final(batch)@ == Seq::<u32>::empty(),
{
    let mut out: Vec<u32> = Vec::new();
    std::mem::swap(batch, &mut out);
    out
}

} // verus!
