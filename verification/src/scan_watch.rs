//! Watching the scan for the next audio packet.
//!
//! A container may carry many packets of other tracks between two audio
//! packets. The scan for the next audio packet does not give up, since only
//! the end of the data ends a stream; but a scan that takes long is
//! noticed, once by its duration and once by its number of packets.

use vstd::prelude::*;

verus! {

/// A scan that has lasted longer than this many milliseconds is slow.
pub const SCAN_TIMEOUT_MS: u64 = 500;

/// A scan is called slow only after more than this many packets.
pub const SCAN_PATIENCE: u32 = 100;

/// A scan of more than this many packets is long.
pub const MAX_PACKET_SCAN: u32 = 10000;

/// What is noticed at one packet of a scan.
#[derive(Clone, Copy, Debug, PartialEq, Eq, Structural)]
pub struct ScanNotice {
    /// The scan has just become slow.
    pub slow: bool,
    /// The scan has just become long.
    pub long: bool,
}

/// The watch over one scan.
#[derive(Clone, Copy, Debug, PartialEq, Eq, Structural)]
pub struct ScanWatch {
    /// When the scan began.
    pub started_ms: u64,
    /// Packets read so far.
    pub attempts: u32,
    /// The scan was noticed to be slow.
    pub warned_slow: bool,
    /// The scan was noticed to be long.
    pub warned_long: bool,
}

/// The packets read after one more; the largest number stays.
pub open spec fn next_attempts(attempts: u32) -> u32 {
    if attempts == u32::MAX {
        attempts
    } else {
        (attempts + 1) as u32
    }
}

/// Whether a scan that began at `started_ms` is slow at `now_ms` with
/// `attempts` packets read.
pub open spec fn is_slow(started_ms: u64, now_ms: u64, attempts: u32) -> bool {
    now_ms > started_ms && now_ms - started_ms > SCAN_TIMEOUT_MS && attempts > SCAN_PATIENCE
}

impl ScanWatch {
    /// The watch over a scan that begins at `now_ms`.
    pub fn begin(now_ms: u64) -> (w: Self)
        ensures
            w == (ScanWatch { started_ms: now_ms, attempts: 0, warned_slow: false, warned_long: false }),
    {
        ScanWatch { started_ms: now_ms, attempts: 0, warned_slow: false, warned_long: false }
    }

    /// Counts a packet read at `now_ms` and says what is noticed with it.
    /// Each of the two notices is given once in a scan, with the first
    /// packet at which it holds.
    pub fn attempt(&mut self, now_ms: u64) -> (notice: ScanNotice)
        ensures
            final(self).started_ms == old(self).started_ms,
            final(self).attempts == next_attempts(old(self).attempts),
            notice.slow == (!old(self).warned_slow && is_slow(
                old(self).started_ms,
                now_ms,
                final(self).attempts,
            )),
            notice.long == (!old(self).warned_long && final(self).attempts > MAX_PACKET_SCAN),
            final(self).warned_slow == (old(self).warned_slow || notice.slow),
            final(self).warned_long == (old(self).warned_long || notice.long),
    {
        if self.attempts < u32::MAX {
            self.attempts = self.attempts + 1;
        }
        let slow = !self.warned_slow && now_ms > self.started_ms && now_ms - self.started_ms
            > SCAN_TIMEOUT_MS && self.attempts > SCAN_PATIENCE;
        let long = !self.warned_long && self.attempts > MAX_PACKET_SCAN;
        if slow {
            self.warned_slow = true;
        }
        if long {
            self.warned_long = true;
        }
        ScanNotice { slow, long }
    }
}

} // verus!
