//! The playback volume as the bit pattern of a single precision number.

use vstd::prelude::*;

verus! {

/// Bit pattern of `0.0`.
pub const SILENCE_BITS: u32 = 0;

/// Bit pattern of `1.0`.
pub const UNITY_BITS: u32 = 0x3F80_0000;

/// Bit pattern of positive infinity: every larger pattern without the sign bit is a NaN.
pub const INFINITY_BITS: u32 = 0x7F80_0000;

/// Whether `bits` encodes a number of the closed range from `0.0` to `1.0`.
///
/// Patterns without the sign bit order as the numbers they encode, so this is
/// a plain comparison with the pattern of `1.0`.
pub open spec fn in_unit_range(bits: u32) -> bool {
    bits <= UNITY_BITS
}

/// The volume that a request for `bits` sets: the number itself inside
/// `[0.0, 1.0]`, `1.0` for anything larger up to infinity, `0.0` for
/// negative numbers, negative zero and NaN.
pub open spec fn clamped(bits: u32) -> u32 {
    if bits <= UNITY_BITS {
        bits
    } else if bits <= INFINITY_BITS {
        UNITY_BITS
    } else {
        SILENCE_BITS
    }
}

/// Clamps a requested volume to `[0.0, 1.0]`.
pub fn clamp_volume(bits: u32) -> (r: u32)
    ensures
        r == clamped(bits),
        in_unit_range(r),
{
    if bits <= UNITY_BITS {
        bits
    } else if bits <= INFINITY_BITS {
        UNITY_BITS
    } else {
        SILENCE_BITS
    }
}

/// Milliseconds without a change after which a changed volume is saved.
pub const VOLUME_SAVE_DELAY_MS: u64 = 300;

/// Coalesces the saving of the volume. Changes come in bursts while a slider
/// moves, and saving is slow; so a change is saved only once
/// [`VOLUME_SAVE_DELAY_MS`] have passed without another, and then the latest.
pub struct VolumeSaver {
    /// The volume that is not saved yet, and when it was set.
    pending: Option<(u32, u64)>,
}

impl View for VolumeSaver {
    type V = Option<(u32, u64)>;

    closed spec fn view(&self) -> Option<(u32, u64)> {
        self.pending
    }
}

/// Whether a change made at `since` is saved at `now`.
pub open spec fn save_due(since: u64, now: u64) -> bool {
    now >= since && now - since >= VOLUME_SAVE_DELAY_MS
}

impl VolumeSaver {
    /// A saver with nothing to save.
    pub fn new() -> (r: Self)
        ensures
            r@ is None,
    {
        VolumeSaver { pending: None }
    }

    /// Notes that the volume was set to `bits` at `now_ms`. An earlier
    /// change that is not saved yet is forgotten.
    pub fn changed(&mut self, bits: u32, now_ms: u64)
        ensures
            final(self)@ == Some((bits, now_ms)),
    {
        self.pending = Some((bits, now_ms));
    }

    /// Asked at `now_ms`: the volume to save now, if one is due. A volume
    /// is handed out once.
    pub fn poll(&mut self, now_ms: u64) -> (r: Option<u32>)
        ensures
            match old(self)@ {
                Some((bits, since)) => if save_due(since, now_ms) {
                    r == Some(bits) && final(self)@ is None
                } else {
                    r is None && final(self)@ == old(self)@
                },
                None => r is None && final(self)@ is None,
            },
    {
        match self.pending {
            Some((bits, since)) => {
                if now_ms >= since && now_ms - since >= VOLUME_SAVE_DELAY_MS {
                    self.pending = None;
                    Some(bits)
                } else {
                    None
                }
            },
            None => None,
        }
    }
}

} // verus!
