//! Audio channel layouts as bit masks, one bit per speaker position.
use vstd::prelude::*;

verus! {

/// Every speaker position that the engine defines: front and back
/// positions, side and top positions, the stereo-downmix, wide, direct
/// surround and second low-frequency positions, the top-side and bottom
/// positions, and the flag for the engine's native order.
pub const KNOWN_CHANNELS: u64 = 0x8000_01FF_E003_FFFF;

/// A set of speaker positions. It never holds a bit outside
/// `KNOWN_CHANNELS`.
#[derive(Clone, Copy, Debug, PartialEq, Eq, Structural)]
pub struct ChannelLayout {
    bits: u64,
}

impl View for ChannelLayout {
    type V = u64;

    closed spec fn view(&self) -> u64 {
        self.bits
    }
}

impl ChannelLayout {
    /// The layout made of the known positions among `bits`; any other bit
    /// is dropped.
    pub fn from_bits_truncate(bits: u64) -> (r: ChannelLayout)
        ensures
            r@ == bits & KNOWN_CHANNELS,
    {
        ChannelLayout { bits: bits & KNOWN_CHANNELS }
    }

    /// The mask of the positions in this layout.
    pub fn bits(&self) -> (r: u64)
        ensures
            r == self@,
    {
        self.bits
    }
}

/// Truncation keeps exactly the known positions: a layout made of known
/// positions comes through unchanged, and no unknown position survives.
pub proof fn lemma_truncate_keeps_known(bits: u64)
    ensures
        (bits & KNOWN_CHANNELS) & !KNOWN_CHANNELS == 0,
        bits & !KNOWN_CHANNELS == 0 ==> bits & KNOWN_CHANNELS == bits,
{
    assert((bits & 0x8000_01FF_E003_FFFFu64) & !0x8000_01FF_E003_FFFFu64 == 0) by (bit_vector);
    assert(bits & !0x8000_01FF_E003_FFFFu64 == 0 ==> bits & 0x8000_01FF_E003_FFFFu64 == bits)
        by (bit_vector);
}

} // verus!
