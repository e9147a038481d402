//! Burst framing for transmit transfers.

use crate::config::Direction;
use vstd::prelude::*;

verus! {

/// The flag bit that marks the first transfer of a burst.
pub const META_FLAG_TX_BURST_START: u32 = 1;

/// The flag bit that marks the last transfer of a burst.
pub const META_FLAG_TX_BURST_END: u32 = 2;

/// Boundary markers attached to one transmit transfer.
#[derive(Clone, Copy, Debug, PartialEq, Eq, Structural)]
pub struct BurstFlags {
    pub start: bool,
    pub end: bool,
}

impl BurstFlags {
    /// The flags of a transfer that is a whole burst by itself.
    pub open spec fn whole() -> BurstFlags {
        BurstFlags { start: true, end: true }
    }

    /// The flags as the device's metadata carries them: the start bit and the
    /// end bit, each set where its marker is.
    pub open spec fn encoded(self) -> u32 {
        let start: u32 = if self.start {
            META_FLAG_TX_BURST_START
        } else {
            0
        };
        let end: u32 = if self.end {
            META_FLAG_TX_BURST_END
        } else {
            0
        };
        (start + end) as u32
    }

    /// The flags for a transfer of the given direction: every transmit
    /// transfer is a whole burst, and a receive transfer carries none.
    pub open spec fn framing(direction: Direction) -> Option<BurstFlags> {
        match direction {
            Direction::Tx => Some(BurstFlags::whole()),
            Direction::Rx => None,
        }
    }

    /// The flags of a transfer that is a whole burst by itself.
    pub fn complete() -> (flags: BurstFlags)
        ensures
            flags == BurstFlags::whole(),
    {
        BurstFlags { start: true, end: true }
    }

    /// Frames one transfer of the given direction.
    pub fn frame(direction: Direction) -> (flags: Option<BurstFlags>)
        ensures
            flags == BurstFlags::framing(direction),
    {
        match direction {
            Direction::Tx => Some(BurstFlags::complete()),
            Direction::Rx => None,
        }
    }

    /// The flags as a bit set for the device's metadata.
    pub fn bits(self) -> (bits: u32)
        ensures
            bits == self.encoded(),
            bits <= 3,
    {
        let start: u32 = if self.start {
            META_FLAG_TX_BURST_START
        } else {
            0
        };
        let end: u32 = if self.end {
            META_FLAG_TX_BURST_END
        } else {
            0
        };
        start + end
    }
}

} // verus!
