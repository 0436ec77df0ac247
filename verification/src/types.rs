//! Constants shared by every SRXL2 frame.

use vstd::prelude::*;

verus! {

/// First byte of every SRXL2 frame.
pub const SPEKTRUM_SRXL_ID: u8 = 0xA6;

/// Largest frame, header and CRC included.
pub const SRXL_MAX_BUFFER_SIZE: usize = 80;

/// Bytes of the frame header: marker, packet type, length.
pub const HEADER_SIZE: usize = 3;

/// Bytes of the trailing CRC.
pub const CRC_SIZE: usize = 2;

/// STM32 families with a hardware-assisted serial mode.
#[derive(Clone, Copy, PartialEq, Eq, Structural, Debug)]
pub enum StmTargetFamily {
    /// STM32F3 family
    F3,
    /// STM32F7 family
    F7,
}

impl StmTargetFamily {
    /// The family's number: 3 or 7.
    pub open spec fn spec_number(self) -> u8 {
        match self {
            StmTargetFamily::F3 => 3,
            StmTargetFamily::F7 => 7,
        }
    }

    /// The family's number: 3 or 7.
    pub fn number(self) -> (n: u8)
        ensures
            n == self.spec_number(),
    {
        match self {
            StmTargetFamily::F3 => 3,
            StmTargetFamily::F7 => 7,
        }
    }
}

} // verus!
