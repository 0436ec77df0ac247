//! What can be wrong with a frame or with a typed view of it.

use vstd::prelude::*;

verus! {

/// Why a typed view of a packet was refused.
#[derive(Clone, Copy, PartialEq, Eq, Structural, Debug)]
pub enum PacketCastError {
    /// The packet type, or the command code of a control packet, is not the
    /// one that the view is for.
    HeaderMismatch,
    /// The tag matches, but the payload is not a valid image of the type.
    Cast,
}

impl PacketCastError {
    /// A short text for logs.
    pub fn describe(&self) -> (text: &'static str)
        ensures
            *self == PacketCastError::HeaderMismatch ==> text@ == "packet tag does not match the requested view"@,
            *self == PacketCastError::Cast ==> text@ == "payload is not a valid image of the requested type"@,
    {
        match self {
            PacketCastError::HeaderMismatch => "packet tag does not match the requested view",
            PacketCastError::Cast => "payload is not a valid image of the requested type",
        }
    }
}

/// Why a received frame was dropped.
#[derive(Clone, Copy, PartialEq, Eq, Structural, Debug)]
pub enum FrameError {
    /// The first byte is not the SRXL2 marker.
    BadMarker,
    /// The packet type code is none of the known ones.
    UnknownType,
    /// The frame is shorter than a header with its CRC, longer than the
    /// largest frame, or its length byte is not the number of bytes received.
    BadLength,
    /// The trailing CRC is not the CRC of the bytes before it.
    Checksum,
}

} // verus!
