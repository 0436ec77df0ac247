//! The handshake payload, with which devices announce themselves.

use vstd::prelude::*;
use crate::device::{DeviceId, DeviceInfo};
use crate::flags::{FlagBit, Flags};
use crate::wire::{le32, lemma_le32_bytes, lemma_le32_value, push_le32, read_le32};

verus! {

/// Bytes of a handshake payload on the wire.
pub const HANDSHAKE_SIZE: usize = 9;

/// Supported additional baud rates besides default 115200.
/// Treated as a bit mask, ANDed with the baud rates of the slaves.
#[derive(Clone, Copy, PartialEq, Eq, Structural, Debug)]
pub enum Baud {
    Baud115200,
    Baud400000,
}

impl FlagBit for Baud {
    open spec fn spec_bit(&self) -> u8 {
        match self {
            Baud::Baud115200 => 0,
            Baud::Baud400000 => 1,
        }
    }

    fn bit(&self) -> (b: u8) {
        match self {
            Baud::Baud115200 => 0,
            Baud::Baud400000 => 1,
        }
    }
}

/// Handshake
#[derive(Clone, Copy, PartialEq, Eq, Structural, Debug)]
pub struct HandshakeData {
    pub src_dev_id: DeviceId,
    pub dest_dev_id: DeviceId,
    pub priority: u8,
    /// Bit mask of the baud rates besides 115200 that the sender can do, see `Baud`
    pub baud_supported: u8,
    /// Capability bits, see `DeviceInfo`
    pub info: u8,
    /// Unique/random id to allow detection of two devices on bus with same deviceID
    pub uid: u32,
}

impl HandshakeData {
    /// The payload as it is sent.
    pub open spec fn wire(self) -> Seq<u8> {
        seq![self.src_dev_id.0, self.dest_dev_id.0, self.priority, self.baud_supported, self.info]
            + le32(self.uid)
    }

    /// Whether `bytes` are a handshake payload: any nine bytes are.
    pub open spec fn is_image(bytes: Seq<u8>) -> bool {
        bytes.len() == HANDSHAKE_SIZE
    }

    /// The baud rates as flags.
    pub fn baud_flags(&self) -> (f: Flags<Baud>)
        ensures
            f.0 == self.baud_supported,
    {
        Flags::new(self.baud_supported)
    }

    /// The capability bits as flags.
    pub fn info_flags(&self) -> (f: Flags<DeviceInfo>)
        ensures
            f.0 == self.info,
    {
        Flags::new(self.info)
    }

    /// Appends the payload to `out`.
    pub fn encode(&self, out: &mut Vec<u8>)
        ensures
            final(out)@ == old(out)@ + self.wire(),
    {
        out.push(self.src_dev_id.0);
        out.push(self.dest_dev_id.0);
        out.push(self.priority);
        out.push(self.baud_supported);
        out.push(self.info);
        push_le32(out, self.uid);
        assert(out@ =~= old(out)@ + self.wire());
    }

    /// Reads a payload: the value whose image `bytes` is, if it is one.
    pub fn decode(bytes: &[u8]) -> (r: Option<Self>)
        ensures
            r is Some <==> Self::is_image(bytes@),
            r matches Some(h) ==> h.wire() == bytes@,
    {
        if bytes.len() != HANDSHAKE_SIZE {
            return None;
        }
        let h = HandshakeData {
            src_dev_id: DeviceId(bytes[0]),
            dest_dev_id: DeviceId(bytes[1]),
            priority: bytes[2],
            baud_supported: bytes[3],
            info: bytes[4],
            uid: read_le32(bytes, 5),
        };
        proof {
            lemma_le32_bytes(bytes@, 5);
            assert(h.wire() =~= bytes@);
        }
        Some(h)
    }

    /// Every value has an image of nine bytes, and no two values share one.
    /// So reading what was written gives the value back, as writing what was
    /// read gives the bytes back.
    pub proof fn lemma_wire(self, other: Self)
        ensures
            Self::is_image(self.wire()),
            self.wire() == other.wire() ==> self == other,
    {
        lemma_le32_value(self.uid);
        lemma_le32_value(other.uid);
        let a = self.wire();
        let b = other.wire();
        assert(a.len() == 9);
        if a == b {
            assert(a[0] == b[0] && a[1] == b[1] && a[2] == b[2] && a[3] == b[3] && a[4] == b[4]);
            assert(a.subrange(5, 9) =~= le32(self.uid));
            assert(b.subrange(5, 9) =~= le32(other.uid));
        }
    }
}

} // verus!
