//! The states of a bus, and the payload of the vendor's internal packet.

use vstd::prelude::*;
use crate::device::DeviceId;
use crate::wire::{le32, lemma_le32_bytes, lemma_le32_value, push_le32, read_le32};

verus! {

/// Bytes of an internal payload on the wire.
pub const INTERNAL_SIZE: usize = 7;

/// Packet type code of the vendor's internal packet. It is none of the
/// public packet types: a bus sends it on request and drops it on receipt.
pub const INTERNAL_PACKET_CODE: u8 = 0x99;

/// Payload of the vendor's internal packet.
#[derive(Clone, Copy, PartialEq, Eq, Structural, Debug)]
pub struct InternalData {
    pub src_dev_id: DeviceId,
    pub dest_dev_id: DeviceId,
    pub test: u8,
    pub key: u32,
}

impl InternalData {
    /// The payload as it is sent.
    pub open spec fn wire(self) -> Seq<u8> {
        seq![self.src_dev_id.0, self.dest_dev_id.0, self.test] + le32(self.key)
    }

    /// Whether `bytes` are an internal payload: any seven bytes are.
    pub open spec fn is_image(bytes: Seq<u8>) -> bool {
        bytes.len() == INTERNAL_SIZE
    }

    /// Appends the payload to `out`.
    pub fn encode(&self, out: &mut Vec<u8>)
        ensures
            final(out)@ == old(out)@ + self.wire(),
    {
        out.push(self.src_dev_id.0);
        out.push(self.dest_dev_id.0);
        out.push(self.test);
        push_le32(out, self.key);
        assert(out@ =~= old(out)@ + self.wire());
    }

    /// Reads a payload: the value whose image `bytes` is, if it is one.
    pub fn decode(bytes: &[u8]) -> (r: Option<Self>)
        ensures
            r is Some <==> Self::is_image(bytes@),
            r matches Some(p) ==> p.wire() == bytes@,
    {
        if bytes.len() != INTERNAL_SIZE {
            return None;
        }
        let p = InternalData {
            src_dev_id: DeviceId(bytes[0]),
            dest_dev_id: DeviceId(bytes[1]),
            test: bytes[2],
            key: read_le32(bytes, 3),
        };
        proof {
            lemma_le32_bytes(bytes@, 3);
            assert(p.wire() =~= bytes@);
        }
        Some(p)
    }

    /// Every value has an image of seven bytes, and no two values share one.
    /// So reading what was written gives the value back, as writing what was
    /// read gives the bytes back.
    pub proof fn lemma_wire(self, other: Self)
        ensures
            Self::is_image(self.wire()),
            self.wire() == other.wire() ==> self == other,
    {
        lemma_le32_value(self.key);
        lemma_le32_value(other.key);
        let a = self.wire();
        let b = other.wire();
        assert(a.len() == 7);
        if a == b {
            assert(a[0] == b[0] && a[1] == b[1] && a[2] == b[2]);
            assert(a.subrange(3, 7) =~= le32(self.key));
            assert(b.subrange(3, 7) =~= le32(other.key));
        }
    }
}

/// Where a bus stands in its handshake and polling cycle.
#[derive(Clone, Copy, PartialEq, Eq, Structural, Debug)]
pub enum State {
    /// Default state before initialized or if bus is subsequently disabled
    Disabled,
    /// Wait 50ms to see if anything is already talking (i.e. we probably browned out)
    ListenOnStartup,
    /// Call when handshake should be sent every 50ms
    SendHandshake,
    /// Wait at least 150ms more for handshake request
    ListenForHandshake,
    /// Normal run state
    Running,
    /// Send telemetry reply when requested
    SendTelemetry,
    /// Send VTX packet when needed
    SendVtx,
    SendEnterBind,
    SendBoundDataReport,
    SendSetBindInfo,
    RequestBindInfo,
    SendInternal,
}

} // verus!
