//! The telemetry payload.

use vstd::prelude::*;
use crate::device::DeviceId;
use crate::wire::{push_bytes, read_array};

verus! {

/// Bytes of a telemetry payload on the wire.
pub const TELEMETRY_SIZE: usize = 17;

/// One telemetry record of a sensor.
#[derive(Clone, Copy, Debug)]
pub struct TelemetryData {
    pub sensor_id: u8,
    pub secondary_id: u8,
    pub data: [u8; 14],
}

impl TelemetryData {
    /// The record whose bytes are all zero.
    pub fn new() -> (t: Self)
        ensures
            t.sensor_id == 0,
            t.secondary_id == 0,
            t.data@ == Seq::new(14, |i: int| 0u8),
    {
        let t = TelemetryData { sensor_id: 0, secondary_id: 0, data: [0u8; 14] };
        assert(t.data@ =~= Seq::new(14, |i: int| 0u8));
        t
    }

    /// The record as it is sent.
    pub open spec fn wire(self) -> Seq<u8> {
        seq![self.sensor_id, self.secondary_id] + self.data@
    }
}

/// The payload of a telemetry packet.
#[derive(Clone, Copy, Debug)]
pub struct TelemetryPayload {
    pub dest_dev: DeviceId,
    pub payload: TelemetryData,
}

impl TelemetryPayload {
    /// The payload as it is sent.
    pub open spec fn wire(self) -> Seq<u8> {
        seq![self.dest_dev.0] + self.payload.wire()
    }

    /// Whether `bytes` are a telemetry payload: any seventeen bytes are.
    pub open spec fn is_image(bytes: Seq<u8>) -> bool {
        bytes.len() == TELEMETRY_SIZE
    }

    /// Appends the payload to `out`.
    pub fn encode(&self, out: &mut Vec<u8>)
        ensures
            final(out)@ == old(out)@ + self.wire(),
    {
        out.push(self.dest_dev.0);
        out.push(self.payload.sensor_id);
        out.push(self.payload.secondary_id);
        push_bytes(out, self.payload.data.as_slice());
        assert(out@ =~= old(out)@ + self.wire());
    }

    /// Reads a payload: the value whose image `bytes` is, if it is one.
    pub fn decode(bytes: &[u8]) -> (r: Option<Self>)
        ensures
            r is Some <==> Self::is_image(bytes@),
            r matches Some(p) ==> p.wire() == bytes@,
    {
        if bytes.len() != TELEMETRY_SIZE {
            return None;
        }
        let p = TelemetryPayload {
            dest_dev: DeviceId(bytes[0]),
            payload: TelemetryData {
                sensor_id: bytes[1],
                secondary_id: bytes[2],
                data: read_array::<14>(bytes, 3),
            },
        };
        proof {
            assert(p.wire() =~= bytes@);
        }
        Some(p)
    }

    /// Every value has an image of seventeen bytes, and no two values share one.
    /// So reading what was written gives the value back, as writing what was
    /// read gives the bytes back.
    pub proof fn lemma_wire(self, other: Self)
        ensures
            Self::is_image(self.wire()),
            self.wire() == other.wire() ==> self == other,
    {
        let a = self.wire();
        let b = other.wire();
        assert(a.len() == 17);
        if a == b {
            assert(a[0] == b[0] && a[1] == b[1] && a[2] == b[2]);
            assert(a.subrange(3, 17) =~= self.payload.data@);
            assert(b.subrange(3, 17) =~= other.payload.data@);
            assert(self.payload.data =~= other.payload.data);
        }
    }
}

} // verus!
