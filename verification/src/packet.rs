//! Frames: the header, the CRC, and the typed views of a packet.
//!
//! A frame is the marker byte, the packet type, the frame's length, the
//! payload, and the CRC of everything before it, low byte first.

use vstd::prelude::*;
use vstd::slice::slice_subrange;
use crate::bind::BindPayload;
use crate::control::{ControlData, ControlPacket};
use crate::crc::{crc16, crc16_of, lemma_crc_detects_byte_change};
use crate::error::FrameError;
use crate::handshake::HandshakeData;
use crate::param::ParamPayload;
use crate::rssi::RssiPayload;
use crate::telemetry::TelemetryPayload;
use crate::types::{HEADER_SIZE, SPEKTRUM_SRXL_ID, SRXL_MAX_BUFFER_SIZE};
use crate::wire::{from_le16, le16, lemma_le16_value, push_bytes, read_le16};

verus! {

/// Bytes of a frame besides its payload: the header and the CRC.
pub const FRAME_OVERHEAD: usize = 5;

/// Bytes that a packet keeps after its header: payload and CRC.
pub const RAW_SIZE: usize = 77;

/// Most bytes of payload in a frame.
pub const MAX_PAYLOAD_SIZE: usize = 75;

/// Spektrum SRXL header
#[derive(Clone, Copy, PartialEq, Eq, Structural, Debug)]
pub struct Header {
    /// Always 0xA6 for SRXL2
    pub srxl_id: u8,
    pub packet_type: PacketType,
    /// Bytes in the whole frame, header and CRC included
    pub length: u8,
}

/// What a packet carries.
#[derive(Clone, Copy, PartialEq, Eq, Structural, Debug)]
pub enum PacketType {
    /// Handshake packet
    Handshake,
    /// Bind info packet
    BindInfo,
    /// Parameter config packet
    ParamConfig,
    /// Signal quality packet
    SignalQuality,
    /// Telemetry data packet
    TelemetryData,
    /// Control data packet
    ControlData,
}

impl PacketType {
    /// The type's code on the wire.
    pub open spec fn spec_code(self) -> u8 {
        match self {
            PacketType::Handshake => 0x21,
            PacketType::BindInfo => 0x41,
            PacketType::ParamConfig => 0x50,
            PacketType::SignalQuality => 0x55,
            PacketType::TelemetryData => 0x80,
            PacketType::ControlData => 0xCD,
        }
    }

    /// The type whose code is `code`, if there is one.
    pub open spec fn of_code(code: u8) -> Option<PacketType> {
        if code == 0x21 {
            Some(PacketType::Handshake)
        } else if code == 0x41 {
            Some(PacketType::BindInfo)
        } else if code == 0x50 {
            Some(PacketType::ParamConfig)
        } else if code == 0x55 {
            Some(PacketType::SignalQuality)
        } else if code == 0x80 {
            Some(PacketType::TelemetryData)
        } else if code == 0xCD {
            Some(PacketType::ControlData)
        } else {
            None
        }
    }

    /// The type's code on the wire.
    pub fn code(self) -> (c: u8)
        ensures
            c == self.spec_code(),
    {
        match self {
            PacketType::Handshake => 0x21,
            PacketType::BindInfo => 0x41,
            PacketType::ParamConfig => 0x50,
            PacketType::SignalQuality => 0x55,
            PacketType::TelemetryData => 0x80,
            PacketType::ControlData => 0xCD,
        }
    }

    /// The type whose code is `code`, if there is one.
    pub fn from_code(code: u8) -> (r: Option<PacketType>)
        ensures
            r == Self::of_code(code),
    {
        if code == 0x21 {
            Some(PacketType::Handshake)
        } else if code == 0x41 {
            Some(PacketType::BindInfo)
        } else if code == 0x50 {
            Some(PacketType::ParamConfig)
        } else if code == 0x55 {
            Some(PacketType::SignalQuality)
        } else if code == 0x80 {
            Some(PacketType::TelemetryData)
        } else if code == 0xCD {
            Some(PacketType::ControlData)
        } else {
            None
        }
    }
}

/// The bytes `body` followed by their CRC, low byte first.
pub open spec fn with_crc(body: Seq<u8>) -> Seq<u8> {
    body + le16(crc16(body))
}

/// The frame of packet type code `code` that carries `payload`.
pub open spec fn frame_of(code: u8, payload: Seq<u8>) -> Seq<u8> {
    with_crc(seq![SPEKTRUM_SRXL_ID, code, (payload.len() + FRAME_OVERHEAD) as u8] + payload)
}

/// What is wrong with `bytes` as a received frame, or its packet type if
/// nothing is. The checks are made in this order: the marker, the number of
/// bytes, the packet type, the length byte, the CRC.
pub open spec fn frame_check(bytes: Seq<u8>) -> Result<PacketType, FrameError> {
    if bytes.len() == 0 {
        Err(FrameError::BadLength)
    } else if bytes[0] != SPEKTRUM_SRXL_ID {
        Err(FrameError::BadMarker)
    } else if bytes.len() < FRAME_OVERHEAD || bytes.len() > SRXL_MAX_BUFFER_SIZE {
        Err(FrameError::BadLength)
    } else if PacketType::of_code(bytes[1]) is None {
        Err(FrameError::UnknownType)
    } else if bytes[2] != bytes.len() {
        Err(FrameError::BadLength)
    } else if from_le16(bytes, bytes.len() - 2) != crc16(bytes.take(bytes.len() - 2)) {
        Err(FrameError::Checksum)
    } else {
        Ok(PacketType::of_code(bytes[1]).unwrap())
    }
}

/// A frame built around a payload of at most seventy-five bytes passes
/// every check of a receiver.
pub proof fn lemma_frame_of_checks(ty: PacketType, payload: Seq<u8>)
    requires
        payload.len() <= MAX_PAYLOAD_SIZE,
    ensures
        frame_of(ty.spec_code(), payload).len() == payload.len() + FRAME_OVERHEAD,
        frame_check(frame_of(ty.spec_code(), payload)) == Ok::<PacketType, FrameError>(ty),
        frame_of(ty.spec_code(), payload).subrange(3, 3 + payload.len() as int) == payload,
{
    let body = seq![SPEKTRUM_SRXL_ID, ty.spec_code(), (payload.len() + FRAME_OVERHEAD) as u8]
        + payload;
    let f = frame_of(ty.spec_code(), payload);
    let n = f.len() as int;
    lemma_le16_value(crc16(body));
    assert(n == payload.len() + 5);
    assert(f.take(n - 2) =~= body);
    assert(f[n - 2] == le16(crc16(body))[0]);
    assert(f[n - 1] == le16(crc16(body))[1]);
    assert(from_le16(f, n - 2) == from_le16(le16(crc16(body)), 0));
    assert(f[0] == SPEKTRUM_SRXL_ID);
    assert(f[1] == ty.spec_code());
    assert(f[2] == n);
    assert(f.subrange(3, 3 + payload.len() as int) =~= payload);
}

/// No corruption of a single byte goes unnoticed: a frame that passes the
/// checks fails them once the byte at any one place, in the header, the
/// payload or the CRC, is replaced by another value.
pub proof fn law_corrupt_byte_detected(frame: Seq<u8>, k: int, v: u8)
    requires
        frame_check(frame) is Ok,
        0 <= k < frame.len(),
        v != frame[k],
    ensures
        frame_check(frame.update(k, v)) is Err,
{
    let n = frame.len() as int;
    let bad = frame.update(k, v);
    if k == 0 || k == 2 {
    } else if k < n - 2 {
        assert(bad.take(n - 2) =~= frame.take(n - 2).update(k, v));
        lemma_crc_detects_byte_change(frame.take(n - 2), k, v);
        assert(from_le16(bad, n - 2) == from_le16(frame, n - 2));
    } else {
        assert(bad.take(n - 2) =~= frame.take(n - 2));
        assert(from_le16(bad, n - 2) != from_le16(frame, n - 2));
    }
}

/// No flip of a single bit goes unnoticed: a frame that passes the checks
/// fails them once any one bit of it, in the header, the payload or the CRC,
/// is inverted.
pub proof fn law_bit_flip_detected(frame: Seq<u8>, k: int, bit: u8)
    requires
        frame_check(frame) is Ok,
        0 <= k < frame.len(),
        bit < 8,
    ensures
        frame_check(frame.update(k, frame[k] ^ (1u8 << bit))) is Err,
{
    let b = frame[k];
    assert(bit < 8 ==> b ^ (1u8 << bit) != b) by (bit_vector);
    law_corrupt_byte_detected(frame, k, b ^ (1u8 << bit));
}

/// A frame stands for one packet only: two well-formed packets with the
/// same frame are the same packet. So parsing what was serialized gives the
/// packet back, as serializing what was parsed gives the bytes back.
pub proof fn law_frame_round_trip(p: Packet, q: Packet)
    requires
        p.wf(),
        q.wf(),
        p.wire() == q.wire(),
    ensures
        p == q,
{
    let a = p.wire();
    let b = q.wire();
    assert(a[0] == p.hdr.srxl_id && b[0] == q.hdr.srxl_id);
    assert(a[1] == p.hdr.packet_type.spec_code() && b[1] == q.hdr.packet_type.spec_code());
    assert(a[2] == p.hdr.length && b[2] == q.hdr.length);
    let n = p.hdr.length - HEADER_SIZE;
    assert forall|i: int| 0 <= i < RAW_SIZE implies p.raw@[i] == q.raw@[i] by {
        if i < n {
            assert(a[3 + i] == p.raw@[i]);
            assert(b[3 + i] == q.raw@[i]);
        }
    }
    assert(p.raw =~= q.raw);
}

/// Builds the frame of packet type code `code` around `payload`, with a
/// fresh CRC. `None` when the payload is longer than a frame can hold.
pub fn build_frame(code: u8, payload: &[u8]) -> (r: Option<Vec<u8>>)
    ensures
        r is Some <==> payload.len() <= MAX_PAYLOAD_SIZE,
        r matches Some(f) ==> f@ == frame_of(code, payload@),
{
    let n = payload.len();
    if n > MAX_PAYLOAD_SIZE {
        return None;
    }
    let mut frame: Vec<u8> = Vec::new();
    frame.push(SPEKTRUM_SRXL_ID);
    frame.push(code);
    frame.push((n + FRAME_OVERHEAD) as u8);
    push_bytes(&mut frame, payload);
    let ghost body = seq![SPEKTRUM_SRXL_ID, code, (n + FRAME_OVERHEAD) as u8] + payload@;
    assert(frame@ =~= body);
    let crc = crc16_of(frame.as_slice(), n + 3);
    assert(frame@.take(n + 3) =~= body);
    frame.push((crc % 256) as u8);
    frame.push((crc / 256) as u8);
    assert(frame@ =~= frame_of(code, payload@));
    Some(frame)
}

/// A packet in memory: the header, then the payload and the CRC in the
/// first bytes of `raw`.
#[derive(Clone, Copy, Debug)]
pub struct Packet {
    pub hdr: Header,
    pub raw: [u8; 77],
}

/// A bind info packet seen as such.
#[derive(Clone, Copy, Debug)]
pub struct BindPacket {
    pub hdr: Header,
    pub bind: BindPayload,
}

/// A handshake packet seen as such.
#[derive(Clone, Copy, Debug)]
pub struct HandshakePacket {
    pub hdr: Header,
    pub handshake: HandshakeData,
}

/// A parameter configuration packet seen as such.
#[derive(Clone, Copy, Debug)]
pub struct ParamPacket {
    pub hdr: Header,
    pub param: ParamPayload,
}

/// A signal quality packet seen as such.
#[derive(Clone, Copy, Debug)]
pub struct RssiPacket {
    pub hdr: Header,
    pub rssi: RssiPayload,
}

/// A telemetry packet seen as such.
#[derive(Clone, Copy, Debug)]
pub struct TelemetryPacket {
    pub hdr: Header,
    pub telemetry: TelemetryPayload,
}

impl Packet {
    /// The frame that the packet stands for. It has a meaning for a header
    /// whose length is between that of a bare header and the largest frame.
    pub open spec fn wire(self) -> Seq<u8> {
        seq![self.hdr.srxl_id, self.hdr.packet_type.spec_code(), self.hdr.length] + self.raw@.take(
            self.hdr.length - HEADER_SIZE,
        )
    }

    /// The payload: what stands between the header and the CRC. A packet
    /// whose length leaves no room for header and CRC, or exceeds the
    /// largest frame, has none.
    pub open spec fn payload(self) -> Seq<u8> {
        if FRAME_OVERHEAD <= self.hdr.length <= SRXL_MAX_BUFFER_SIZE {
            self.raw@.take(self.hdr.length - FRAME_OVERHEAD)
        } else {
            Seq::empty()
        }
    }

    /// A packet is well formed when its frame passes the checks of a
    /// receiver and the bytes of `raw` behind the frame are zero.
    pub open spec fn wf(self) -> bool {
        &&& frame_check(self.wire()) == Ok::<PacketType, FrameError>(self.hdr.packet_type)
        &&& forall|i: int| self.hdr.length - HEADER_SIZE <= i < RAW_SIZE ==> self.raw@[i] == 0
    }

    /// Checks a received frame and keeps it as a packet. The frame must be
    /// exactly the bytes received: the first failed check, in the order of
    /// `frame_check`, is the error.
    pub fn parse(bytes: &[u8]) -> (r: Result<Packet, FrameError>)
        ensures
            match r {
                Ok(p) => frame_check(bytes@) is Ok && p.wf() && p.wire() == bytes@,
                Err(e) => frame_check(bytes@) == Err::<PacketType, FrameError>(e),
            },
    {
        let n = bytes.len();
        if n == 0 {
            return Err(FrameError::BadLength);
        }
        if bytes[0] != SPEKTRUM_SRXL_ID {
            return Err(FrameError::BadMarker);
        }
        if n < FRAME_OVERHEAD || n > SRXL_MAX_BUFFER_SIZE {
            return Err(FrameError::BadLength);
        }
        let packet_type = match PacketType::from_code(bytes[1]) {
            Some(t) => t,
            None => {
                return Err(FrameError::UnknownType);
            },
        };
        if bytes[2] as usize != n {
            return Err(FrameError::BadLength);
        }
        let sent = read_le16(bytes, n - 2);
        let computed = crc16_of(bytes, n - 2);
        if sent != computed {
            return Err(FrameError::Checksum);
        }
        let mut raw: [u8; 77] = [0u8; 77];
        let mut i: usize = 0;
        while i < n - 3
            invariant
                i <= n - 3,
                5 <= n <= 80,
                n == bytes.len(),
                raw@.len() == 77,
                forall|j: int| 0 <= j < i ==> raw@[j] == bytes@[3 + j],
                forall|j: int| i <= j < 77 ==> raw@[j] == 0,
            decreases n - 3 - i,
        {
            raw[i] = bytes[3 + i];
            i += 1;
        }
        let p = Packet { hdr: Header { srxl_id: bytes[0], packet_type, length: bytes[2] }, raw };
        assert(p.wire() =~= bytes@);
        Ok(p)
    }

    /// Builds the packet of type `packet_type` around `payload`, with a
    /// fresh CRC. `None` when the payload is longer than a frame can hold.
    pub fn build(packet_type: PacketType, payload: &[u8]) -> (r: Option<Packet>)
        ensures
            r is Some <==> payload.len() <= MAX_PAYLOAD_SIZE,
            r matches Some(p) ==> {
                &&& p.wf()
                &&& p.hdr.packet_type == packet_type
                &&& p.hdr.length == payload.len() + FRAME_OVERHEAD
                &&& p.payload() == payload@
                &&& p.wire() == frame_of(packet_type.spec_code(), payload@)
            },
    {
        let n = payload.len();
        if n > MAX_PAYLOAD_SIZE {
            return None;
        }
        let length: u8 = (n + FRAME_OVERHEAD) as u8;
        let mut body: Vec<u8> = Vec::new();
        body.push(SPEKTRUM_SRXL_ID);
        body.push(packet_type.code());
        body.push(length);
        push_bytes(&mut body, payload);
        let ghost head = seq![SPEKTRUM_SRXL_ID, packet_type.spec_code(), length] + payload@;
        assert(body@ =~= head);
        let crc = crc16_of(body.as_slice(), n + 3);
        assert(body@.take(n + 3) =~= head);
        let mut raw: [u8; 77] = [0u8; 77];
        let mut i: usize = 0;
        while i < n
            invariant
                i <= n,
                n <= MAX_PAYLOAD_SIZE,
                n == payload.len(),
                raw@.len() == 77,
                forall|j: int| 0 <= j < i ==> raw@[j] == payload@[j],
                forall|j: int| i <= j < 77 ==> raw@[j] == 0,
            decreases n - i,
        {
            raw[i] = payload[i];
            i += 1;
        }
        raw[n] = (crc % 256) as u8;
        raw[n + 1] = (crc / 256) as u8;
        let p = Packet { hdr: Header { srxl_id: SPEKTRUM_SRXL_ID, packet_type, length }, raw };
        proof {
            lemma_frame_of_checks(packet_type, payload@);
            assert(p.wire() =~= frame_of(packet_type.spec_code(), payload@));
            assert(p.payload() =~= payload@);
        }
        Some(p)
    }

    /// Writes the frame of a well-formed packet into `out`, in place of
    /// what `out` held, and returns the number of bytes written.
    pub fn serialize(&self, out: &mut Vec<u8>) -> (n: usize)
        requires
            self.wf(),
        ensures
            final(out)@ == self.wire(),
            n == self.hdr.length,
    {
        out.clear();
        out.push(self.hdr.srxl_id);
        out.push(self.hdr.packet_type.code());
        out.push(self.hdr.length);
        let m: usize = self.hdr.length as usize - HEADER_SIZE;
        let rest = slice_subrange(self.raw.as_slice(), 0, m);
        push_bytes(out, rest);
        assert(out@ =~= self.wire());
        self.hdr.length as usize
    }

    /// The payload as a slice, for a packet whose header says `size` bytes
    /// of payload; `None` for any other length of the frame.
    fn payload_bytes(&self, size: usize) -> (r: Option<&[u8]>)
        requires
            size <= MAX_PAYLOAD_SIZE,
        ensures
            r is Some <==> self.hdr.length == size + FRAME_OVERHEAD,
            r matches Some(s) ==> s@ == self.payload(),
    {
        if self.hdr.length as usize != size + FRAME_OVERHEAD {
            return None;
        }
        let s = slice_subrange(self.raw.as_slice(), 0, size);
        assert(s@ =~= self.payload());
        Some(s)
    }

    /// The packet as a bind info packet: `Some` exactly when the header
    /// says bind info and the payload is the image of a bind info payload.
    pub fn as_bind_ref(&self) -> (r: Option<BindPacket>)
        ensures
            r is Some <==> self.hdr.packet_type == PacketType::BindInfo && BindPayload::is_image(
                self.payload(),
            ),
            r matches Some(v) ==> v.hdr == self.hdr && v.bind.wire() == self.payload(),
    {
        if self.hdr.packet_type != PacketType::BindInfo {
            return None;
        }
        match self.payload_bytes(crate::bind::BIND_SIZE) {
            None => None,
            Some(s) => match BindPayload::decode(s) {
                None => None,
                Some(bind) => Some(BindPacket { hdr: self.hdr, bind }),
            },
        }
    }

    /// The packet as a handshake packet: `Some` exactly when the header
    /// says handshake and the payload is the image of a handshake.
    pub fn as_handshake_ref(&self) -> (r: Option<HandshakePacket>)
        ensures
            r is Some <==> self.hdr.packet_type == PacketType::Handshake
                && HandshakeData::is_image(self.payload()),
            r matches Some(v) ==> v.hdr == self.hdr && v.handshake.wire() == self.payload(),
    {
        if self.hdr.packet_type != PacketType::Handshake {
            return None;
        }
        match self.payload_bytes(crate::handshake::HANDSHAKE_SIZE) {
            None => None,
            Some(s) => match HandshakeData::decode(s) {
                None => None,
                Some(handshake) => Some(HandshakePacket { hdr: self.hdr, handshake }),
            },
        }
    }

    /// The packet as a parameter configuration packet: `Some` exactly when
    /// the header says so and the payload is the image of such a payload.
    pub fn as_param_ref(&self) -> (r: Option<ParamPacket>)
        ensures
            r is Some <==> self.hdr.packet_type == PacketType::ParamConfig
                && ParamPayload::is_image(self.payload()),
            r matches Some(v) ==> v.hdr == self.hdr && v.param.wire() == self.payload(),
    {
        if self.hdr.packet_type != PacketType::ParamConfig {
            return None;
        }
        match self.payload_bytes(crate::param::PARAM_SIZE) {
            None => None,
            Some(s) => match ParamPayload::decode(s) {
                None => None,
                Some(param) => Some(ParamPacket { hdr: self.hdr, param }),
            },
        }
    }

    /// The packet as a signal quality packet: `Some` exactly when the
    /// header says so and the payload is the image of such a payload.
    pub fn as_rssi_ref(&self) -> (r: Option<RssiPacket>)
        ensures
            r is Some <==> self.hdr.packet_type == PacketType::SignalQuality
                && RssiPayload::is_image(self.payload()),
            r matches Some(v) ==> v.hdr == self.hdr && v.rssi.wire() == self.payload(),
    {
        if self.hdr.packet_type != PacketType::SignalQuality {
            return None;
        }
        match self.payload_bytes(crate::rssi::RSSI_SIZE) {
            None => None,
            Some(s) => match RssiPayload::decode(s) {
                None => None,
                Some(rssi) => Some(RssiPacket { hdr: self.hdr, rssi }),
            },
        }
    }

    /// The packet as a telemetry packet: `Some` exactly when the header
    /// says telemetry and the payload is the image of a telemetry payload.
    pub fn as_telemetry_ref(&self) -> (r: Option<TelemetryPacket>)
        ensures
            r is Some <==> self.hdr.packet_type == PacketType::TelemetryData
                && TelemetryPayload::is_image(self.payload()),
            r matches Some(v) ==> v.hdr == self.hdr && v.telemetry.wire() == self.payload(),
    {
        if self.hdr.packet_type != PacketType::TelemetryData {
            return None;
        }
        match self.payload_bytes(crate::telemetry::TELEMETRY_SIZE) {
            None => None,
            Some(s) => match TelemetryPayload::decode(s) {
                None => None,
                Some(telemetry) => Some(TelemetryPacket { hdr: self.hdr, telemetry }),
            },
        }
    }

    /// The packet as a control packet: `Some` exactly when the header says
    /// control data and the payload is the image of control data.
    pub fn as_control_ref(&self) -> (r: Option<ControlPacket>)
        ensures
            r is Some <==> self.hdr.packet_type == PacketType::ControlData
                && ControlData::is_image(self.payload()),
            r matches Some(v) ==> v.hdr == self.hdr && v.control.wire() == self.payload(),
    {
        if self.hdr.packet_type != PacketType::ControlData {
            return None;
        }
        match self.payload_bytes(crate::control::CONTROL_SIZE) {
            None => None,
            Some(s) => match ControlData::decode(s) {
                None => None,
                Some(control) => Some(ControlPacket { hdr: self.hdr, control }),
            },
        }
    }

    /// The handshake packet that carries `h`.
    pub fn from_handshake(h: &HandshakeData) -> (p: Packet)
        ensures
            p.wf(),
            p.hdr.packet_type == PacketType::Handshake,
            p.payload() == h.wire(),
            p.wire() == frame_of(PacketType::Handshake.spec_code(), h.wire()),
    {
        let mut payload: Vec<u8> = Vec::new();
        h.encode(&mut payload);
        assert(payload@ =~= h.wire());
        Packet::build(PacketType::Handshake, payload.as_slice()).unwrap()
    }

    /// The bind info packet that carries `b`.
    pub fn from_bind(b: &BindPayload) -> (p: Packet)
        ensures
            p.wf(),
            p.hdr.packet_type == PacketType::BindInfo,
            p.payload() == b.wire(),
            p.wire() == frame_of(PacketType::BindInfo.spec_code(), b.wire()),
    {
        let mut payload: Vec<u8> = Vec::new();
        b.encode(&mut payload);
        assert(payload@ =~= b.wire());
        Packet::build(PacketType::BindInfo, payload.as_slice()).unwrap()
    }

    /// The parameter configuration packet that carries `q`.
    pub fn from_param(q: &ParamPayload) -> (p: Packet)
        ensures
            p.wf(),
            p.hdr.packet_type == PacketType::ParamConfig,
            p.payload() == q.wire(),
            p.wire() == frame_of(PacketType::ParamConfig.spec_code(), q.wire()),
    {
        let mut payload: Vec<u8> = Vec::new();
        q.encode(&mut payload);
        assert(payload@ =~= q.wire());
        Packet::build(PacketType::ParamConfig, payload.as_slice()).unwrap()
    }

    /// The signal quality packet that carries `q`.
    pub fn from_rssi(q: &RssiPayload) -> (p: Packet)
        ensures
            p.wf(),
            p.hdr.packet_type == PacketType::SignalQuality,
            p.payload() == q.wire(),
            p.wire() == frame_of(PacketType::SignalQuality.spec_code(), q.wire()),
    {
        let mut payload: Vec<u8> = Vec::new();
        q.encode(&mut payload);
        assert(payload@ =~= q.wire());
        Packet::build(PacketType::SignalQuality, payload.as_slice()).unwrap()
    }

    /// The telemetry packet that carries `t`.
    pub fn from_telemetry(t: &TelemetryPayload) -> (p: Packet)
        ensures
            p.wf(),
            p.hdr.packet_type == PacketType::TelemetryData,
            p.payload() == t.wire(),
            p.wire() == frame_of(PacketType::TelemetryData.spec_code(), t.wire()),
    {
        let mut payload: Vec<u8> = Vec::new();
        t.encode(&mut payload);
        assert(payload@ =~= t.wire());
        Packet::build(PacketType::TelemetryData, payload.as_slice()).unwrap()
    }

    /// The control packet that carries `c`.
    pub fn from_control(c: &ControlData) -> (p: Packet)
        ensures
            p.wf(),
            p.hdr.packet_type == PacketType::ControlData,
            p.payload() == c.wire(),
            p.wire() == frame_of(PacketType::ControlData.spec_code(), c.wire()),
    {
        let mut payload: Vec<u8> = Vec::new();
        c.encode(&mut payload);
        assert(payload@ =~= c.wire());
        Packet::build(PacketType::ControlData, payload.as_slice()).unwrap()
    }
}

} // verus!
