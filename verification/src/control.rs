//! Control data: one buffer that holds channel data, video transmitter
//! settings or forward programming data, as its command code says.

use vstd::prelude::*;
use vstd::slice::slice_subrange;
use crate::channel::{ChannelData, CHANNEL_SIZE};
use crate::device::DeviceId;
use crate::error::PacketCastError;
use crate::fwd_pgm::{FwdPgmData, FWD_PGM_SIZE};
use crate::packet::Header;
use crate::vtx::{VtxData, VTX_SIZE};
use crate::wire::{push_bytes, read_array};

verus! {

/// Bytes of a control packet besides the data buffer: header, command
/// code, reply id and CRC.
pub const BASE_LENGTH: u8 = 3 + 2 + 2;

/// Bytes of the data buffer: those of the largest of the three payloads.
pub const CONTROL_DATA_SIZE: usize = 71;

/// Bytes of a control payload on the wire: command code, reply id, buffer.
pub const CONTROL_SIZE: usize = 73;

/// What the data buffer of a control packet holds.
#[derive(Clone, Copy, PartialEq, Eq, Structural, Debug)]
pub enum CmdCode {
    Channel,
    ChannelFailsafe,
    Vtx,
    FwdPgm,
}

impl CmdCode {
    /// The command's code on the wire.
    pub open spec fn spec_code(self) -> u8 {
        match self {
            CmdCode::Channel => 0x00,
            CmdCode::ChannelFailsafe => 0x01,
            CmdCode::Vtx => 0x02,
            CmdCode::FwdPgm => 0x03,
        }
    }

    /// The command whose code is `code`, if there is one.
    pub open spec fn of_code(code: u8) -> Option<CmdCode> {
        if code == 0x00 {
            Some(CmdCode::Channel)
        } else if code == 0x01 {
            Some(CmdCode::ChannelFailsafe)
        } else if code == 0x02 {
            Some(CmdCode::Vtx)
        } else if code == 0x03 {
            Some(CmdCode::FwdPgm)
        } else {
            None
        }
    }

    /// The command's code on the wire.
    pub fn code(self) -> (c: u8)
        ensures
            c == self.spec_code(),
    {
        match self {
            CmdCode::Channel => 0x00,
            CmdCode::ChannelFailsafe => 0x01,
            CmdCode::Vtx => 0x02,
            CmdCode::FwdPgm => 0x03,
        }
    }

    /// The command whose code is `code`, if there is one.
    pub fn from_code(code: u8) -> (r: Option<CmdCode>)
        ensures
            r == Self::of_code(code),
    {
        if code == 0x00 {
            Some(CmdCode::Channel)
        } else if code == 0x01 {
            Some(CmdCode::ChannelFailsafe)
        } else if code == 0x02 {
            Some(CmdCode::Vtx)
        } else if code == 0x03 {
            Some(CmdCode::FwdPgm)
        } else {
            None
        }
    }

    /// Whether the buffer holds channel data, live or fail-safe.
    pub open spec fn spec_is_channel(self) -> bool {
        self == CmdCode::Channel || self == CmdCode::ChannelFailsafe
    }
}

/// The kinds of packet that a bus can be asked to send.
#[derive(Clone, Copy, PartialEq, Eq, Structural, Debug)]
pub enum Cmd {
    NoCmd,
    Channel,
    ChannelFs,
    Vtx,
    FwdPgm,
    Rssi,
    Handshake,
    Telemtry,
    EnterBind,
    ReqBindInfo,
    SetBind,
    BindInfo,
    Internal,
}

/// The larger of two sizes; `a` where they are equal.
pub open spec fn spec_max2(a: usize, b: usize) -> usize {
    if b > a {
        b
    } else {
        a
    }
}

/// The largest of three sizes.
pub open spec fn spec_max3(a: usize, b: usize, c: usize) -> usize {
    spec_max2(spec_max2(a, b), c)
}

/// The larger of two sizes.
pub fn max2(a: usize, b: usize) -> (m: usize)
    ensures
        m == spec_max2(a, b),
        m >= a && m >= b,
        m == a || m == b,
{
    if b > a {
        b
    } else {
        a
    }
}

/// The largest of three sizes.
pub fn max3(a: usize, b: usize, c: usize) -> (m: usize)
    ensures
        m == spec_max3(a, b, c),
        m >= a && m >= b && m >= c,
        m == a || m == b || m == c,
{
    if c > a && c > b {
        c
    } else {
        max2(a, b)
    }
}

/// The largest of three sizes, found by comparing the first two and then
/// the larger of them with the third.
pub fn max(a: usize, b: usize, c: usize) -> (m: usize)
    ensures
        m == spec_max3(a, b, c),
        m >= a && m >= b && m >= c,
        m == a || m == b || m == c,
{
    if b > a {
        if c > b {
            c
        } else {
            b
        }
    } else {
        if c > a {
            c
        } else {
            a
        }
    }
}

/// The data buffer is as large as the largest payload that it can hold.
pub proof fn law_buffer_holds_largest()
    ensures
        CONTROL_DATA_SIZE == spec_max3(VTX_SIZE, FWD_PGM_SIZE, CHANNEL_SIZE),
        CONTROL_SIZE == CONTROL_DATA_SIZE + 2,
        CONTROL_SIZE + BASE_LENGTH - 2 <= crate::types::SRXL_MAX_BUFFER_SIZE,
{
}

/// The payload of a control packet.
#[derive(Clone, Copy, Debug)]
pub struct ControlData {
    pub cmd: CmdCode,
    pub reply_id: DeviceId,
    pub data: [u8; 71],
}

/// Control data whose buffer holds video transmitter settings.
#[derive(Clone, Copy, Debug)]
pub struct ControlVtxData {
    pub cmd: CmdCode,
    pub reply_id: DeviceId,
    pub data: VtxData,
}

/// Control data whose buffer holds forward programming data.
#[derive(Clone, Copy, Debug)]
pub struct ControlFwdPgmData {
    pub cmd: CmdCode,
    pub reply_id: DeviceId,
    pub data: FwdPgmData,
}

/// Control data whose buffer holds channel data.
#[derive(Clone, Copy, Debug)]
pub struct ControlChannelData {
    pub cmd: CmdCode,
    pub reply_id: DeviceId,
    pub data: ChannelData,
}

/// A control packet seen as such.
#[derive(Clone, Copy, Debug)]
pub struct ControlPacket {
    pub hdr: Header,
    pub control: ControlData,
}

/// A control packet that carries video transmitter settings.
#[derive(Clone, Copy, Debug)]
pub struct ControlVtxPacket {
    pub hdr: Header,
    pub control: ControlVtxData,
}

/// A control packet that carries forward programming data.
#[derive(Clone, Copy, Debug)]
pub struct ControlFwdPgmPacket {
    pub hdr: Header,
    pub control: ControlFwdPgmData,
}

/// A control packet that carries channel data.
#[derive(Clone, Copy, Debug)]
pub struct ControlChannelPacket {
    pub hdr: Header,
    pub control: ControlChannelData,
}

/// `payload` followed by as many zero bytes as fill the data buffer.
pub open spec fn padded(payload: Seq<u8>) -> Seq<u8> {
    payload + Seq::new((CONTROL_DATA_SIZE - payload.len()) as nat, |i: int| 0u8)
}

/// Copies `payload` to the start of a zeroed data buffer.
fn fill_buffer(payload: &[u8]) -> (data: [u8; 71])
    requires
        payload.len() <= CONTROL_DATA_SIZE,
    ensures
        data@ == padded(payload@),
{
    let mut data: [u8; 71] = [0u8; 71];
    let mut i: usize = 0;
    while i < payload.len()
        invariant
            i <= payload.len(),
            payload.len() <= CONTROL_DATA_SIZE,
            data@.len() == 71,
            forall|j: int| 0 <= j < i ==> data@[j] == payload@[j],
            forall|j: int| i <= j < 71 ==> data@[j] == 0,
        decreases payload.len() - i,
    {
        data[i] = payload[i];
        i += 1;
    }
    assert(data@ =~= padded(payload@));
    data
}

impl ControlData {
    /// The payload as it is sent.
    pub open spec fn wire(self) -> Seq<u8> {
        seq![self.cmd.spec_code(), self.reply_id.0] + self.data@
    }

    /// Whether `bytes` are a control payload: seventy-three bytes that
    /// start with a command code.
    pub open spec fn is_image(bytes: Seq<u8>) -> bool {
        bytes.len() == CONTROL_SIZE && CmdCode::of_code(bytes[0]) is Some
    }

    /// Appends the payload to `out`.
    pub fn encode(&self, out: &mut Vec<u8>)
        ensures
            final(out)@ == old(out)@ + self.wire(),
    {
        out.push(self.cmd.code());
        out.push(self.reply_id.0);
        push_bytes(out, self.data.as_slice());
        assert(out@ =~= old(out)@ + self.wire());
    }

    /// Reads a payload: the value whose image `bytes` is, if it is one.
    pub fn decode(bytes: &[u8]) -> (r: Option<Self>)
        ensures
            r is Some <==> Self::is_image(bytes@),
            r matches Some(c) ==> c.wire() == bytes@,
    {
        if bytes.len() != CONTROL_SIZE {
            return None;
        }
        let cmd = match CmdCode::from_code(bytes[0]) {
            Some(c) => c,
            None => {
                return None;
            },
        };
        let c = ControlData { cmd, reply_id: DeviceId(bytes[1]), data: read_array::<71>(bytes, 2) };
        proof {
            assert(c.wire() =~= bytes@);
        }
        Some(c)
    }

    /// Every value has an image of seventy-three bytes, and no two values
    /// share one.
    /// So reading what was written gives the value back, as writing what was
    /// read gives the bytes back.
    pub proof fn lemma_wire(self, other: Self)
        ensures
            Self::is_image(self.wire()),
            self.wire() == other.wire() ==> self == other,
    {
        let a = self.wire();
        let b = other.wire();
        assert(a.len() == 73);
        assert(a[0] == self.cmd.spec_code());
        if a == b {
            assert(a[0] == b[0] && a[1] == b[1]);
            assert(a.subrange(2, 73) =~= self.data@);
            assert(b.subrange(2, 73) =~= other.data@);
            assert(self.data =~= other.data);
        }
    }

    /// Control data that carries channel data, marked as fail-safe values
    /// where `failsafe` is set.
    pub fn from_channel(failsafe: bool, reply_id: DeviceId, channel: &ChannelData) -> (c: Self)
        ensures
            c.cmd == if failsafe {
                CmdCode::ChannelFailsafe
            } else {
                CmdCode::Channel
            },
            c.reply_id == reply_id,
            c.data@ == channel.wire(),
    {
        let mut payload: Vec<u8> = Vec::new();
        channel.encode(&mut payload);
        proof {
            channel.lemma_wire(*channel);
            assert(payload@ =~= channel.wire());
            assert(padded(channel.wire()) =~= channel.wire());
        }
        let cmd = if failsafe {
            CmdCode::ChannelFailsafe
        } else {
            CmdCode::Channel
        };
        ControlData { cmd, reply_id, data: fill_buffer(payload.as_slice()) }
    }

    /// Control data that carries video transmitter settings; the rest of
    /// the buffer is zero.
    pub fn from_vtx(reply_id: DeviceId, vtx: &VtxData) -> (c: Self)
        ensures
            c.cmd == CmdCode::Vtx,
            c.reply_id == reply_id,
            c.data@ == padded(vtx.wire()),
            c.data@.take(VTX_SIZE as int) == vtx.wire(),
    {
        let mut payload: Vec<u8> = Vec::new();
        vtx.encode(&mut payload);
        proof {
            vtx.lemma_wire(*vtx);
            assert(payload@ =~= vtx.wire());
            assert(padded(vtx.wire()).take(VTX_SIZE as int) =~= vtx.wire());
        }
        ControlData { cmd: CmdCode::Vtx, reply_id, data: fill_buffer(payload.as_slice()) }
    }

    /// Control data that carries forward programming data; the rest of the
    /// buffer is zero.
    pub fn from_fwd_pgm(reply_id: DeviceId, fwd_pgm: &FwdPgmData) -> (c: Self)
        ensures
            c.cmd == CmdCode::FwdPgm,
            c.reply_id == reply_id,
            c.data@ == padded(fwd_pgm.wire()),
            c.data@.take(FWD_PGM_SIZE as int) == fwd_pgm.wire(),
    {
        let mut payload: Vec<u8> = Vec::new();
        fwd_pgm.encode(&mut payload);
        proof {
            fwd_pgm.lemma_wire(*fwd_pgm);
            assert(payload@ =~= fwd_pgm.wire());
            assert(padded(fwd_pgm.wire()).take(FWD_PGM_SIZE as int) =~= fwd_pgm.wire());
        }
        ControlData { cmd: CmdCode::FwdPgm, reply_id, data: fill_buffer(payload.as_slice()) }
    }

    /// The buffer as channel data. The command code must say channel data,
    /// live or fail-safe: any other gives `HeaderMismatch`, and the buffer
    /// is not read.
    pub fn channel_data(&self) -> (r: Result<ChannelData, PacketCastError>)
        ensures
            r is Ok <==> self.cmd.spec_is_channel(),
            r matches Ok(c) ==> c.wire() == self.data@,
            r matches Err(e) ==> e == PacketCastError::HeaderMismatch,
    {
        if self.cmd != CmdCode::Channel && self.cmd != CmdCode::ChannelFailsafe {
            return Err(PacketCastError::HeaderMismatch);
        }
        match ChannelData::decode(self.data.as_slice()) {
            Some(c) => Ok(c),
            None => Err(PacketCastError::Cast),
        }
    }

    /// The buffer as video transmitter settings. Any command code but that
    /// of the settings gives `HeaderMismatch`, and the buffer is not read;
    /// with the right code, bytes that are no image of settings give `Cast`.
    pub fn vtx_data(&self) -> (r: Result<VtxData, PacketCastError>)
        ensures
            r is Ok <==> self.cmd == CmdCode::Vtx && VtxData::is_image(
                self.data@.take(VTX_SIZE as int),
            ),
            r matches Ok(v) ==> v.wire() == self.data@.take(VTX_SIZE as int),
            r matches Err(e) ==> (e == PacketCastError::HeaderMismatch <==> self.cmd
                != CmdCode::Vtx),
            r matches Err(e) ==> (e == PacketCastError::Cast <==> self.cmd == CmdCode::Vtx),
    {
        if self.cmd != CmdCode::Vtx {
            return Err(PacketCastError::HeaderMismatch);
        }
        let s = slice_subrange(self.data.as_slice(), 0, VTX_SIZE);
        assert(s@ =~= self.data@.take(VTX_SIZE as int));
        match VtxData::decode(s) {
            Some(v) => Ok(v),
            None => Err(PacketCastError::Cast),
        }
    }

    /// The buffer as forward programming data. Any command code but that of
    /// forward programming gives `HeaderMismatch`, and the buffer is not
    /// read.
    pub fn fwd_pgm_data(&self) -> (r: Result<FwdPgmData, PacketCastError>)
        ensures
            r is Ok <==> self.cmd == CmdCode::FwdPgm,
            r matches Ok(p) ==> p.wire() == self.data@.take(FWD_PGM_SIZE as int),
            r matches Err(e) ==> e == PacketCastError::HeaderMismatch,
    {
        if self.cmd != CmdCode::FwdPgm {
            return Err(PacketCastError::HeaderMismatch);
        }
        let s = slice_subrange(self.data.as_slice(), 0, FWD_PGM_SIZE);
        assert(s@ =~= self.data@.take(FWD_PGM_SIZE as int));
        match FwdPgmData::decode(s) {
            Some(p) => Ok(p),
            None => Err(PacketCastError::Cast),
        }
    }
}

impl ControlPacket {
    /// Used for Channel Data and Failsafe Channel Data commands: `Some`
    /// exactly when the command code is one of the two.
    pub fn as_channel_ref(&self) -> (r: Option<ControlChannelPacket>)
        ensures
            r is Some <==> self.control.cmd.spec_is_channel(),
            r matches Some(v) ==> {
                &&& v.hdr == self.hdr
                &&& v.control.cmd == self.control.cmd
                &&& v.control.reply_id == self.control.reply_id
                &&& v.control.data.wire() == self.control.data@
            },
    {
        match self.control.channel_data() {
            Err(_) => None,
            Ok(channel) => Some(
                ControlChannelPacket {
                    hdr: self.hdr,
                    control: ControlChannelData {
                        cmd: self.control.cmd,
                        reply_id: self.control.reply_id,
                        data: channel,
                    },
                },
            ),
        }
    }

    /// Used for VTX commands: `Some` exactly when the command code is that
    /// of the settings and the buffer starts with an image of settings.
    pub fn as_vtx_ref(&self) -> (r: Option<ControlVtxPacket>)
        ensures
            r is Some <==> self.control.cmd == CmdCode::Vtx && VtxData::is_image(
                self.control.data@.take(VTX_SIZE as int),
            ),
            r matches Some(v) ==> {
                &&& v.hdr == self.hdr
                &&& v.control.cmd == self.control.cmd
                &&& v.control.reply_id == self.control.reply_id
                &&& v.control.data.wire() == self.control.data@.take(VTX_SIZE as int)
            },
    {
        match self.control.vtx_data() {
            Err(_) => None,
            Ok(vtx) => Some(
                ControlVtxPacket {
                    hdr: self.hdr,
                    control: ControlVtxData {
                        cmd: self.control.cmd,
                        reply_id: self.control.reply_id,
                        data: vtx,
                    },
                },
            ),
        }
    }

    /// Used to pass forward programming data to an SRXL device: `Some`
    /// exactly when the command code is that of forward programming.
    pub fn as_fwd_pgm_ref(&self) -> (r: Option<ControlFwdPgmPacket>)
        ensures
            r is Some <==> self.control.cmd == CmdCode::FwdPgm,
            r matches Some(v) ==> {
                &&& v.hdr == self.hdr
                &&& v.control.cmd == self.control.cmd
                &&& v.control.reply_id == self.control.reply_id
                &&& v.control.data.wire() == self.control.data@.take(FWD_PGM_SIZE as int)
            },
    {
        match self.control.fwd_pgm_data() {
            Err(_) => None,
            Ok(fwd_pgm) => Some(
                ControlFwdPgmPacket {
                    hdr: self.hdr,
                    control: ControlFwdPgmData {
                        cmd: self.control.cmd,
                        reply_id: self.control.reply_id,
                        data: fwd_pgm,
                    },
                },
            ),
        }
    }
}

} // verus!
