//! The bind info payload.

use vstd::prelude::*;
use crate::device::DeviceId;
use crate::flags::{FlagBit, Flags};
use crate::wire::{
    le32,
    le64,
    lemma_le32_bytes,
    lemma_le32_value,
    lemma_le64_bytes,
    lemma_le64_value,
    push_le32,
    push_le64,
    read_le32,
    read_le64,
};

verus! {

/// Bytes of a bind info payload on the wire.
pub const BIND_SIZE: usize = 16;

/// What a bind info packet asks for.
#[derive(Clone, Copy, PartialEq, Eq, Structural, Debug)]
pub enum Request {
    Enter,
    Status,
    BoundData,
    SetBind,
}

impl Request {
    /// The request's code on the wire.
    pub open spec fn spec_code(self) -> u8 {
        match self {
            Request::Enter => 0xEB,
            Request::Status => 0xB5,
            Request::BoundData => 0xDB,
            Request::SetBind => 0x5B,
        }
    }

    /// The request whose code is `code`, if there is one.
    pub open spec fn of_code(code: u8) -> Option<Request> {
        if code == 0xEB {
            Some(Request::Enter)
        } else if code == 0xB5 {
            Some(Request::Status)
        } else if code == 0xDB {
            Some(Request::BoundData)
        } else if code == 0x5B {
            Some(Request::SetBind)
        } else {
            None
        }
    }

    /// The request's code on the wire.
    pub fn code(self) -> (c: u8)
        ensures
            c == self.spec_code(),
    {
        match self {
            Request::Enter => 0xEB,
            Request::Status => 0xB5,
            Request::BoundData => 0xDB,
            Request::SetBind => 0x5B,
        }
    }

    /// The request whose code is `code`, if there is one.
    pub fn from_code(code: u8) -> (r: Option<Request>)
        ensures
            r == Self::of_code(code),
    {
        if code == 0xEB {
            Some(Request::Enter)
        } else if code == 0xB5 {
            Some(Request::Status)
        } else if code == 0xDB {
            Some(Request::BoundData)
        } else if code == 0x5B {
            Some(Request::SetBind)
        } else {
            None
        }
    }
}

/// Bit masks for the options byte.
#[derive(Clone, Copy, PartialEq, Eq, Structural, Debug)]
pub enum BindOption {
    NoOption,
    /// Set if this device should be enabled as the current telemetry device to tx over RF
    TelemTxEnable,
    /// Set if this device should reply to a bind request with a Discover packet over RF
    BindTxEnable,
    /// Set if this device should request US transmit power levels instead of EU
    UsPower,
}

impl FlagBit for BindOption {
    open spec fn spec_bit(&self) -> u8 {
        match self {
            BindOption::NoOption => 0x00,
            BindOption::TelemTxEnable => 0x01,
            BindOption::BindTxEnable => 0x02,
            BindOption::UsPower => 0x04,
        }
    }

    fn bit(&self) -> (b: u8) {
        match self {
            BindOption::NoOption => 0x00,
            BindOption::TelemTxEnable => 0x01,
            BindOption::BindTxEnable => 0x02,
            BindOption::UsPower => 0x04,
        }
    }
}

/// The bind types that a bind type byte can name.
#[derive(Clone, Copy, PartialEq, Eq, Structural, Debug)]
pub enum BindStatus {
    NotBound,
    // Air types
    Dsm2_1024_22ms,
    Dsm2_1024Mc24,
    Dsm2_2048_11ms,
    Dsmx22Ms,
    Dsmx11Ms,
    // Surface types
    SurfaceDsm1,
    SurfaceDsm2_16p6ms,
    Dsmr11ms22ms,
    Dsmr5p5ms,
}

impl BindStatus {
    /// The bind type byte of this status.
    pub open spec fn spec_code(self) -> u8 {
        match self {
            BindStatus::NotBound => 0x00,
            BindStatus::Dsm2_1024_22ms => 0x01,
            BindStatus::Dsm2_1024Mc24 => 0x02,
            BindStatus::Dsm2_2048_11ms => 0x12,
            BindStatus::Dsmx22Ms => 0xA2,
            BindStatus::Dsmx11Ms => 0xB2,
            BindStatus::SurfaceDsm1 => 0x40,
            BindStatus::SurfaceDsm2_16p6ms => 0x63,
            BindStatus::Dsmr11ms22ms => 0xE2,
            BindStatus::Dsmr5p5ms => 0xE4,
        }
    }

    /// The status that a bind type byte names, if it names one.
    pub open spec fn of_code(code: u8) -> Option<BindStatus> {
        if code == 0x00 {
            Some(BindStatus::NotBound)
        } else if code == 0x01 {
            Some(BindStatus::Dsm2_1024_22ms)
        } else if code == 0x02 {
            Some(BindStatus::Dsm2_1024Mc24)
        } else if code == 0x12 {
            Some(BindStatus::Dsm2_2048_11ms)
        } else if code == 0xA2 {
            Some(BindStatus::Dsmx22Ms)
        } else if code == 0xB2 {
            Some(BindStatus::Dsmx11Ms)
        } else if code == 0x40 {
            Some(BindStatus::SurfaceDsm1)
        } else if code == 0x63 {
            Some(BindStatus::SurfaceDsm2_16p6ms)
        } else if code == 0xE2 {
            Some(BindStatus::Dsmr11ms22ms)
        } else if code == 0xE4 {
            Some(BindStatus::Dsmr5p5ms)
        } else {
            None
        }
    }

    /// The bind type byte of this status.
    pub fn code(self) -> (c: u8)
        ensures
            c == self.spec_code(),
    {
        match self {
            BindStatus::NotBound => 0x00,
            BindStatus::Dsm2_1024_22ms => 0x01,
            BindStatus::Dsm2_1024Mc24 => 0x02,
            BindStatus::Dsm2_2048_11ms => 0x12,
            BindStatus::Dsmx22Ms => 0xA2,
            BindStatus::Dsmx11Ms => 0xB2,
            BindStatus::SurfaceDsm1 => 0x40,
            BindStatus::SurfaceDsm2_16p6ms => 0x63,
            BindStatus::Dsmr11ms22ms => 0xE2,
            BindStatus::Dsmr5p5ms => 0xE4,
        }
    }

    /// The status that a bind type byte names, if it names one.
    pub fn from_code(code: u8) -> (r: Option<BindStatus>)
        ensures
            r == Self::of_code(code),
    {
        if code == 0x00 {
            Some(BindStatus::NotBound)
        } else if code == 0x01 {
            Some(BindStatus::Dsm2_1024_22ms)
        } else if code == 0x02 {
            Some(BindStatus::Dsm2_1024Mc24)
        } else if code == 0x12 {
            Some(BindStatus::Dsm2_2048_11ms)
        } else if code == 0xA2 {
            Some(BindStatus::Dsmx22Ms)
        } else if code == 0xB2 {
            Some(BindStatus::Dsmx11Ms)
        } else if code == 0x40 {
            Some(BindStatus::SurfaceDsm1)
        } else if code == 0x63 {
            Some(BindStatus::SurfaceDsm2_16p6ms)
        } else if code == 0xE2 {
            Some(BindStatus::Dsmr11ms22ms)
        } else if code == 0xE4 {
            Some(BindStatus::Dsmr5p5ms)
        } else {
            None
        }
    }
}

/// What a receiver is bound to.
#[derive(Clone, Copy, PartialEq, Eq, Structural, Debug)]
pub struct BindData {
    /// Bind type, see `BindStatus`
    pub bind_type: u8,
    /// Option bits, see `BindOption`
    pub options: u8,
    pub guid: u64,
    pub uid: u32,
}

impl BindData {
    /// The option bits as flags.
    pub fn option_flags(&self) -> (f: Flags<BindOption>)
        ensures
            f.0 == self.options,
    {
        Flags::new(self.options)
    }

    /// The bind type that the bind type byte names, if it names one.
    pub fn status(&self) -> (s: Option<BindStatus>)
        ensures
            s == BindStatus::of_code(self.bind_type),
    {
        BindStatus::from_code(self.bind_type)
    }
}

/// The payload of a bind info packet.
#[derive(Clone, Copy, PartialEq, Eq, Structural, Debug)]
pub struct BindPayload {
    pub request: Request,
    pub device_id: DeviceId,
    pub data: BindData,
}

impl BindPayload {
    /// The payload as it is sent.
    pub open spec fn wire(self) -> Seq<u8> {
        seq![self.request.spec_code(), self.device_id.0, self.data.bind_type, self.data.options]
            + le64(self.data.guid) + le32(self.data.uid)
    }

    /// Whether `bytes` are a bind info payload: sixteen bytes that start
    /// with a request code.
    pub open spec fn is_image(bytes: Seq<u8>) -> bool {
        bytes.len() == BIND_SIZE && Request::of_code(bytes[0]) is Some
    }

    /// Appends the payload to `out`.
    pub fn encode(&self, out: &mut Vec<u8>)
        ensures
            final(out)@ == old(out)@ + self.wire(),
    {
        out.push(self.request.code());
        out.push(self.device_id.0);
        out.push(self.data.bind_type);
        out.push(self.data.options);
        push_le64(out, self.data.guid);
        push_le32(out, self.data.uid);
        assert(out@ =~= old(out)@ + self.wire());
    }

    /// Reads a payload: the value whose image `bytes` is, if it is one.
    pub fn decode(bytes: &[u8]) -> (r: Option<Self>)
        ensures
            r is Some <==> Self::is_image(bytes@),
            r matches Some(p) ==> p.wire() == bytes@,
    {
        if bytes.len() != BIND_SIZE {
            return None;
        }
        let request = match Request::from_code(bytes[0]) {
            Some(q) => q,
            None => {
                return None;
            },
        };
        let p = BindPayload {
            request,
            device_id: DeviceId(bytes[1]),
            data: BindData {
                bind_type: bytes[2],
                options: bytes[3],
                guid: read_le64(bytes, 4),
                uid: read_le32(bytes, 12),
            },
        };
        proof {
            lemma_le64_bytes(bytes@, 4);
            lemma_le32_bytes(bytes@, 12);
            assert(p.wire() =~= bytes@);
        }
        Some(p)
    }

    /// Every value has an image of sixteen bytes, and no two values share one.
    /// So reading what was written gives the value back, as writing what was
    /// read gives the bytes back.
    pub proof fn lemma_wire(self, other: Self)
        ensures
            Self::is_image(self.wire()),
            self.wire() == other.wire() ==> self == other,
    {
        lemma_le64_value(self.data.guid);
        lemma_le64_value(other.data.guid);
        lemma_le32_value(self.data.uid);
        lemma_le32_value(other.data.uid);
        let a = self.wire();
        let b = other.wire();
        assert(a.len() == 16);
        assert(a[0] == self.request.spec_code());
        if a == b {
            assert(a[0] == b[0] && a[1] == b[1] && a[2] == b[2] && a[3] == b[3]);
            assert(a.subrange(4, 12) =~= le64(self.data.guid));
            assert(b.subrange(4, 12) =~= le64(other.data.guid));
            assert(a.subrange(12, 16) =~= le32(self.data.uid));
            assert(b.subrange(12, 16) =~= le32(other.data.uid));
        }
    }
}

} // verus!
