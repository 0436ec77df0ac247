//! The signal quality payload.

use vstd::prelude::*;
use crate::wire::{byte_of_i8, i8_to_byte, read_i8};

verus! {

/// Bytes of a signal quality payload on the wire.
pub const RSSI_SIZE: usize = 5;

/// Whether a signal quality packet asks for the readings or carries them.
#[derive(Clone, Copy, PartialEq, Eq, Structural, Debug)]
pub enum Request {
    Request,
    Send,
}

impl Request {
    /// The request's code on the wire.
    pub open spec fn spec_code(self) -> u8 {
        match self {
            Request::Request => 0x52,
            Request::Send => 0x53,
        }
    }

    /// The request whose code is `code`, if there is one.
    pub open spec fn of_code(code: u8) -> Option<Request> {
        if code == 0x52 {
            Some(Request::Request)
        } else if code == 0x53 {
            Some(Request::Send)
        } else {
            None
        }
    }

    /// The request's code on the wire.
    pub fn code(self) -> (c: u8)
        ensures
            c == self.spec_code(),
    {
        match self {
            Request::Request => 0x52,
            Request::Send => 0x53,
        }
    }

    /// The request whose code is `code`, if there is one.
    pub fn from_code(code: u8) -> (r: Option<Request>)
        ensures
            r == Self::of_code(code),
    {
        if code == 0x52 {
            Some(Request::Request)
        } else if code == 0x53 {
            Some(Request::Send)
        } else {
            None
        }
    }
}

/// Signal Quality
#[derive(Clone, Copy, PartialEq, Eq, Structural, Debug)]
pub struct RssiPayload {
    pub request: Request,
    pub antenna_a: i8,
    pub antenna_b: i8,
    pub antenna_c: i8,
    pub antenna_d: i8,
}

impl RssiPayload {
    /// The payload as it is sent.
    pub open spec fn wire(self) -> Seq<u8> {
        seq![
            self.request.spec_code(),
            byte_of_i8(self.antenna_a),
            byte_of_i8(self.antenna_b),
            byte_of_i8(self.antenna_c),
            byte_of_i8(self.antenna_d),
        ]
    }

    /// Whether `bytes` are a signal quality payload: five bytes that start
    /// with a request code.
    pub open spec fn is_image(bytes: Seq<u8>) -> bool {
        bytes.len() == RSSI_SIZE && Request::of_code(bytes[0]) is Some
    }

    /// Appends the payload to `out`.
    pub fn encode(&self, out: &mut Vec<u8>)
        ensures
            final(out)@ == old(out)@ + self.wire(),
    {
        out.push(self.request.code());
        out.push(i8_to_byte(self.antenna_a));
        out.push(i8_to_byte(self.antenna_b));
        out.push(i8_to_byte(self.antenna_c));
        out.push(i8_to_byte(self.antenna_d));
        assert(out@ =~= old(out)@ + self.wire());
    }

    /// Reads a payload: the value whose image `bytes` is, if it is one.
    pub fn decode(bytes: &[u8]) -> (r: Option<Self>)
        ensures
            r is Some <==> Self::is_image(bytes@),
            r matches Some(p) ==> p.wire() == bytes@,
    {
        if bytes.len() != RSSI_SIZE {
            return None;
        }
        let request = match Request::from_code(bytes[0]) {
            Some(q) => q,
            None => {
                return None;
            },
        };
        let p = RssiPayload {
            request,
            antenna_a: read_i8(bytes, 1),
            antenna_b: read_i8(bytes, 2),
            antenna_c: read_i8(bytes, 3),
            antenna_d: read_i8(bytes, 4),
        };
        proof {
            assert(p.wire() =~= bytes@);
        }
        Some(p)
    }

    /// Every value has an image of five bytes, and no two values share one.
    /// So reading what was written gives the value back, as writing what was
    /// read gives the bytes back.
    pub proof fn lemma_wire(self, other: Self)
        ensures
            Self::is_image(self.wire()),
            self.wire() == other.wire() ==> self == other,
    {
        let a = self.wire();
        let b = other.wire();
        assert(a[0] == self.request.spec_code());
        if a == b {
            assert(a[0] == b[0] && a[1] == b[1] && a[2] == b[2] && a[3] == b[3] && a[4] == b[4]);
        }
    }
}

} // verus!
