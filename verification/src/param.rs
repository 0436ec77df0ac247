//! The parameter configuration payload.

use vstd::prelude::*;
use crate::device::DeviceId;
use crate::wire::{le32, lemma_le32_bytes, lemma_le32_value, push_le32, read_le32};

verus! {

/// Bytes of a parameter configuration payload on the wire.
pub const PARAM_SIZE: usize = 10;

/// What a parameter configuration packet asks for.
#[derive(Clone, Copy, PartialEq, Eq, Structural, Debug)]
pub enum Request {
    Query,
    Write,
}

impl Request {
    /// The request's code on the wire.
    pub open spec fn spec_code(self) -> u8 {
        match self {
            Request::Query => 0x50,
            Request::Write => 0x57,
        }
    }

    /// The request whose code is `code`, if there is one.
    pub open spec fn of_code(code: u8) -> Option<Request> {
        if code == 0x50 {
            Some(Request::Query)
        } else if code == 0x57 {
            Some(Request::Write)
        } else {
            None
        }
    }

    /// The request's code on the wire.
    pub fn code(self) -> (c: u8)
        ensures
            c == self.spec_code(),
    {
        match self {
            Request::Query => 0x50,
            Request::Write => 0x57,
        }
    }

    /// The request whose code is `code`, if there is one.
    pub fn from_code(code: u8) -> (r: Option<Request>)
        ensures
            r == Self::of_code(code),
    {
        if code == 0x50 {
            Some(Request::Query)
        } else if code == 0x57 {
            Some(Request::Write)
        } else {
            None
        }
    }
}

/// Parameter Config
#[derive(Clone, Copy, PartialEq, Eq, Structural, Debug)]
pub struct ParamPayload {
    pub request: Request,
    pub dest_dev_id: DeviceId,
    pub param_id: u32,
    pub param_val: u32,
}

impl ParamPayload {
    /// The payload as it is sent.
    pub open spec fn wire(self) -> Seq<u8> {
        seq![self.request.spec_code(), self.dest_dev_id.0] + le32(self.param_id) + le32(
            self.param_val,
        )
    }

    /// Whether `bytes` are a parameter configuration payload: ten bytes that
    /// start with a request code.
    pub open spec fn is_image(bytes: Seq<u8>) -> bool {
        bytes.len() == PARAM_SIZE && Request::of_code(bytes[0]) is Some
    }

    /// Appends the payload to `out`.
    pub fn encode(&self, out: &mut Vec<u8>)
        ensures
            final(out)@ == old(out)@ + self.wire(),
    {
        out.push(self.request.code());
        out.push(self.dest_dev_id.0);
        push_le32(out, self.param_id);
        push_le32(out, self.param_val);
        assert(out@ =~= old(out)@ + self.wire());
    }

    /// Reads a payload: the value whose image `bytes` is, if it is one.
    pub fn decode(bytes: &[u8]) -> (r: Option<Self>)
        ensures
            r is Some <==> Self::is_image(bytes@),
            r matches Some(p) ==> p.wire() == bytes@,
    {
        if bytes.len() != PARAM_SIZE {
            return None;
        }
        let request = match Request::from_code(bytes[0]) {
            Some(q) => q,
            None => {
                return None;
            },
        };
        let p = ParamPayload {
            request,
            dest_dev_id: DeviceId(bytes[1]),
            param_id: read_le32(bytes, 2),
            param_val: read_le32(bytes, 6),
        };
        proof {
            lemma_le32_bytes(bytes@, 2);
            lemma_le32_bytes(bytes@, 6);
            assert(p.wire() =~= bytes@);
        }
        Some(p)
    }

    /// Every value has an image of ten bytes, and no two values share one.
    /// So reading what was written gives the value back, as writing what was
    /// read gives the bytes back.
    pub proof fn lemma_wire(self, other: Self)
        ensures
            Self::is_image(self.wire()),
            self.wire() == other.wire() ==> self == other,
    {
        lemma_le32_value(self.param_id);
        lemma_le32_value(other.param_id);
        lemma_le32_value(self.param_val);
        lemma_le32_value(other.param_val);
        let a = self.wire();
        let b = other.wire();
        assert(a.len() == 10);
        assert(a[0] == self.request.spec_code());
        if a == b {
            assert(a[0] == b[0] && a[1] == b[1]);
            assert(a.subrange(2, 6) =~= le32(self.param_id));
            assert(b.subrange(2, 6) =~= le32(other.param_id));
            assert(a.subrange(6, 10) =~= le32(self.param_val));
            assert(b.subrange(6, 10) =~= le32(other.param_val));
        }
    }
}

} // verus!
