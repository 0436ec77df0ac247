//! Forward programming data, passed through to another device.

use vstd::prelude::*;
use crate::wire::{byte_of_i8, i8_to_byte, push_bytes, read_array, read_i8};

verus! {

/// Most bytes of forward programming data in one packet.
pub const FWD_PGM_MAX_DATA_SIZE: usize = 64;

/// Bytes of forward programming data, with its RSSI and padding, on the wire.
pub const FWD_PGM_SIZE: usize = 67;

/// Forward Programming Data
#[derive(Clone, Copy, Debug)]
pub struct FwdPgmData {
    /// Best RSSI while sending forward programming data
    pub rssi: i8,
    /// 0 for now -- used to word-align data
    pub rfu: [u8; 2],
    pub data: [u8; 64],
}

impl FwdPgmData {
    /// The data as it is sent.
    pub open spec fn wire(self) -> Seq<u8> {
        seq![byte_of_i8(self.rssi)] + self.rfu@ + self.data@
    }

    /// Whether `bytes` are forward programming data: any sixty-seven bytes are.
    pub open spec fn is_image(bytes: Seq<u8>) -> bool {
        bytes.len() == FWD_PGM_SIZE
    }

    /// Appends the data to `out`.
    pub fn encode(&self, out: &mut Vec<u8>)
        ensures
            final(out)@ == old(out)@ + self.wire(),
    {
        out.push(i8_to_byte(self.rssi));
        push_bytes(out, self.rfu.as_slice());
        push_bytes(out, self.data.as_slice());
        assert(out@ =~= old(out)@ + self.wire());
    }

    /// Reads the data: the value whose image `bytes` is, if it is one.
    pub fn decode(bytes: &[u8]) -> (r: Option<Self>)
        ensures
            r is Some <==> Self::is_image(bytes@),
            r matches Some(p) ==> p.wire() == bytes@,
    {
        if bytes.len() != FWD_PGM_SIZE {
            return None;
        }
        let p = FwdPgmData {
            rssi: read_i8(bytes, 0),
            rfu: read_array::<2>(bytes, 1),
            data: read_array::<64>(bytes, 3),
        };
        proof {
            assert(p.wire() =~= bytes@);
        }
        Some(p)
    }

    /// Every value has an image of sixty-seven bytes, and no two values share one.
    /// So reading what was written gives the value back, as writing what was
    /// read gives the bytes back.
    pub proof fn lemma_wire(self, other: Self)
        ensures
            Self::is_image(self.wire()),
            self.wire() == other.wire() ==> self == other,
    {
        let a = self.wire();
        let b = other.wire();
        assert(a.len() == 67);
        if a == b {
            assert(a[0] == b[0]);
            assert(a.subrange(1, 3) =~= self.rfu@);
            assert(b.subrange(1, 3) =~= other.rfu@);
            assert(a.subrange(3, 67) =~= self.data@);
            assert(b.subrange(3, 67) =~= other.data@);
            assert(self.rfu =~= other.rfu);
            assert(self.data =~= other.data);
        }
    }
}

} // verus!
