//! Channel data: the positions of up to thirty-two channels.

use vstd::prelude::*;
use crate::wire::{
    byte_of_i8,
    from_le16,
    i8_to_byte,
    le16,
    le32,
    lemma_le16_bytes,
    lemma_le16_value,
    lemma_le32_bytes,
    lemma_le32_value,
    push_le16,
    push_le32,
    read_i8,
    read_le16,
    read_le32,
};

verus! {

/// Number of channels in channel data.
pub const CHANNEL_COUNT: usize = 32;

/// Bytes of channel data on the wire.
pub const CHANNEL_SIZE: usize = 71;

/// The bytes of a sequence of 16-bit values, each low byte first.
pub open spec fn values_wire(v: Seq<u16>) -> Seq<u8> {
    Seq::new(
        2 * v.len(),
        |k: int|
            if k % 2 == 0 {
                (v[k / 2] % 256) as u8
            } else {
                (v[k / 2] / 256) as u8
            },
    )
}

/// Channel Data
#[derive(Clone, Copy, Debug)]
pub struct ChannelData {
    /// Best RSSI when sending channel data, or dropout RSSI when sending failsafe data
    pub rssi: i8,
    /// Total lost frames (or fade count when sent from Remote Rx to main Receiver)
    pub frame_losses: u16,
    /// Set bits indicate that channel data with the corresponding index is present
    pub mask: u32,
    /// Channel values, shifted to full 16-bit range (32768 = mid-scale); lowest 2 bits RFU
    pub values: [u16; 32],
}

impl ChannelData {
    /// Channel data with no channel present and every field zero.
    pub fn new() -> (c: Self)
        ensures
            c.rssi == 0,
            c.frame_losses == 0,
            c.mask == 0,
            c.values@ == Seq::new(32, |i: int| 0u16),
    {
        let c = Self { rssi: 0, frame_losses: 0, mask: 0, values: [0u16; 32] };
        assert(c.values@ =~= Seq::new(32, |i: int| 0u16));
        c
    }

    /// The data as it is sent.
    pub open spec fn wire(self) -> Seq<u8> {
        seq![byte_of_i8(self.rssi)] + le16(self.frame_losses) + le32(self.mask) + values_wire(
            self.values@,
        )
    }

    /// Whether `bytes` are channel data: any seventy-one bytes are.
    pub open spec fn is_image(bytes: Seq<u8>) -> bool {
        bytes.len() == CHANNEL_SIZE
    }

    /// Appends the data to `out`.
    pub fn encode(&self, out: &mut Vec<u8>)
        ensures
            final(out)@ == old(out)@ + self.wire(),
    {
        out.push(i8_to_byte(self.rssi));
        push_le16(out, self.frame_losses);
        push_le32(out, self.mask);
        let ghost head = out@;
        let mut i: usize = 0;
        while i < 32
            invariant
                i <= 32,
                out@ == head + values_wire(self.values@.take(i as int)),
            decreases 32 - i,
        {
            let v: u16 = self.values[i];
            out.push((v % 256) as u8);
            out.push((v / 256) as u8);
            assert(out@ =~= head + values_wire(self.values@.take(i as int + 1)));
            i += 1;
        }
        assert(self.values@.take(32) =~= self.values@);
        assert(out@ =~= old(out)@ + self.wire());
    }

    /// Reads the data: the value whose image `bytes` is, if it is one.
    pub fn decode(bytes: &[u8]) -> (r: Option<Self>)
        ensures
            r is Some <==> Self::is_image(bytes@),
            r matches Some(c) ==> c.wire() == bytes@,
    {
        if bytes.len() != CHANNEL_SIZE {
            return None;
        }
        let mut values: [u16; 32] = [0u16; 32];
        let mut i: usize = 0;
        while i < 32
            invariant
                i <= 32,
                bytes.len() == CHANNEL_SIZE,
                values@.len() == 32,
                forall|j: int| 0 <= j < i ==> values@[j] == from_le16(bytes@, 7 + 2 * j),
            decreases 32 - i,
        {
            values[i] = read_le16(bytes, 7 + 2 * i);
            i += 1;
        }
        let c = ChannelData {
            rssi: read_i8(bytes, 0),
            frame_losses: read_le16(bytes, 1),
            mask: read_le32(bytes, 3),
            values,
        };
        proof {
            lemma_le16_bytes(bytes@, 1);
            lemma_le32_bytes(bytes@, 3);
            let w = values_wire(c.values@);
            assert(w.len() == 64);
            assert forall|k: int| 0 <= k < 64 implies w[k] == bytes@[7 + k] by {
                let j = k / 2;
                assert(values@[j] == from_le16(bytes@, 7 + 2 * j));
            }
            assert(c.wire() =~= bytes@);
        }
        Some(c)
    }

    /// Every value has an image of seventy-one bytes, and no two values share one.
    /// So reading what was written gives the value back, as writing what was
    /// read gives the bytes back.
    pub proof fn lemma_wire(self, other: Self)
        ensures
            Self::is_image(self.wire()),
            self.wire() == other.wire() ==> self == other,
    {
        lemma_le16_value(self.frame_losses);
        lemma_le16_value(other.frame_losses);
        lemma_le32_value(self.mask);
        lemma_le32_value(other.mask);
        let a = self.wire();
        let b = other.wire();
        assert(a.len() == 71);
        if a == b {
            assert(a[0] == b[0]);
            assert(a.subrange(1, 3) =~= le16(self.frame_losses));
            assert(b.subrange(1, 3) =~= le16(other.frame_losses));
            assert(a.subrange(3, 7) =~= le32(self.mask));
            assert(b.subrange(3, 7) =~= le32(other.mask));
            assert(a.subrange(7, 71) =~= values_wire(self.values@));
            assert(b.subrange(7, 71) =~= values_wire(other.values@));
            assert forall|j: int| 0 <= j < 32 implies self.values@[j] == other.values@[j] by {
                let x = self.values@[j];
                let y = other.values@[j];
                let wa = values_wire(self.values@);
                let wb = values_wire(other.values@);
                assert(wa[2 * j] == (x % 256) as u8);
                assert(wa[2 * j + 1] == (x / 256) as u8);
                assert(wb[2 * j] == (y % 256) as u8);
                assert(wb[2 * j + 1] == (y / 256) as u8);
            }
            assert(self.values =~= other.values);
        }
    }
}

} // verus!
