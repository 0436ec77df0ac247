//! A queue of bits in sixteen bytes, for a bit-banged serial line.

use vstd::prelude::*;

verus! {

/// Bytes of storage.
pub const BUFFER_SIZE: usize = 16;

/// Bits that the buffer holds when it is full.
pub const BIT_BUFFER_SIZE: usize = 128;

/// The buffer was full on a write, or empty on a read.
#[derive(Clone, Copy, PartialEq, Eq, Structural, Debug)]
pub struct BufferNotReadyError;

/// A first-in first-out queue of up to 128 bits.
#[derive(Debug)]
pub struct CircularBitBuffer {
    /// Contains 128 bits
    buffer: [u8; 16],
    /// The next bit to be written, from 0 (MSB of buffer[0]) to 127 (LSB of buffer[15])
    head: usize,
    /// The next bit to be read, from 0 (MSB of buffer[0]) to 127 (LSB of buffer[15])
    tail: usize,
    /// The number of bits in the buffer, from 0 to 128
    size: usize,
}

/// Whether bit `i` of `byte` is set; bit 0 is the least significant.
pub open spec fn bit_of(byte: u8, i: u8) -> bool {
    (byte & (1u8 << i)) >> i == 1
}

/// `byte` with bit `i` set to `bit`.
pub open spec fn with_bit(byte: u8, i: u8, bit: bool) -> u8 {
    (byte & !(1u8 << i)) | if bit {
        1u8 << i
    } else {
        0u8
    }
}

/// Writing a bit sets that bit and leaves the other seven as they were.
pub proof fn lemma_with_bit(byte: u8, i: u8, bit: bool, j: u8)
    requires
        i < 8,
        j < 8,
    ensures
        bit_of(with_bit(byte, i, bit), i) == bit,
        j != i ==> bit_of(with_bit(byte, i, bit), j) == bit_of(byte, j),
{
    let set: u8 = if bit {
        1u8 << i
    } else {
        0u8
    };
    assert(i < 8 && (set == 1u8 << i || set == 0) ==> ((((byte & !(1u8 << i)) | set) & (1u8 << i))
        >> i == 1) == (set != 0)) by (bit_vector);
    assert(i < 8 ==> 1u8 << i != 0) by (bit_vector);
    assert(i < 8 && j < 8 && j != i && (set == 1u8 << i || set == 0) ==> (((byte & !(1u8 << i))
        | set) & (1u8 << j)) >> j == (byte & (1u8 << j)) >> j) by (bit_vector);
}

/// The bit at position `pos` of the storage `buf`, the most significant
/// bit of each byte first.
pub open spec fn stored_in(buf: Seq<u8>, pos: int) -> bool {
    bit_of(buf[pos / 8], (7 - pos % 8) as u8)
}

/// Writing the bit at position `head` changes that position and no other.
proof fn lemma_written(buf: Seq<u8>, head: int, bit: bool, pos: int)
    requires
        buf.len() == BUFFER_SIZE,
        0 <= head < BIT_BUFFER_SIZE,
        0 <= pos < BIT_BUFFER_SIZE,
    ensures
        stored_in(buf.update(head / 8, with_bit(buf[head / 8], (7 - head % 8) as u8, bit)), pos)
            == if pos == head {
            bit
        } else {
            stored_in(buf, pos)
        },
{
    lemma_with_bit(buf[head / 8], (7 - head % 8) as u8, bit, (7 - pos % 8) as u8);
    if pos != head && pos / 8 == head / 8 {
        assert(pos % 8 != head % 8);
    }
}

/// The position of the bit `k` places behind `tail`, going round.
pub open spec fn place(tail: int, k: int) -> int {
    if tail + k >= BIT_BUFFER_SIZE {
        tail + k - BIT_BUFFER_SIZE
    } else {
        tail + k
    }
}

impl CircularBitBuffer {
    /// The bit at position `pos` of the storage.
    pub closed spec fn stored(&self, pos: int) -> bool {
        stored_in(self.buffer@, pos)
    }

    /// The queue is in order: the positions are within the storage, and
    /// the write position is the read position plus the number of bits.
    pub closed spec fn wf(&self) -> bool {
        &&& self.head < BIT_BUFFER_SIZE
        &&& self.tail < BIT_BUFFER_SIZE
        &&& self.size <= BIT_BUFFER_SIZE
        &&& self.size < BIT_BUFFER_SIZE ==> self.head == place(self.tail as int, self.size as int)
        &&& self.size == BIT_BUFFER_SIZE ==> self.head == self.tail
    }

    /// The bits in the queue, the oldest first.
    pub closed spec fn view(&self) -> Seq<bool> {
        Seq::new(self.size as nat, |k: int| self.stored(place(self.tail as int, k)))
    }

    /// An empty queue.
    pub fn new() -> (b: Self)
        ensures
            b.wf(),
            b@ == Seq::<bool>::empty(),
    {
        let b = CircularBitBuffer { buffer: [0u8; 16], head: 0, tail: 0, size: 0 };
        assert(b@ =~= Seq::<bool>::empty());
        b
    }

    /// Whether there is room for one more bit.
    pub fn write_ready(&self) -> (r: bool)
        requires
            self.wf(),
        ensures
            r == (self@.len() < BIT_BUFFER_SIZE),
    {
        self.size < BIT_BUFFER_SIZE
    }

    /// Puts `bit` at the end of the queue. A full queue refuses it and
    /// stays as it is.
    pub fn write_bit(&mut self, bit: bool) -> (r: Result<(), BufferNotReadyError>)
        requires
            old(self).wf(),
        ensures
            final(self).wf(),
            r is Ok <==> old(self)@.len() < BIT_BUFFER_SIZE,
            r is Ok ==> final(self)@ == old(self)@.push(bit),
            r is Err ==> final(self)@ == old(self)@,
    {
        if !self.write_ready() {
            return Err(BufferNotReadyError);
        }
        let buf_index: usize = self.head / 8;
        let bit_index: u8 = (7 - (self.head % 8)) as u8;
        let old_byte = self.buffer[buf_index];
        let set_byte = if bit {
            1u8 << bit_index
        } else {
            0u8
        };
        let new_byte = (old_byte & !(1u8 << bit_index)) | set_byte;
        self.buffer[buf_index] = new_byte;
        self.head = (self.head + 1) % BIT_BUFFER_SIZE;
        self.size += 1;
        proof {
            let before = old(self)@;
            let after = self@;
            assert(new_byte == with_bit(old_byte, bit_index, bit));
            assert forall|k: int| 0 <= k < after.len() implies after[k] == before.push(bit)[k] by {
                lemma_written(old(self).buffer@, old(self).head as int, bit, place(self.tail as int, k));
            }
            assert(after =~= before.push(bit));
        }
        Ok(())
    }

    /// Whether there is a bit to read.
    pub fn read_ready(&self) -> (r: bool)
        requires
            self.wf(),
        ensures
            r == (self@.len() > 0),
    {
        self.size > 0
    }

    /// Takes the oldest bit from the queue. An empty queue has none to
    /// give and stays as it is.
    pub fn read_bit(&mut self) -> (r: Result<bool, BufferNotReadyError>)
        requires
            old(self).wf(),
        ensures
            final(self).wf(),
            r is Ok <==> old(self)@.len() > 0,
            r matches Ok(bit) ==> bit == old(self)@[0] && final(self)@ == old(self)@.drop_first(),
            r is Err ==> final(self)@ == old(self)@,
    {
        if !self.read_ready() {
            return Err(BufferNotReadyError);
        }
        let buf_index: usize = self.tail / 8;
        let bit_index: u8 = (7 - (self.tail % 8)) as u8;
        let bit = (self.buffer[buf_index] & (1u8 << bit_index)) >> bit_index;
        self.tail = (self.tail + 1) % BIT_BUFFER_SIZE;
        self.size -= 1;
        proof {
            let before = old(self)@;
            let after = self@;
            assert(before[0] == old(self).stored(place(old(self).tail as int, 0)));
            assert forall|k: int| 0 <= k < after.len() implies after[k] == before.drop_first()[k] by {
                assert(place(self.tail as int, k) == place(old(self).tail as int, k + 1));
                assert(before.drop_first()[k] == before[k + 1]);
            }
            assert(after =~= before.drop_first());
        }
        Ok(bit == 1)
    }
}

} // verus!
