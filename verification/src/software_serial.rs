//! The queue and the framing of a software serial writer.
//!
//! The idle line is high. A byte goes out as a start bit (low), its eight
//! bits from the most significant down, and a stop bit (high). The writer
//! here keeps the bytes and says which level the line takes next; the
//! timer and the pin belong to the caller.

use vstd::prelude::*;

verus! {

/// Why a serial operation failed.
#[derive(Clone, Copy, PartialEq, Eq, Structural, Debug)]
pub enum SerialError {
    BufferFull,
    NotImplemented,
}

impl SerialError {
    /// A short text for logs.
    pub fn describe(&self) -> (text: &'static str)
        ensures
            *self == SerialError::BufferFull ==> text@ == "Buffer full"@,
            *self == SerialError::NotImplemented ==> text@ == "Not implemented"@,
    {
        match self {
            SerialError::BufferFull => "Buffer full",
            SerialError::NotImplemented => "Not implemented",
        }
    }
}

/// Where the writer stands within a byte.
#[derive(Clone, Copy, PartialEq, Eq, Structural, Debug)]
pub enum WriterState {
    Idle,
    Start,
    Data(u8),
    Stop,
}

/// What `process` asks of the caller.
#[derive(Clone, Copy, PartialEq, Eq, Structural, Debug)]
pub struct Step {
    /// Whether the bit timer is to run
    pub timer_on: bool,
    /// The level to put on the line at the next timer tick, if a new one
    /// was taken from the queue
    pub next_bit: Option<bool>,
}

/// The divisor of the bit timer, less one, cut to eight bits.
pub open spec fn spec_compare(freq: u32, baud: u32, prescale: u32) -> u8 {
    ((freq / baud / prescale - 1) % 256) as u8
}

/// Computes the compare value of the bit timer for a clock of `freq` Hz:
/// the clock ticks in one bit at `baud`, divided by the prescaler, less
/// one, cut to eight bits.
pub fn calc_compare(freq: u32, baud: u32, prescale: u32) -> (compare: u8)
    requires
        baud > 0,
        prescale > 0,
        freq / baud / prescale >= 1,
    ensures
        compare == spec_compare(freq, baud, prescale),
{
    ((freq / baud / prescale - 1) % 256) as u8
}

/// A queue of up to `B` bytes and the framing state of the byte in front.
#[derive(Debug)]
pub struct SerialWriter<const B: usize> {
    head: usize,
    tail: usize,
    size: usize,
    buf: [u8; B],
    next_send: WriterState,
}

/// The position `k` places behind `head` in a ring of `n`.
pub open spec fn ring_place(n: int, head: int, k: int) -> int {
    if head + k >= n {
        head + k - n
    } else {
        head + k
    }
}

impl<const B: usize> SerialWriter<B> {
    /// The writer is in order: the positions are within the storage, the
    /// write position is the read position plus the number of bytes, a data
    /// bit is one of eight, and a byte is under way only while one is
    /// queued.
    pub closed spec fn wf(&self) -> bool {
        &&& self.size <= B
        &&& B > 0 ==> self.head < B && self.tail < B
        &&& B == 0 ==> self.head == 0 && self.tail == 0
        &&& self.size < B ==> self.tail == ring_place(B as int, self.head as int, self.size as int)
        &&& self.size == B ==> self.tail == self.head
        &&& self.next_send matches WriterState::Data(bit) ==> bit <= 7
        &&& self.next_send != WriterState::Idle ==> self.size > 0
    }

    /// The bytes in the queue, the oldest first.
    pub closed spec fn view(&self) -> Seq<u8> {
        Seq::new(
            self.size as nat,
            |k: int| self.buf@[ring_place(B as int, self.head as int, k)],
        )
    }

    /// Where the writer stands within the byte in front.
    pub closed spec fn state(&self) -> WriterState {
        self.next_send
    }

    /// An idle writer with an empty queue.
    pub fn new() -> (w: Self)
        ensures
            w.wf(),
            w@ == Seq::<u8>::empty(),
            w.state() == WriterState::Idle,
    {
        let w = SerialWriter {
            head: 0,
            tail: 0,
            size: 0,
            buf: vstd::array::array_fill_for_copy_types(0u8),
            next_send: WriterState::Idle,
        };
        assert(w@ =~= Seq::<u8>::empty());
        w
    }

    /// Number of bytes in the queue.
    pub fn len(&self) -> (n: usize)
        requires
            self.wf(),
        ensures
            n == self@.len(),
    {
        self.size
    }

    /// Where the writer stands within the byte in front.
    pub fn next_send(&self) -> (s: WriterState)
        ensures
            s == self.state(),
    {
        self.next_send
    }

    /// Whether there is room for one more byte.
    pub fn write_ready(&self) -> (r: bool)
        requires
            self.wf(),
        ensures
            r == (self@.len() < B),
    {
        self.size < B
    }

    /// Puts the bytes of `buf` at the end of the queue and gives their
    /// number. If they do not all fit, none is taken, and the error is
    /// `BufferFull`.
    pub fn write(&mut self, buf: &[u8]) -> (r: Result<usize, SerialError>)
        requires
            old(self).wf(),
        ensures
            final(self).wf(),
            final(self).state() == old(self).state(),
            r is Ok <==> old(self)@.len() + buf@.len() <= B,
            r matches Ok(n) ==> n == buf@.len() && final(self)@ == old(self)@ + buf@,
            r matches Err(e) ==> e == SerialError::BufferFull && final(self)@ == old(self)@,
    {
        if buf.len() > B - self.size {
            return Err(SerialError::BufferFull);
        }
        let mut i: usize = 0;
        while i < buf.len()
            invariant
                i <= buf.len(),
                old(self).wf(),
                old(self)@.len() + buf@.len() <= B,
                self.wf(),
                self.next_send == old(self).next_send,
                self.head == old(self).head,
                self.size == old(self).size + i,
                self@ == old(self)@ + buf@.take(i as int),
            decreases buf.len() - i,
        {
            let ghost before = self@;
            let ghost stored = self.buf@;
            self.buf[self.tail] = buf[i];
            self.tail = if self.tail + 1 == B {
                0
            } else {
                self.tail + 1
            };
            self.size += 1;
            proof {
                let after = self@;
                assert forall|k: int| 0 <= k < after.len() implies after[k] == before.push(
                    buf@[i as int],
                )[k] by {
                    if k < before.len() {
                        assert(before[k] == stored[ring_place(B as int, self.head as int, k)]);
                    }
                }
                assert(after =~= before.push(buf@[i as int]));
                assert(buf@.take(i as int + 1) =~= buf@.take(i as int).push(buf@[i as int]));
                assert(after =~= old(self)@ + buf@.take(i as int + 1));
            }
            i += 1;
        }
        assert(buf@.take(i as int) =~= buf@);
        Ok(buf.len())
    }

    /// Waiting for the queue to drain is not offered.
    pub fn flush(&mut self) -> (r: Result<(), SerialError>)
        ensures
            r == Err::<(), SerialError>(SerialError::NotImplemented),
            *final(self) == *old(self),
    {
        Err(SerialError::NotImplemented)
    }

    /// Whether bit `bit` of `byte` is set, counted from the most
    /// significant bit, which is sent first.
    pub open spec fn data_bit(byte: u8, bit: u8) -> bool {
        byte & (1u8 << ((7 - bit) as u8)) != 0
    }

    /// The level that the line takes next, if it changes hands, for a
    /// writer in the state `state` whose queue is `queue`: nothing while
    /// idle, low for the start bit, the data bits from the most significant
    /// down, and high for the stop bit.
    pub open spec fn spec_bit(state: WriterState, queue: Seq<u8>) -> Option<bool> {
        match state {
            WriterState::Idle => None,
            WriterState::Start => Some(false),
            WriterState::Data(bit) => Some(Self::data_bit(queue[0], bit)),
            WriterState::Stop => Some(true),
        }
    }

    /// The state after the next bit: an idle writer starts if a byte is
    /// queued; the start bit is followed by the eight data bits and the
    /// stop bit; after the stop bit the next byte starts, if there is one.
    pub open spec fn spec_next(state: WriterState, queue: Seq<u8>) -> WriterState {
        match state {
            WriterState::Idle => if queue.len() > 0 {
                WriterState::Start
            } else {
                WriterState::Idle
            },
            WriterState::Start => WriterState::Data(0),
            WriterState::Data(bit) => if bit < 7 {
                WriterState::Data((bit + 1) as u8)
            } else {
                WriterState::Stop
            },
            WriterState::Stop => if queue.len() > 1 {
                WriterState::Start
            } else {
                WriterState::Idle
            },
        }
    }

    /// Takes the next bit to send: its level as `spec_bit` says, the state
    /// as `spec_next` says, and the byte in front leaves the queue with its
    /// stop bit.
    pub fn send_next_bit(&mut self) -> (r: Option<bool>)
        requires
            old(self).wf(),
        ensures
            final(self).wf(),
            r == Self::spec_bit(old(self).state(), old(self)@),
            final(self).state() == Self::spec_next(old(self).state(), old(self)@),
            final(self)@ == if old(self).state() == WriterState::Stop {
                old(self)@.drop_first()
            } else {
                old(self)@
            },
    {
        match self.next_send {
            WriterState::Idle => {
                if self.size > 0 {
                    self.next_send = WriterState::Start;
                }
                assert(self@ =~= old(self)@);
                None
            },
            WriterState::Start => {
                self.next_send = WriterState::Data(0);
                assert(self@ =~= old(self)@);
                Some(false)
            },
            WriterState::Data(bit) => {
                self.next_send = if bit < 7 {
                    WriterState::Data(bit + 1)
                } else {
                    WriterState::Stop
                };
                assert(self@ =~= old(self)@);
                assert(old(self)@[0] == self.buf@[ring_place(B as int, self.head as int, 0)]);
                Some((self.buf[self.head] & (1u8 << (7 - bit))) != 0)
            },
            WriterState::Stop => {
                self.head = if self.head + 1 == B {
                    0
                } else {
                    self.head + 1
                };
                self.size -= 1;
                self.next_send = if self.size > 0 {
                    WriterState::Start
                } else {
                    WriterState::Idle
                };
                proof {
                    let before = old(self)@;
                    let after = self@;
                    assert forall|k: int| 0 <= k < after.len() implies after[k]
                        == before.drop_first()[k] by {
                        assert(ring_place(B as int, self.head as int, k) == ring_place(
                            B as int,
                            old(self).head as int,
                            k + 1,
                        ));
                        assert(before.drop_first()[k] == before[k + 1]);
                    }
                    assert(after =~= before.drop_first());
                }
                Some(true)
            },
        }
    }

    /// One pass of the writer. With an empty queue the timer rests and
    /// nothing else happens. Otherwise the timer runs, and if the line
    /// waits for its next level (`bit_pending` is false), the next bit is
    /// taken as `send_next_bit` takes it.
    pub fn process(&mut self, bit_pending: bool) -> (step: Step)
        requires
            old(self).wf(),
        ensures
            final(self).wf(),
            step.timer_on == (old(self)@.len() > 0),
            old(self)@.len() == 0 || bit_pending ==> step.next_bit is None && final(self)@ == old(
                self,
            )@ && final(self).state() == old(self).state(),
            old(self)@.len() > 0 && !bit_pending ==> {
                &&& step.next_bit == Self::spec_bit(old(self).state(), old(self)@)
                &&& final(self).state() == Self::spec_next(old(self).state(), old(self)@)
                &&& final(self)@ == if old(self).state() == WriterState::Stop {
                    old(self)@.drop_first()
                } else {
                    old(self)@
                }
            },
    {
        if self.size == 0 {
            return Step { timer_on: false, next_bit: None };
        }
        if bit_pending {
            return Step { timer_on: true, next_bit: None };
        }
        let next_bit = self.send_next_bit();
        Step { timer_on: true, next_bit }
    }
}

} // verus!
