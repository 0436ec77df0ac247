//! The frame check sequence of SRXL2.
//!
//! The CRC is the 16-bit CCITT polynomial `x^16 + x^12 + x^5 + 1` (0x1021),
//! started at zero, fed most significant bit first, with no reflection and no
//! final inversion: the variant known as CRC-16/XMODEM. Both parameters are
//! named constants, so that a bus which uses another polynomial or seed needs
//! a change in one place only.

use vstd::prelude::*;

verus! {

/// Generator polynomial, without its leading term.
pub const CRC_POLY: u16 = 0x1021;

/// Value of the register before the first byte.
pub const CRC_INIT: u16 = 0;

/// One shift of the register: the top bit leaves, and the polynomial is
/// folded in whenever that bit was set.
pub open spec fn crc_shift(c: u16) -> u16 {
    if c & 0x8000 != 0 {
        (c << 1) ^ CRC_POLY
    } else {
        c << 1
    }
}

/// The register after one more byte: the byte enters at the top, then the
/// register is shifted eight times.
pub open spec fn crc_byte(c: u16, b: u8) -> u16 {
    crc_shift(
        crc_shift(
            crc_shift(
                crc_shift(crc_shift(crc_shift(crc_shift(crc_shift(c ^ ((b as u16) << 8)))))),
            ),
        ),
    )
}

/// The CRC of a byte sequence.
pub open spec fn crc16(s: Seq<u8>) -> u16
    decreases s.len(),
{
    if s.len() == 0 {
        CRC_INIT
    } else {
        crc_byte(crc16(s.drop_last()), s.last())
    }
}

/// A shift loses nothing: two registers that agree after it agreed before.
pub proof fn lemma_shift_injective(c: u16, d: u16)
    requires
        crc_shift(c) == crc_shift(d),
    ensures
        c == d,
{
    assert(({
        let sc = if c & 0x8000 != 0 {
            (c << 1) ^ 0x1021u16
        } else {
            c << 1
        };
        let sd = if d & 0x8000 != 0 {
            (d << 1) ^ 0x1021u16
        } else {
            d << 1
        };
        sc == sd ==> c == d
    })) by (bit_vector);
}

/// Feeding a byte loses nothing: equal results come from equal registers
/// and equal bytes.
pub proof fn lemma_byte_injective(c: u16, b: u8, d: u16, e: u8)
    requires
        crc_byte(c, b) == crc_byte(d, e),
    ensures
        c ^ ((b as u16) << 8) == d ^ ((e as u16) << 8),
        c == d ==> b == e,
        b == e ==> c == d,
{
    let x0 = c ^ ((b as u16) << 8);
    let y0 = d ^ ((e as u16) << 8);
    let x1 = crc_shift(x0);
    let y1 = crc_shift(y0);
    let x2 = crc_shift(x1);
    let y2 = crc_shift(y1);
    let x3 = crc_shift(x2);
    let y3 = crc_shift(y2);
    let x4 = crc_shift(x3);
    let y4 = crc_shift(y3);
    let x5 = crc_shift(x4);
    let y5 = crc_shift(y4);
    let x6 = crc_shift(x5);
    let y6 = crc_shift(y5);
    let x7 = crc_shift(x6);
    let y7 = crc_shift(y6);
    lemma_shift_injective(x7, y7);
    lemma_shift_injective(x6, y6);
    lemma_shift_injective(x5, y5);
    lemma_shift_injective(x4, y4);
    lemma_shift_injective(x3, y3);
    lemma_shift_injective(x2, y2);
    lemma_shift_injective(x1, y1);
    lemma_shift_injective(x0, y0);
    assert(c ^ ((b as u16) << 8) == d ^ ((e as u16) << 8) && c == d ==> b == e) by (bit_vector);
    assert(c ^ ((b as u16) << 8) == d ^ ((e as u16) << 8) && b == e ==> c == d) by (bit_vector);
}

/// Two sequences of one length that end in different registers keep
/// different registers when the same bytes follow; put the other way round,
/// equal CRCs of sequences with a common tail mean equal CRCs before it.
pub proof fn lemma_crc_same_tail(s: Seq<u8>, t: Seq<u8>, k: int)
    requires
        s.len() == t.len(),
        0 <= k <= s.len(),
        forall|i: int| k <= i < s.len() ==> s[i] == t[i],
        crc16(s) == crc16(t),
    ensures
        crc16(s.take(k)) == crc16(t.take(k)),
    decreases s.len() - k,
{
    if k == s.len() {
        assert(s.take(k) =~= s);
        assert(t.take(k) =~= t);
    } else {
        lemma_crc_same_tail(s, t, k + 1);
        let s1 = s.take(k + 1);
        let t1 = t.take(k + 1);
        assert(s1.drop_last() =~= s.take(k));
        assert(t1.drop_last() =~= t.take(k));
        assert(s1.last() == s[k]);
        assert(t1.last() == t[k]);
        lemma_byte_injective(crc16(s.take(k)), s[k], crc16(t.take(k)), t[k]);
    }
}

/// The CRC notices every change that stays within one byte: replacing the
/// byte at `k` by any other value gives another CRC.
pub proof fn lemma_crc_detects_byte_change(s: Seq<u8>, k: int, v: u8)
    requires
        0 <= k < s.len(),
        v != s[k],
    ensures
        crc16(s.update(k, v)) != crc16(s),
{
    let t = s.update(k, v);
    if crc16(t) == crc16(s) {
        lemma_crc_same_tail(s, t, k + 1);
        let s1 = s.take(k + 1);
        let t1 = t.take(k + 1);
        assert(s1.drop_last() =~= s.take(k));
        assert(t1.drop_last() =~= s.take(k));
        assert(s1.last() == s[k]);
        assert(t1.last() == v);
        lemma_byte_injective(crc16(s.take(k)), s[k], crc16(s.take(k)), v);
    }
}

/// Shifts a register once.
fn shift_once(c: u16) -> (r: u16)
    ensures
        r == crc_shift(c),
{
    if c & 0x8000 != 0 {
        (c << 1) ^ CRC_POLY
    } else {
        c << 1
    }
}

/// Feeds one byte to a register.
pub fn crc_update(c: u16, b: u8) -> (r: u16)
    ensures
        r == crc_byte(c, b),
{
    let mut r: u16 = c ^ ((b as u16) << 8);
    r = shift_once(r);
    r = shift_once(r);
    r = shift_once(r);
    r = shift_once(r);
    r = shift_once(r);
    r = shift_once(r);
    r = shift_once(r);
    r = shift_once(r);
    r
}

/// Computes the CRC of the first `len` bytes of `bytes`.
pub fn crc16_of(bytes: &[u8], len: usize) -> (r: u16)
    requires
        len <= bytes.len(),
    ensures
        r == crc16(bytes@.take(len as int)),
{
    let mut r: u16 = CRC_INIT;
    let mut i: usize = 0;
    while i < len
        invariant
            i <= len,
            len <= bytes.len(),
            r == crc16(bytes@.take(i as int)),
        decreases len - i,
    {
        proof {
            let next = bytes@.take(i as int + 1);
            assert(next.drop_last() =~= bytes@.take(i as int));
            assert(next.last() == bytes@[i as int]);
        }
        r = crc_update(r, bytes[i]);
        i += 1;
    }
    r
}

} // verus!
