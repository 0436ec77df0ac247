//! Little-endian integers on the wire.
//!
//! Every multi-byte field of an SRXL2 frame is sent low byte first. The spec
//! functions give the byte sequence of a value and the value of a byte
//! sequence; the executable functions read from a slice and append to a
//! vector.

use vstd::prelude::*;

verus! {

/// The two bytes of `x`, low byte first.
pub open spec fn le16(x: u16) -> Seq<u8> {
    seq![(x % 256) as u8, (x / 256) as u8]
}

/// The value whose low byte is `s[i]` and whose high byte is `s[i + 1]`.
pub open spec fn from_le16(s: Seq<u8>, i: int) -> u16 {
    (s[i] as int + 256 * (s[i + 1] as int)) as u16
}

/// The four bytes of `x`, low byte first.
pub open spec fn le32(x: u32) -> Seq<u8> {
    seq![
        (x % 256) as u8,
        (x / 0x100 % 256) as u8,
        (x / 0x1_0000 % 256) as u8,
        (x / 0x100_0000) as u8,
    ]
}

/// The value of the four bytes of `s` that start at `i`, low byte first.
pub open spec fn from_le32(s: Seq<u8>, i: int) -> u32 {
    (s[i] as int + 0x100 * (s[i + 1] as int) + 0x1_0000 * (s[i + 2] as int) + 0x100_0000 * (s[i
        + 3] as int)) as u32
}

/// The eight bytes of `x`, low byte first.
pub open spec fn le64(x: u64) -> Seq<u8> {
    le32((x % 0x1_0000_0000) as u32) + le32((x / 0x1_0000_0000) as u32)
}

/// The value of the eight bytes of `s` that start at `i`, low byte first.
pub open spec fn from_le64(s: Seq<u8>, i: int) -> u64 {
    (from_le32(s, i) as int + 0x1_0000_0000 * (from_le32(s, i + 4) as int)) as u64
}

/// The byte that holds `x` in two's complement.
pub open spec fn byte_of_i8(x: i8) -> u8 {
    if x >= 0 {
        x as u8
    } else {
        (x + 256) as u8
    }
}

/// The signed value that the byte `b` holds in two's complement.
pub open spec fn i8_of_byte(b: u8) -> i8 {
    if b < 128 {
        b as i8
    } else {
        (b - 256) as i8
    }
}

/// Reading back the bytes of a 16-bit value gives the value.
pub proof fn lemma_le16_value(x: u16)
    ensures
        le16(x).len() == 2,
        from_le16(le16(x), 0) == x,
{
}

/// Writing the value of two bytes gives the two bytes.
pub proof fn lemma_le16_bytes(s: Seq<u8>, i: int)
    requires
        0 <= i,
        i + 2 <= s.len(),
    ensures
        le16(from_le16(s, i)) == s.subrange(i, i + 2),
{
    assert(le16(from_le16(s, i)) =~= s.subrange(i, i + 2));
}

/// Reading back the bytes of a 32-bit value gives the value.
pub proof fn lemma_le32_value(x: u32)
    ensures
        le32(x).len() == 4,
        from_le32(le32(x), 0) == x,
{
}

/// The four bytes of a value are its digits in base 256.
proof fn lemma_digits32(b0: u8, b1: u8, b2: u8, b3: u8)
    ensures
        ({
            let x = b0 as int + 0x100 * (b1 as int) + 0x1_0000 * (b2 as int) + 0x100_0000 * (
            b3 as int);
            &&& 0 <= x < 0x1_0000_0000
            &&& x % 256 == b0
            &&& x / 0x100 % 256 == b1
            &&& x / 0x1_0000 % 256 == b2
            &&& x / 0x100_0000 == b3
        }),
{
    let x = b0 as int + 0x100 * (b1 as int) + 0x1_0000 * (b2 as int) + 0x100_0000 * (b3 as int);
    let h1 = b1 as int + 0x100 * (b2 as int) + 0x1_0000 * (b3 as int);
    let h2 = b2 as int + 0x100 * (b3 as int);
    assert(x == b0 as int + 0x100 * h1);
    assert(x / 0x100 == h1);
    assert(h1 == b1 as int + 0x100 * h2);
    assert(x / 0x1_0000 == h2);
    assert(x / 0x100_0000 == b3 as int);
}

/// Writing the value of four bytes gives the four bytes.
pub proof fn lemma_le32_bytes(s: Seq<u8>, i: int)
    requires
        0 <= i,
        i + 4 <= s.len(),
    ensures
        le32(from_le32(s, i)) == s.subrange(i, i + 4),
{
    lemma_digits32(s[i], s[i + 1], s[i + 2], s[i + 3]);
    let t = le32(from_le32(s, i));
    let u = s.subrange(i, i + 4);
    assert(t.len() == 4);
    assert(t[0] == u[0]);
    assert(t[1] == u[1]);
    assert(t[2] == u[2]);
    assert(t[3] == u[3]);
    assert(t =~= u);
}

/// Reading back the bytes of a 64-bit value gives the value.
pub proof fn lemma_le64_value(x: u64)
    ensures
        le64(x).len() == 8,
        from_le64(le64(x), 0) == x,
{
    let lo = (x % 0x1_0000_0000) as u32;
    let hi = (x / 0x1_0000_0000) as u32;
    lemma_le32_value(lo);
    lemma_le32_value(hi);
    let s = le64(x);
    assert(from_le32(s, 0) == from_le32(le32(lo), 0));
    assert(from_le32(s, 4) == from_le32(le32(hi), 0));
}

/// Writing the value of eight bytes gives the eight bytes.
pub proof fn lemma_le64_bytes(s: Seq<u8>, i: int)
    requires
        0 <= i,
        i + 8 <= s.len(),
    ensures
        le64(from_le64(s, i)) == s.subrange(i, i + 8),
{
    let x = from_le64(s, i);
    let lo = from_le32(s, i);
    let hi = from_le32(s, i + 4);
    lemma_digits32(s[i], s[i + 1], s[i + 2], s[i + 3]);
    lemma_digits32(s[i + 4], s[i + 5], s[i + 6], s[i + 7]);
    assert(x == lo as int + 0x1_0000_0000 * (hi as int));
    assert((x % 0x1_0000_0000) as u32 == lo);
    assert((x / 0x1_0000_0000) as u32 == hi);
    lemma_le32_bytes(s, i);
    lemma_le32_bytes(s, i + 4);
    assert(le64(x) =~= s.subrange(i, i + 4) + s.subrange(i + 4, i + 8));
    assert(s.subrange(i, i + 4) + s.subrange(i + 4, i + 8) =~= s.subrange(i, i + 8));
}

/// Reads the 16-bit value at `i`.
pub fn read_le16(s: &[u8], i: usize) -> (x: u16)
    requires
        i + 2 <= s.len(),
    ensures
        x == from_le16(s@, i as int),
{
    let lo: u16 = s[i] as u16;
    let hi: u16 = s[i + 1] as u16;
    lo + 256 * hi
}

/// Reads the 32-bit value at `i`.
pub fn read_le32(s: &[u8], i: usize) -> (x: u32)
    requires
        i + 4 <= s.len(),
    ensures
        x == from_le32(s@, i as int),
{
    let b0: u32 = s[i] as u32;
    let b1: u32 = s[i + 1] as u32;
    let b2: u32 = s[i + 2] as u32;
    let b3: u32 = s[i + 3] as u32;
    b0 + 0x100 * b1 + 0x1_0000 * b2 + 0x100_0000 * b3
}

/// Reads the 64-bit value at `i`.
pub fn read_le64(s: &[u8], i: usize) -> (x: u64)
    requires
        i + 8 <= s.len(),
    ensures
        x == from_le64(s@, i as int),
{
    let lo: u64 = read_le32(s, i) as u64;
    let hi: u64 = read_le32(s, i + 4) as u64;
    lo + 0x1_0000_0000 * hi
}

/// Reads the signed byte at `i`.
pub fn read_i8(s: &[u8], i: usize) -> (x: i8)
    requires
        i < s.len(),
    ensures
        x == i8_of_byte(s@[i as int]),
{
    let b: u8 = s[i];
    if b < 128 {
        b as i8
    } else {
        (b as i16 - 256) as i8
    }
}

/// The byte that holds `x`.
pub fn i8_to_byte(x: i8) -> (b: u8)
    ensures
        b == byte_of_i8(x),
{
    if x >= 0 {
        x as u8
    } else {
        (x as i16 + 256) as u8
    }
}

/// Appends the two bytes of `x`.
pub fn push_le16(out: &mut Vec<u8>, x: u16)
    ensures
        final(out)@ == old(out)@ + le16(x),
{
    out.push((x % 256) as u8);
    out.push((x / 256) as u8);
    assert(out@ =~= old(out)@ + le16(x));
}

/// Appends the four bytes of `x`.
pub fn push_le32(out: &mut Vec<u8>, x: u32)
    ensures
        final(out)@ == old(out)@ + le32(x),
{
    out.push((x % 256) as u8);
    out.push((x / 0x100 % 256) as u8);
    out.push((x / 0x1_0000 % 256) as u8);
    out.push((x / 0x100_0000) as u8);
    assert(out@ =~= old(out)@ + le32(x));
}

/// Appends the eight bytes of `x`.
pub fn push_le64(out: &mut Vec<u8>, x: u64)
    ensures
        final(out)@ == old(out)@ + le64(x),
{
    push_le32(out, (x % 0x1_0000_0000) as u32);
    push_le32(out, (x / 0x1_0000_0000) as u32);
    assert(out@ =~= old(out)@ + le64(x));
}

/// Appends the bytes of `s`.
pub fn push_bytes(out: &mut Vec<u8>, s: &[u8])
    ensures
        final(out)@ == old(out)@ + s@,
{
    let mut i: usize = 0;
    while i < s.len()
        invariant
            i <= s.len(),
            out@ == old(out)@ + s@.take(i as int),
        decreases s.len() - i,
    {
        out.push(s[i]);
        assert(out@ =~= old(out)@ + s@.take(i as int + 1));
        i += 1;
    }
    assert(s@.take(i as int) =~= s@);
}

/// Copies the `N` bytes of `s` that start at `i` into an array.
pub fn read_array<const N: usize>(s: &[u8], i: usize) -> (a: [u8; N])
    requires
        i + N <= s.len(),
    ensures
        a@ == s@.subrange(i as int, i + N),
{
    let mut a: [u8; N] = vstd::array::array_fill_for_copy_types(0u8);
    let mut k: usize = 0;
    while k < N
        invariant
            k <= N,
            i + N <= s.len(),
            a@.len() == N,
            forall|j: int| 0 <= j < k ==> a@[j] == s@[i + j],
        decreases N - k,
    {
        a[k] = s[i + k];
        k += 1;
    }
    assert(a@ =~= s@.subrange(i as int, i + N));
    a
}

} // verus!
