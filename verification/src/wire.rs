//! Little-endian integers on the wire.
//!
//! A 64-bit number travels as its eight base-256 digits, least significant first. A signed
//! number travels as the unsigned number with the same bits (two's complement).

use vstd::prelude::*;

verus! {

/// The eight base-256 digits of `x`, least significant first.
pub open spec fn le_bytes(x: u64) -> Seq<u8> {
    seq![
        (x % 0x100) as u8,
        (x / 0x100 % 0x100) as u8,
        (x / 0x1_0000 % 0x100) as u8,
        (x / 0x100_0000 % 0x100) as u8,
        (x / 0x1_0000_0000 % 0x100) as u8,
        (x / 0x100_0000_0000 % 0x100) as u8,
        (x / 0x1_0000_0000_0000 % 0x100) as u8,
        (x / 0x100_0000_0000_0000 % 0x100) as u8,
    ]
}

/// The number whose base-256 digits, least significant first, are the eight bytes of `s`.
pub open spec fn from_le_bytes(s: Seq<u8>) -> u64
    recommends
        s.len() == 8,
{
    (s[0] + s[1] * 0x100 + s[2] * 0x1_0000 + s[3] * 0x100_0000 + s[4] * 0x1_0000_0000 + s[5]
        * 0x100_0000_0000 + s[6] * 0x1_0000_0000_0000 + s[7] * 0x100_0000_0000_0000) as u64
}

/// The unsigned number with the bits of `x` in two's complement.
pub open spec fn unsigned_bits(x: i64) -> u64 {
    if x >= 0 {
        x as u64
    } else {
        (x + 0x1_0000_0000_0000_0000) as u64
    }
}

/// The signed number with the bits of `u` in two's complement.
pub open spec fn signed_value(u: u64) -> i64 {
    if u < 0x8000_0000_0000_0000 {
        u as i64
    } else {
        (u - 0x1_0000_0000_0000_0000) as i64
    }
}

/// The digits of the number that eight bytes hold are those bytes again.
pub proof fn lemma_le_bytes_of_digits(s: Seq<u8>)
    requires
        s.len() == 8,
    ensures
        le_bytes(from_le_bytes(s)) == s,
{
    let (b0, b1, b2, b3) = (s[0], s[1], s[2], s[3]);
    let (b4, b5, b6, b7) = (s[4], s[5], s[6], s[7]);
    let x: u64 = from_le_bytes(s);
    assert(x == b0 + b1 * 0x100 + b2 * 0x1_0000 + b3 * 0x100_0000 + b4 * 0x1_0000_0000 + b5
        * 0x100_0000_0000 + b6 * 0x1_0000_0000_0000 + b7 * 0x100_0000_0000_0000 ==> {
        &&& x % 0x100 == b0
        &&& x / 0x100 % 0x100 == b1
        &&& x / 0x1_0000 % 0x100 == b2
        &&& x / 0x100_0000 % 0x100 == b3
        &&& x / 0x1_0000_0000 % 0x100 == b4
        &&& x / 0x100_0000_0000 % 0x100 == b5
        &&& x / 0x1_0000_0000_0000 % 0x100 == b6
        &&& x / 0x100_0000_0000_0000 % 0x100 == b7
    }) by (bit_vector);
    assert(le_bytes(x) =~= s);
}

/// A number is read back from its own digits.
pub proof fn lemma_digits_of_le_bytes(x: u64)
    ensures
        le_bytes(x).len() == 8,
        from_le_bytes(le_bytes(x)) == x,
{
    assert(x == (x % 0x100) + (x / 0x100 % 0x100) * 0x100 + (x / 0x1_0000 % 0x100) * 0x1_0000 + (x
        / 0x100_0000 % 0x100) * 0x100_0000 + (x / 0x1_0000_0000 % 0x100) * 0x1_0000_0000 + (x
        / 0x100_0000_0000 % 0x100) * 0x100_0000_0000 + (x / 0x1_0000_0000_0000 % 0x100)
        * 0x1_0000_0000_0000 + (x / 0x100_0000_0000_0000 % 0x100) * 0x100_0000_0000_0000)
        by (bit_vector);
}

/// Signed and unsigned readings of the same bits undo each other.
pub proof fn lemma_signed_unsigned(x: i64, u: u64)
    ensures
        signed_value(unsigned_bits(x)) == x,
        unsigned_bits(signed_value(u)) == u,
{
}

/// Computes the unsigned number with the bits of `x`.
pub fn to_unsigned_bits(x: i64) -> (u: u64)
    ensures
        u == unsigned_bits(x),
{
    if x >= 0 {
        x as u64
    } else {
        let low: i64 = x + i64::MAX + 1;
        low as u64 + 0x8000_0000_0000_0000
    }
}

/// Computes the signed number with the bits of `u`.
pub fn to_signed_value(u: u64) -> (x: i64)
    ensures
        x == signed_value(u),
{
    if u < 0x8000_0000_0000_0000 {
        u as i64
    } else {
        let low: i64 = (u - 0x8000_0000_0000_0000) as i64;
        low - i64::MAX - 1
    }
}

/// Appends the eight little-endian bytes of `x` to `out`.
pub fn append_u64_le(out: &mut Vec<u8>, x: u64)
    ensures
        final(out)@ == old(out)@ + le_bytes(x),
{
    out.push((x % 0x100) as u8);
    out.push((x / 0x100 % 0x100) as u8);
    out.push((x / 0x1_0000 % 0x100) as u8);
    out.push((x / 0x100_0000 % 0x100) as u8);
    out.push((x / 0x1_0000_0000 % 0x100) as u8);
    out.push((x / 0x100_0000_0000 % 0x100) as u8);
    out.push((x / 0x1_0000_0000_0000 % 0x100) as u8);
    out.push((x / 0x100_0000_0000_0000 % 0x100) as u8);
    assert(out@ =~= old(out)@ + le_bytes(x));
}

/// Reads the number that the eight bytes of `data` from `start` on hold, little-endian.
pub fn read_u64_le(data: &[u8], start: usize) -> (x: u64)
    requires
        start + 8 <= data.len(),
    ensures
        x == from_le_bytes(data@.subrange(start as int, start + 8)),
{
    let b0: u64 = data[start] as u64;
    let b1: u64 = data[start + 1] as u64;
    let b2: u64 = data[start + 2] as u64;
    let b3: u64 = data[start + 3] as u64;
    let b4: u64 = data[start + 4] as u64;
    let b5: u64 = data[start + 5] as u64;
    let b6: u64 = data[start + 6] as u64;
    let b7: u64 = data[start + 7] as u64;
    b0 + b1 * 0x100 + b2 * 0x1_0000 + b3 * 0x100_0000 + b4 * 0x1_0000_0000 + b5 * 0x100_0000_0000
        + b6 * 0x1_0000_0000_0000 + b7 * 0x100_0000_0000_0000
}

} // verus!
