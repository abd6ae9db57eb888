//! Fixed-width little-endian integers, the building block of every record
//! and payload layout in this crate.
use vstd::prelude::*;

verus! {

/// Width in bytes of an encoded 64-bit integer.
pub const WORD_BYTES: usize = 8;

/// The eight little-endian bytes of `x`, least significant first.
pub open spec fn u64_le(x: u64) -> Seq<u8> {
    seq![
        (x % 0x100) as u8,
        (x / 0x100 % 0x100) as u8,
        (x / 0x1_0000 % 0x100) as u8,
        (x / 0x100_0000 % 0x100) as u8,
        (x / 0x1_0000_0000 % 0x100) as u8,
        (x / 0x100_0000_0000 % 0x100) as u8,
        (x / 0x1_0000_0000_0000 % 0x100) as u8,
        (x / 0x100_0000_0000_0000 % 0x100) as u8,
    ]
}

/// The number whose little-endian bytes are the first eight bytes of `s`.
pub open spec fn le_u64(s: Seq<u8>) -> u64
    recommends
        s.len() >= 8,
{
    (s[0] as int + s[1] as int * 0x100 + s[2] as int * 0x1_0000 + s[3] as int * 0x100_0000
        + s[4] as int * 0x1_0000_0000 + s[5] as int * 0x100_0000_0000 + s[6] as int
        * 0x1_0000_0000_0000 + s[7] as int * 0x100_0000_0000_0000) as u64
}

/// The unsigned number that shares its 64-bit pattern with `x` (two's
/// complement).
pub open spec fn twos_complement(x: i64) -> u64 {
    if x >= 0 {
        x as u64
    } else {
        (x + 0x1_0000_0000_0000_0000) as u64
    }
}

/// The signed number that shares its 64-bit pattern with `u`.
pub open spec fn from_twos_complement(u: u64) -> i64 {
    if u < 0x8000_0000_0000_0000 {
        u as i64
    } else {
        (u - 0x1_0000_0000_0000_0000) as i64
    }
}

/// The eight little-endian bytes of a signed 64-bit integer.
pub open spec fn i64_le(x: i64) -> Seq<u8> {
    u64_le(twos_complement(x))
}

/// The signed number whose little-endian bytes are the first eight of `s`.
pub open spec fn le_i64(s: Seq<u8>) -> i64
    recommends
        s.len() >= 8,
{
    from_twos_complement(le_u64(s))
}

/// Decoding the bytes of `x` gives `x` back.
pub proof fn lemma_u64_le_round_trip(x: u64)
    ensures
        u64_le(x).len() == 8,
        le_u64(u64_le(x)) == x,
{
    assert(x == (x % 0x100) + (x / 0x100 % 0x100) * 0x100 + (x / 0x1_0000 % 0x100) * 0x1_0000 + (x
        / 0x100_0000 % 0x100) * 0x100_0000 + (x / 0x1_0000_0000 % 0x100) * 0x1_0000_0000 + (x
        / 0x100_0000_0000 % 0x100) * 0x100_0000_0000 + (x / 0x1_0000_0000_0000 % 0x100)
        * 0x1_0000_0000_0000 + (x / 0x100_0000_0000_0000 % 0x100) * 0x100_0000_0000_0000)
        by (bit_vector);
}

/// Encoding the number read from eight bytes gives the same bytes back.
pub proof fn lemma_le_u64_round_trip(s: Seq<u8>)
    requires
        s.len() == 8,
    ensures
        u64_le(le_u64(s)) == s,
{
    let (b0, b1, b2, b3) = (s[0], s[1], s[2], s[3]);
    let (b4, b5, b6, b7) = (s[4], s[5], s[6], s[7]);
    assert({
        let x = (b0 as u64) + (b1 as u64) * 0x100 + (b2 as u64) * 0x1_0000 + (b3 as u64)
            * 0x100_0000 + (b4 as u64) * 0x1_0000_0000 + (b5 as u64) * 0x100_0000_0000 + (
        b6 as u64) * 0x1_0000_0000_0000 + (b7 as u64) * 0x100_0000_0000_0000;
        &&& x <= 0xffff_ffff_ffff_ffff
        &&& x % 0x100 == b0
        &&& x / 0x100 % 0x100 == b1
        &&& x / 0x1_0000 % 0x100 == b2
        &&& x / 0x100_0000 % 0x100 == b3
        &&& x / 0x1_0000_0000 % 0x100 == b4
        &&& x / 0x100_0000_0000 % 0x100 == b5
        &&& x / 0x1_0000_0000_0000 % 0x100 == b6
        &&& x / 0x100_0000_0000_0000 % 0x100 == b7
    }) by (bit_vector);
}

/// The signed encoding loses nothing either way.
pub proof fn lemma_i64_le_round_trip(x: i64, s: Seq<u8>)
    requires
        s.len() == 8,
    ensures
        i64_le(x).len() == 8,
        le_i64(i64_le(x)) == x,
        i64_le(le_i64(s)) == s,
{
    lemma_u64_le_round_trip(twos_complement(x));
    lemma_le_u64_round_trip(s);
}

/// Encodes `x` as eight little-endian bytes.
pub fn encode_u64(x: u64) -> (out: [u8; 8])
    ensures
        out@ == u64_le(x),
{
    let out: [u8; 8] = [
        (x % 0x100) as u8,
        (x / 0x100 % 0x100) as u8,
        (x / 0x1_0000 % 0x100) as u8,
        (x / 0x100_0000 % 0x100) as u8,
        (x / 0x1_0000_0000 % 0x100) as u8,
        (x / 0x100_0000_0000 % 0x100) as u8,
        (x / 0x1_0000_0000_0000 % 0x100) as u8,
        (x / 0x100_0000_0000_0000 % 0x100) as u8,
    ];
    out
}

/// Reads the little-endian number stored in `bytes[at .. at + 8]`.
pub fn decode_u64(bytes: &[u8], at: usize) -> (x: u64)
    requires
        at + 8 <= bytes@.len(),
    ensures
        x == le_u64(bytes@.subrange(at as int, at + 8)),
{
    let x: u64 = bytes[at] as u64 + bytes[at + 1] as u64 * 0x100 + bytes[at + 2] as u64 * 0x1_0000
        + bytes[at + 3] as u64 * 0x100_0000 + bytes[at + 4] as u64 * 0x1_0000_0000 + bytes[at
        + 5] as u64 * 0x100_0000_0000 + bytes[at + 6] as u64 * 0x1_0000_0000_0000 + bytes[at
        + 7] as u64 * 0x100_0000_0000_0000;
    x
}

/// Encodes a signed number as eight little-endian bytes.
pub fn encode_i64(x: i64) -> (out: [u8; 8])
    ensures
        out@ == i64_le(x),
{
    let pattern: u64 = if x >= 0 {
        x as u64
    } else {
        (x - i64::MIN) as u64 + 0x8000_0000_0000_0000
    };
    encode_u64(pattern)
}

/// Reads the signed little-endian number stored in `bytes[at .. at + 8]`.
pub fn decode_i64(bytes: &[u8], at: usize) -> (x: i64)
    requires
        at + 8 <= bytes@.len(),
    ensures
        x == le_i64(bytes@.subrange(at as int, at + 8)),
{
    let pattern: u64 = decode_u64(bytes, at);
    if pattern < 0x8000_0000_0000_0000 {
        pattern as i64
    } else {
        (pattern - 0x8000_0000_0000_0000) as i64 + i64::MIN
    }
}

} // verus!
