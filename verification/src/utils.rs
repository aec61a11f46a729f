//! The byte codec: splitting and combining the fixed-width byte arrays that
//! make up multi-field payloads, and little-endian integer packing.

use vstd::prelude::*;

verus! {

/// The value of a 4-byte little-endian field.
pub open spec fn le32(s: Seq<u8>) -> int
    recommends
        s.len() == 4,
{
    s[0] + 0x100 * s[1] + 0x1_0000 * s[2] + 0x100_0000 * s[3]
}

/// The value of an 8-byte little-endian field.
pub open spec fn le64(s: Seq<u8>) -> int
    recommends
        s.len() == 8,
{
    s[0] + 0x100 * s[1] + 0x1_0000 * s[2] + 0x100_0000 * s[3] + 0x1_0000_0000 * s[4]
        + 0x100_0000_0000 * s[5] + 0x1_0000_0000_0000 * s[6] + 0x100_0000_0000_0000 * s[7]
}

/// The value of a 4-byte little-endian field read as a two's-complement
/// signed integer.
pub open spec fn le32_signed(s: Seq<u8>) -> int
    recommends
        s.len() == 4,
{
    if le32(s) < 0x8000_0000 {
        le32(s)
    } else {
        le32(s) - 0x1_0000_0000
    }
}

/// Reads a 4-byte little-endian unsigned field.
pub fn u32_from_le(data: [u8; 4]) -> (v: u32)
    ensures
        v == le32(data@),
{
    data[0] as u32 + 0x100 * (data[1] as u32) + 0x1_0000 * (data[2] as u32) + 0x100_0000
        * (data[3] as u32)
}

/// Reads an 8-byte little-endian unsigned field.
pub fn u64_from_le(data: [u8; 8]) -> (v: u64)
    ensures
        v == le64(data@),
{
    data[0] as u64 + 0x100 * (data[1] as u64) + 0x1_0000 * (data[2] as u64) + 0x100_0000
        * (data[3] as u64) + 0x1_0000_0000 * (data[4] as u64) + 0x100_0000_0000 * (data[5] as u64)
        + 0x1_0000_0000_0000 * (data[6] as u64) + 0x100_0000_0000_0000 * (data[7] as u64)
}

/// Reads a 4-byte little-endian signed field.
pub fn i32_from_le(data: [u8; 4]) -> (v: i32)
    ensures
        v == le32_signed(data@),
{
    let raw = u32_from_le(data);
    if raw < 0x8000_0000 {
        raw as i32
    } else {
        let flipped = u32::MAX - raw;
        -(flipped as i32) - 1
    }
}

/// Writes a value as a 4-byte little-endian field.
pub fn u32_to_le(v: u32) -> (data: [u8; 4])
    ensures
        le32(data@) == v,
{
    let data: [u8; 4] = [
        (v % 0x100) as u8,
        ((v / 0x100) % 0x100) as u8,
        ((v / 0x1_0000) % 0x100) as u8,
        ((v / 0x100_0000) % 0x100) as u8,
    ];
    assert(v == (v % 0x100) + 0x100 * ((v / 0x100) % 0x100) + 0x1_0000 * ((v / 0x1_0000) % 0x100)
        + 0x100_0000 * ((v / 0x100_0000) % 0x100)) by (bit_vector);
    data
}

/// Collection of functions for manipulating the payload data sent to and
/// received from the CAN bus.
pub struct ResponseManip {}

impl ResponseManip {
    /// Concatenates two byte strings into one.
    pub fn combine(data1: &[u8], data2: &[u8]) -> (out: Vec<u8>)
        ensures
            out@ == data1@ + data2@,
    {
        let mut out: Vec<u8> = Vec::new();
        let mut i: usize = 0;
        while i < data1.len()
            invariant
                i <= data1@.len(),
                out@ == data1@.subrange(0, i as int),
            decreases data1@.len() - i,
        {
            out.push(data1[i]);
            i = i + 1;
        }
        let mut j: usize = 0;
        while j < data2.len()
            invariant
                j <= data2@.len(),
                out@ == data1@ + data2@.subrange(0, j as int),
            decreases data2@.len() - j,
        {
            out.push(data2[j]);
            j = j + 1;
        }
        assert(out@ =~= data1@ + data2@);
        out
    }

    /// Splits a byte string into two equal halves.
    pub fn split(data: &[u8]) -> (out: (Vec<u8>, Vec<u8>))
        ensures
            out.0@ == data@.subrange(0, data@.len() as int / 2),
            out.1@ == data@.subrange(data@.len() as int / 2, data@.len() as int),
    {
        let half: usize = data.len() / 2;
        let mut left: Vec<u8> = Vec::new();
        let mut i: usize = 0;
        while i < half
            invariant
                i <= half,
                half == data@.len() as int / 2,
                half <= data@.len(),
                left@ == data@.subrange(0, i as int),
            decreases half - i,
        {
            left.push(data[i]);
            i = i + 1;
        }
        let mut right: Vec<u8> = Vec::new();
        let mut j: usize = half;
        while j < data.len()
            invariant
                half <= j <= data@.len(),
                half == data@.len() as int / 2,
                right@ == data@.subrange(half as int, j as int),
            decreases data@.len() - j,
        {
            right.push(data[j]);
            j = j + 1;
        }
        (left, right)
    }

    /// Combines two 4-byte arrays into an 8-byte array.
    pub fn combine_32(data1: [u8; 4], data2: [u8; 4]) -> (out: [u8; 8])
        ensures
            out@ == data1@ + data2@,
    {
        let out: [u8; 8] = [
            data1[0],
            data1[1],
            data1[2],
            data1[3],
            data2[0],
            data2[1],
            data2[2],
            data2[3],
        ];
        assert(out@ =~= data1@ + data2@);
        out
    }

    /// Combines two 2-byte arrays into a 4-byte array.
    pub fn combine_16(data1: [u8; 2], data2: [u8; 2]) -> (out: [u8; 4])
        ensures
            out@ == data1@ + data2@,
    {
        let out: [u8; 4] = [data1[0], data1[1], data2[0], data2[1]];
        assert(out@ =~= data1@ + data2@);
        out
    }

    /// Combines two 1-byte arrays into a 2-byte array.
    pub fn combine_8(data1: [u8; 1], data2: [u8; 1]) -> (out: [u8; 2])
        ensures
            out@ == data1@ + data2@,
    {
        let out: [u8; 2] = [data1[0], data2[0]];
        assert(out@ =~= data1@ + data2@);
        out
    }

    /// Splits an 8-byte array into its two 4-byte halves.
    pub fn split_32(data: [u8; 8]) -> (out: ([u8; 4], [u8; 4]))
        ensures
            out.0@ == data@.subrange(0, 4),
            out.1@ == data@.subrange(4, 8),
    {
        let left: [u8; 4] = [data[0], data[1], data[2], data[3]];
        let right: [u8; 4] = [data[4], data[5], data[6], data[7]];
        assert(left@ =~= data@.subrange(0, 4));
        assert(right@ =~= data@.subrange(4, 8));
        (left, right)
    }

    /// Splits a 4-byte array into its two 2-byte halves.
    pub fn split_16(data: [u8; 4]) -> (out: ([u8; 2], [u8; 2]))
        ensures
            out.0@ == data@.subrange(0, 2),
            out.1@ == data@.subrange(2, 4),
    {
        let left: [u8; 2] = [data[0], data[1]];
        let right: [u8; 2] = [data[2], data[3]];
        assert(left@ =~= data@.subrange(0, 2));
        assert(right@ =~= data@.subrange(2, 4));
        (left, right)
    }

    /// Splits a 2-byte array into its two single bytes.
    pub fn split_8(data: [u8; 2]) -> (out: ([u8; 1], [u8; 1]))
        ensures
            out.0@ == data@.subrange(0, 1),
            out.1@ == data@.subrange(1, 2),
    {
        let left: [u8; 1] = [data[0]];
        let right: [u8; 1] = [data[1]];
        assert(left@ =~= data@.subrange(0, 1));
        assert(right@ =~= data@.subrange(1, 2));
        (left, right)
    }
}

/// Round trip of the byte codec: splitting the combination of two
/// equal-width byte strings returns exactly the original pair, and the
/// combination starts with the first of them.
pub proof fn lemma_byte_codec_round_trip(a: Seq<u8>, b: Seq<u8>)
    requires
        a.len() == b.len(),
    ensures
        (a + b).subrange(0, a.len() as int) == a,
        (a + b).subrange(a.len() as int, (a + b).len() as int) == b,
        (a + b).len() as int / 2 == a.len(),
{
    assert((a + b).subrange(0, a.len() as int) =~= a);
    assert((a + b).subrange(a.len() as int, (a + b).len() as int) =~= b);
}

} // verus!
