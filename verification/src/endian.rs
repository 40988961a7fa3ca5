use vstd::prelude::*;

verus! {

/// Little endian. The number `0xABCD` is stored `[0xCD, 0xAB]`
pub struct LittleEndian;

/// Big endian. The number `0xABCD` is stored `[0xAB, 0xCD]`
pub struct BigEndian;

/// Trait to determine the conversion methods for a specific endianness
pub trait Endianness {
    /// Ghost counterpart of [`Self::is_little_endian`].
    spec fn spec_little_endian() -> bool;

    /// Whether this byte order stores the least significant byte first.
    fn is_little_endian() -> (r: bool)
        ensures
            r == Self::spec_little_endian(),
    ;
}

impl Endianness for LittleEndian {
    open spec fn spec_little_endian() -> bool {
        true
    }

    fn is_little_endian() -> bool {
        true
    }
}

impl Endianness for BigEndian {
    open spec fn spec_little_endian() -> bool {
        false
    }

    fn is_little_endian() -> bool {
        false
    }
}

/// The two bytes of `v`, least significant first.
pub open spec fn u16_le_bytes(v: u16) -> Seq<u8> {
    seq![(v & 0xff) as u8, ((v >> 8) & 0xff) as u8]
}

/// The two bytes of `v`, most significant first.
pub open spec fn u16_be_bytes(v: u16) -> Seq<u8> {
    seq![((v >> 8) & 0xff) as u8, (v & 0xff) as u8]
}

/// The two-byte encoding of `v` in the chosen byte order.
pub open spec fn u16_to_bytes(little: bool, v: u16) -> Seq<u8> {
    if little {
        u16_le_bytes(v)
    } else {
        u16_be_bytes(v)
    }
}

/// The value whose little-endian encoding is the two-byte sequence `s`.
pub open spec fn u16_of_le(s: Seq<u8>) -> u16
    recommends
        s.len() == 2,
{
    (s[0] as u16) | ((s[1] as u16) << 8)
}

/// The value whose big-endian encoding is the two-byte sequence `s`.
pub open spec fn u16_of_be(s: Seq<u8>) -> u16
    recommends
        s.len() == 2,
{
    (s[1] as u16) | ((s[0] as u16) << 8)
}

/// The value encoded by the two-byte sequence `s` in the chosen byte order.
pub open spec fn u16_from_bytes(little: bool, s: Seq<u8>) -> u16
    recommends
        s.len() == 2,
{
    if little {
        u16_of_le(s)
    } else {
        u16_of_be(s)
    }
}

/// The four bytes of `v`, least significant first.
pub open spec fn u32_le_bytes(v: u32) -> Seq<u8> {
    seq![
        (v & 0xff) as u8,
        ((v >> 8) & 0xff) as u8,
        ((v >> 16) & 0xff) as u8,
        ((v >> 24) & 0xff) as u8,
    ]
}

/// The four bytes of `v`, most significant first.
pub open spec fn u32_be_bytes(v: u32) -> Seq<u8> {
    seq![
        ((v >> 24) & 0xff) as u8,
        ((v >> 16) & 0xff) as u8,
        ((v >> 8) & 0xff) as u8,
        (v & 0xff) as u8,
    ]
}

/// The four-byte encoding of `v` in the chosen byte order.
pub open spec fn u32_to_bytes(little: bool, v: u32) -> Seq<u8> {
    if little {
        u32_le_bytes(v)
    } else {
        u32_be_bytes(v)
    }
}

/// The value whose little-endian encoding is the four-byte sequence `s`.
pub open spec fn u32_of_le(s: Seq<u8>) -> u32
    recommends
        s.len() == 4,
{
    (s[0] as u32) | ((s[1] as u32) << 8) | ((s[2] as u32) << 16) | ((s[3] as u32) << 24)
}

/// The value whose big-endian encoding is the four-byte sequence `s`.
pub open spec fn u32_of_be(s: Seq<u8>) -> u32
    recommends
        s.len() == 4,
{
    (s[3] as u32) | ((s[2] as u32) << 8) | ((s[1] as u32) << 16) | ((s[0] as u32) << 24)
}

/// The value encoded by the four-byte sequence `s` in the chosen byte order.
pub open spec fn u32_from_bytes(little: bool, s: Seq<u8>) -> u32
    recommends
        s.len() == 4,
{
    if little {
        u32_of_le(s)
    } else {
        u32_of_be(s)
    }
}

/// The eight bytes of `v`, least significant first.
pub open spec fn u64_le_bytes(v: u64) -> Seq<u8> {
    seq![
        (v & 0xff) as u8,
        ((v >> 8) & 0xff) as u8,
        ((v >> 16) & 0xff) as u8,
        ((v >> 24) & 0xff) as u8,
        ((v >> 32) & 0xff) as u8,
        ((v >> 40) & 0xff) as u8,
        ((v >> 48) & 0xff) as u8,
        ((v >> 56) & 0xff) as u8,
    ]
}

/// The eight bytes of `v`, most significant first.
pub open spec fn u64_be_bytes(v: u64) -> Seq<u8> {
    seq![
        ((v >> 56) & 0xff) as u8,
        ((v >> 48) & 0xff) as u8,
        ((v >> 40) & 0xff) as u8,
        ((v >> 32) & 0xff) as u8,
        ((v >> 24) & 0xff) as u8,
        ((v >> 16) & 0xff) as u8,
        ((v >> 8) & 0xff) as u8,
        (v & 0xff) as u8,
    ]
}

/// The eight-byte encoding of `v` in the chosen byte order.
pub open spec fn u64_to_bytes(little: bool, v: u64) -> Seq<u8> {
    if little {
        u64_le_bytes(v)
    } else {
        u64_be_bytes(v)
    }
}

/// The value whose little-endian encoding is the eight-byte sequence `s`.
pub open spec fn u64_of_le(s: Seq<u8>) -> u64
    recommends
        s.len() == 8,
{
    (s[0] as u64) | ((s[1] as u64) << 8) | ((s[2] as u64) << 16) | ((s[3] as u64) << 24)
        | ((s[4] as u64) << 32) | ((s[5] as u64) << 40) | ((s[6] as u64) << 48)
        | ((s[7] as u64) << 56)
}

/// The value whose big-endian encoding is the eight-byte sequence `s`.
pub open spec fn u64_of_be(s: Seq<u8>) -> u64
    recommends
        s.len() == 8,
{
    (s[7] as u64) | ((s[6] as u64) << 8) | ((s[5] as u64) << 16) | ((s[4] as u64) << 24)
        | ((s[3] as u64) << 32) | ((s[2] as u64) << 40) | ((s[1] as u64) << 48)
        | ((s[0] as u64) << 56)
}

/// The value encoded by the eight-byte sequence `s` in the chosen byte order.
pub open spec fn u64_from_bytes(little: bool, s: Seq<u8>) -> u64
    recommends
        s.len() == 8,
{
    if little {
        u64_of_le(s)
    } else {
        u64_of_be(s)
    }
}

/// Encode `v` as its two bytes in the chosen byte order.
pub fn encode_u16(little: bool, v: u16) -> (r: Vec<u8>)
    ensures
        r@ == u16_to_bytes(little, v),
{
    let mut r: Vec<u8> = Vec::new();
    if little {
        r.push((v & 0xff) as u8);
        r.push(((v >> 8) & 0xff) as u8);
    } else {
        r.push(((v >> 8) & 0xff) as u8);
        r.push((v & 0xff) as u8);
    }
    proof {
        assert(r@ =~= u16_to_bytes(little, v));
    }
    r
}

/// Encode `v` as its four bytes in the chosen byte order.
pub fn encode_u32(little: bool, v: u32) -> (r: Vec<u8>)
    ensures
        r@ == u32_to_bytes(little, v),
{
    let mut r: Vec<u8> = Vec::new();
    if little {
        r.push((v & 0xff) as u8);
        r.push(((v >> 8) & 0xff) as u8);
        r.push(((v >> 16) & 0xff) as u8);
        r.push(((v >> 24) & 0xff) as u8);
    } else {
        r.push(((v >> 24) & 0xff) as u8);
        r.push(((v >> 16) & 0xff) as u8);
        r.push(((v >> 8) & 0xff) as u8);
        r.push((v & 0xff) as u8);
    }
    proof {
        assert(r@ =~= u32_to_bytes(little, v));
    }
    r
}

/// Encode `v` as its eight bytes in the chosen byte order.
pub fn encode_u64(little: bool, v: u64) -> (r: Vec<u8>)
    ensures
        r@ == u64_to_bytes(little, v),
{
    let mut r: Vec<u8> = Vec::new();
    if little {
        r.push((v & 0xff) as u8);
        r.push(((v >> 8) & 0xff) as u8);
        r.push(((v >> 16) & 0xff) as u8);
        r.push(((v >> 24) & 0xff) as u8);
        r.push(((v >> 32) & 0xff) as u8);
        r.push(((v >> 40) & 0xff) as u8);
        r.push(((v >> 48) & 0xff) as u8);
        r.push(((v >> 56) & 0xff) as u8);
    } else {
        r.push(((v >> 56) & 0xff) as u8);
        r.push(((v >> 48) & 0xff) as u8);
        r.push(((v >> 40) & 0xff) as u8);
        r.push(((v >> 32) & 0xff) as u8);
        r.push(((v >> 24) & 0xff) as u8);
        r.push(((v >> 16) & 0xff) as u8);
        r.push(((v >> 8) & 0xff) as u8);
        r.push((v & 0xff) as u8);
    }
    proof {
        assert(r@ =~= u64_to_bytes(little, v));
    }
    r
}

/// Decode the two-byte buffer `s` in the chosen byte order.
pub fn decode_u16(little: bool, s: &[u8]) -> (r: u16)
    requires
        s@.len() == 2,
    ensures
        r == u16_from_bytes(little, s@),
{
    if little {
        (s[0] as u16) | ((s[1] as u16) << 8)
    } else {
        (s[1] as u16) | ((s[0] as u16) << 8)
    }
}

/// Decode the four-byte buffer `s` in the chosen byte order.
pub fn decode_u32(little: bool, s: &[u8]) -> (r: u32)
    requires
        s@.len() == 4,
    ensures
        r == u32_from_bytes(little, s@),
{
    if little {
        (s[0] as u32) | ((s[1] as u32) << 8) | ((s[2] as u32) << 16) | ((s[3] as u32) << 24)
    } else {
        (s[3] as u32) | ((s[2] as u32) << 8) | ((s[1] as u32) << 16) | ((s[0] as u32) << 24)
    }
}

/// Decode the eight-byte buffer `s` in the chosen byte order.
pub fn decode_u64(little: bool, s: &[u8]) -> (r: u64)
    requires
        s@.len() == 8,
    ensures
        r == u64_from_bytes(little, s@),
{
    if little {
        (s[0] as u64) | ((s[1] as u64) << 8) | ((s[2] as u64) << 16) | ((s[3] as u64) << 24)
            | ((s[4] as u64) << 32) | ((s[5] as u64) << 40) | ((s[6] as u64) << 48)
            | ((s[7] as u64) << 56)
    } else {
        (s[7] as u64) | ((s[6] as u64) << 8) | ((s[5] as u64) << 16) | ((s[4] as u64) << 24)
            | ((s[3] as u64) << 32) | ((s[2] as u64) << 40) | ((s[1] as u64) << 48)
            | ((s[0] as u64) << 56)
    }
}

/// Encoding a value and decoding the bytes with the same byte order yields
/// the value again, for either byte order and the full `u16` range.
pub proof fn lemma_round_trip_u16(little: bool, v: u16)
    ensures
        u16_from_bytes(little, u16_to_bytes(little, v)) == v,
{
    assert((((v & 0xff) as u8) as u16 | ((((v >> 8) & 0xff) as u8) as u16) << 8) == v)
        by (bit_vector);
}

/// Encoding a value and decoding the bytes with the same byte order yields
/// the value again, for either byte order and the full `u32` range.
pub proof fn lemma_round_trip_u32(little: bool, v: u32)
    ensures
        u32_from_bytes(little, u32_to_bytes(little, v)) == v,
{
    assert((((v & 0xff) as u8) as u32 | ((((v >> 8) & 0xff) as u8) as u32) << 8
        | ((((v >> 16) & 0xff) as u8) as u32) << 16 | ((((v >> 24) & 0xff) as u8) as u32) << 24)
        == v) by (bit_vector);
}

/// Encoding a value and decoding the bytes with the same byte order yields
/// the value again, for either byte order and the full `u64` range.
pub proof fn lemma_round_trip_u64(little: bool, v: u64)
    ensures
        u64_from_bytes(little, u64_to_bytes(little, v)) == v,
{
    assert((((v & 0xff) as u8) as u64 | ((((v >> 8) & 0xff) as u8) as u64) << 8
        | ((((v >> 16) & 0xff) as u8) as u64) << 16 | ((((v >> 24) & 0xff) as u8) as u64) << 24
        | ((((v >> 32) & 0xff) as u8) as u64) << 32 | ((((v >> 40) & 0xff) as u8) as u64) << 40
        | ((((v >> 48) & 0xff) as u8) as u64) << 48 | ((((v >> 56) & 0xff) as u8) as u64) << 56)
        == v) by (bit_vector);
}

/// The inverse round trip: decoding a two-byte sequence and encoding the
/// value again with the same byte order yields the same bytes, so the
/// conversion is its own inverse on buffers as well as on values.
pub proof fn lemma_bytes_round_trip_u16(little: bool, s: Seq<u8>)
    requires
        s.len() == 2,
    ensures
        u16_to_bytes(little, u16_from_bytes(little, s)) == s,
{
    let b0 = s[0];
    let b1 = s[1];
    let le = (b0 as u16) | ((b1 as u16) << 8);
    assert((le & 0xff) as u8 == b0 && ((le >> 8) & 0xff) as u8 == b1) by (bit_vector)
        requires
            le == (b0 as u16) | ((b1 as u16) << 8),
    ;
    let be = (b1 as u16) | ((b0 as u16) << 8);
    assert((be & 0xff) as u8 == b1 && ((be >> 8) & 0xff) as u8 == b0) by (bit_vector)
        requires
            be == (b1 as u16) | ((b0 as u16) << 8),
    ;
    assert(u16_to_bytes(little, u16_from_bytes(little, s)) =~= s);
}

/// The inverse round trip: decoding a four-byte sequence and encoding the
/// value again with the same byte order yields the same bytes, so the
/// conversion is its own inverse on buffers as well as on values.
pub proof fn lemma_bytes_round_trip_u32(little: bool, s: Seq<u8>)
    requires
        s.len() == 4,
    ensures
        u32_to_bytes(little, u32_from_bytes(little, s)) == s,
{
    let b0 = s[0];
    let b1 = s[1];
    let b2 = s[2];
    let b3 = s[3];
    let le = (b0 as u32) | ((b1 as u32) << 8) | ((b2 as u32) << 16) | ((b3 as u32) << 24);
    assert((le & 0xff) as u8 == b0 && ((le >> 8) & 0xff) as u8 == b1 && ((le >> 16) & 0xff) as u8
        == b2 && ((le >> 24) & 0xff) as u8 == b3) by (bit_vector)
        requires
            le == (b0 as u32) | ((b1 as u32) << 8) | ((b2 as u32) << 16) | ((b3 as u32) << 24),
    ;
    let be = (b3 as u32) | ((b2 as u32) << 8) | ((b1 as u32) << 16) | ((b0 as u32) << 24);
    assert((be & 0xff) as u8 == b3 && ((be >> 8) & 0xff) as u8 == b2 && ((be >> 16) & 0xff) as u8
        == b1 && ((be >> 24) & 0xff) as u8 == b0) by (bit_vector)
        requires
            be == (b3 as u32) | ((b2 as u32) << 8) | ((b1 as u32) << 16) | ((b0 as u32) << 24),
    ;
    assert(u32_to_bytes(little, u32_from_bytes(little, s)) =~= s);
}

/// The inverse round trip: decoding an eight-byte sequence and encoding the
/// value again with the same byte order yields the same bytes, so the
/// conversion is its own inverse on buffers as well as on values.
pub proof fn lemma_bytes_round_trip_u64(little: bool, s: Seq<u8>)
    requires
        s.len() == 8,
    ensures
        u64_to_bytes(little, u64_from_bytes(little, s)) == s,
{
    let b0 = s[0];
    let b1 = s[1];
    let b2 = s[2];
    let b3 = s[3];
    let b4 = s[4];
    let b5 = s[5];
    let b6 = s[6];
    let b7 = s[7];
    let le = (b0 as u64) | ((b1 as u64) << 8) | ((b2 as u64) << 16) | ((b3 as u64) << 24) | (
    (b4 as u64) << 32) | ((b5 as u64) << 40) | ((b6 as u64) << 48) | ((b7 as u64) << 56);
    assert((le & 0xff) as u8 == b0 && ((le >> 8) & 0xff) as u8 == b1 && ((le >> 16) & 0xff) as u8
        == b2 && ((le >> 24) & 0xff) as u8 == b3 && ((le >> 32) & 0xff) as u8 == b4 && ((le >> 40)
        & 0xff) as u8 == b5 && ((le >> 48) & 0xff) as u8 == b6 && ((le >> 56) & 0xff) as u8 == b7)
        by (bit_vector)
        requires
            le == (b0 as u64) | ((b1 as u64) << 8) | ((b2 as u64) << 16) | ((b3 as u64) << 24) | (
            (b4 as u64) << 32) | ((b5 as u64) << 40) | ((b6 as u64) << 48) | ((b7 as u64) << 56),
    ;
    let be = (b7 as u64) | ((b6 as u64) << 8) | ((b5 as u64) << 16) | ((b4 as u64) << 24) | (
    (b3 as u64) << 32) | ((b2 as u64) << 40) | ((b1 as u64) << 48) | ((b0 as u64) << 56);
    assert((be & 0xff) as u8 == b7 && ((be >> 8) & 0xff) as u8 == b6 && ((be >> 16) & 0xff) as u8
        == b5 && ((be >> 24) & 0xff) as u8 == b4 && ((be >> 32) & 0xff) as u8 == b3 && ((be >> 40)
        & 0xff) as u8 == b2 && ((be >> 48) & 0xff) as u8 == b1 && ((be >> 56) & 0xff) as u8 == b0)
        by (bit_vector)
        requires
            be == (b7 as u64) | ((b6 as u64) << 8) | ((b5 as u64) << 16) | ((b4 as u64) << 24) | (
            (b3 as u64) << 32) | ((b2 as u64) << 40) | ((b1 as u64) << 48) | ((b0 as u64) << 56),
    ;
    assert(u64_to_bytes(little, u64_from_bytes(little, s)) =~= s);
}

/// The signed round trip: a signed value reinterpreted as unsigned, encoded,
/// decoded, and reinterpreted back is unchanged, for either byte order and
/// the full `i16` range.
pub proof fn lemma_round_trip_i16(little: bool, v: i16)
    ensures
        u16_from_bytes(little, u16_to_bytes(little, v as u16)) as i16 == v,
{
    lemma_round_trip_u16(little, v as u16);
    assert(((v as u16) as i16) == v) by (bit_vector);
}

/// The signed round trip: a signed value reinterpreted as unsigned, encoded,
/// decoded, and reinterpreted back is unchanged, for either byte order and
/// the full `i32` range.
pub proof fn lemma_round_trip_i32(little: bool, v: i32)
    ensures
        u32_from_bytes(little, u32_to_bytes(little, v as u32)) as i32 == v,
{
    lemma_round_trip_u32(little, v as u32);
    assert(((v as u32) as i32) == v) by (bit_vector);
}

/// The signed round trip: a signed value reinterpreted as unsigned, encoded,
/// decoded, and reinterpreted back is unchanged, for either byte order and
/// the full `i64` range.
pub proof fn lemma_round_trip_i64(little: bool, v: i64)
    ensures
        u64_from_bytes(little, u64_to_bytes(little, v as u64)) as i64 == v,
{
    lemma_round_trip_u64(little, v as u64);
    assert(((v as u64) as i64) == v) by (bit_vector);
}

} // verus!
