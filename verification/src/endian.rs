//! Big- and little-endian integers as byte strings
//!
//! Byte `i` of a little-endian number has weight `256^i`; a big-endian number
//! is the same with the bytes reversed.

use vstd::prelude::*;

verus! {

/// The value of two bytes, most significant first
pub open spec fn be16(b0: u8, b1: u8) -> u16 {
    (b0 * 0x100 + b1) as u16
}

/// The value of four bytes, most significant first
pub open spec fn be32(b0: u8, b1: u8, b2: u8, b3: u8) -> u32 {
    (b0 * 0x100_0000 + b1 * 0x1_0000 + b2 * 0x100 + b3) as u32
}

/// The value of four bytes, least significant first
pub open spec fn le32(b0: u8, b1: u8, b2: u8, b3: u8) -> u32 {
    be32(b3, b2, b1, b0)
}

/// The value of eight bytes, given as the values of its upper and lower half
pub open spec fn be64(hi: u32, lo: u32) -> u64 {
    (hi * 0x1_0000_0000 + lo) as u64
}

/// The two bytes of `x`, most significant first
pub open spec fn be16_bytes(x: u16) -> Seq<u8> {
    seq![(x / 0x100) as u8, (x % 0x100) as u8]
}

/// The four bytes of `x`, least significant first
pub open spec fn le32_bytes(x: u32) -> Seq<u8> {
    seq![
        (x % 0x100) as u8,
        (x / 0x100 % 0x100) as u8,
        (x / 0x1_0000 % 0x100) as u8,
        (x / 0x100_0000) as u8,
    ]
}

/// Writing a 16-bit number big-endian and reading it back gives the number.
pub proof fn be16_round_trip(x: u16)
    ensures
        be16_bytes(x).len() == 2,
        be16(be16_bytes(x)[0], be16_bytes(x)[1]) == x,
{
}

/// Reading a 16-bit number big-endian and writing it back gives the same bytes.
pub proof fn be16_bytes_round_trip(b0: u8, b1: u8)
    ensures
        be16_bytes(be16(b0, b1)) == seq![b0, b1],
{
}

/// Writing a 32-bit number little-endian and reading it back gives the number.
pub proof fn le32_round_trip(x: u32)
    ensures
        le32_bytes(x).len() == 4,
        le32(le32_bytes(x)[0], le32_bytes(x)[1], le32_bytes(x)[2], le32_bytes(x)[3]) == x,
{
}

/// The weights of the bytes in a number: each one counts 256 times the next less
/// significant one.
pub proof fn bytes_have_their_weights(b0: u8, b1: u8, b2: u8, b3: u8, hi: u32, lo: u32)
    ensures
        be16(b0, b1) == 256 * b0 + b1,
        be32(b0, b1, b2, b3) == 16777216 * b0 + 65536 * b1 + 256 * b2 + b3,
        le32(b0, b1, b2, b3) == b0 + 256 * b1 + 65536 * b2 + 16777216 * b3,
        be64(hi, lo) == 4294967296 * hi + lo,
{
}

/// The bytes of a number, with their weights, add up to it.
pub proof fn bytes_add_up(x: u16, y: u32)
    ensures
        be16_bytes(x).len() == 2,
        256 * be16_bytes(x)[0] + be16_bytes(x)[1] == x,
        le32_bytes(y).len() == 4,
        le32_bytes(y)[0] + 256 * le32_bytes(y)[1] + 65536 * le32_bytes(y)[2] + 16777216
            * le32_bytes(y)[3] == y,
{
}

pub fn u16_from_be(b0: u8, b1: u8) -> (x: u16)
    ensures
        x == be16(b0, b1),
{
    b0 as u16 * 0x100 + b1 as u16
}

pub fn u32_from_be(b0: u8, b1: u8, b2: u8, b3: u8) -> (x: u32)
    ensures
        x == be32(b0, b1, b2, b3),
{
    b0 as u32 * 0x100_0000 + b1 as u32 * 0x1_0000 + b2 as u32 * 0x100 + b3 as u32
}

pub fn u32_from_le(b0: u8, b1: u8, b2: u8, b3: u8) -> (x: u32)
    ensures
        x == le32(b0, b1, b2, b3),
{
    u32_from_be(b3, b2, b1, b0)
}

pub fn u64_from_halves(hi: u32, lo: u32) -> (x: u64)
    ensures
        x == be64(hi, lo),
{
    hi as u64 * 0x1_0000_0000 + lo as u64
}

pub fn u16_to_be(x: u16) -> (b: [u8; 2])
    ensures
        b@ == be16_bytes(x),
{
    [(x / 0x100) as u8, (x % 0x100) as u8]
}

pub fn u32_to_le(x: u32) -> (b: [u8; 4])
    ensures
        b@ == le32_bytes(x),
{
    [
        (x % 0x100) as u8,
        (x / 0x100 % 0x100) as u8,
        (x / 0x1_0000 % 0x100) as u8,
        (x / 0x100_0000) as u8,
    ]
}

/// The conversions, in numbers.
pub proof fn conversions_in_numbers(
    b0: u8,
    b1: u8,
    b2: u8,
    b3: u8,
    hi: u32,
    lo: u32,
    x: u16,
    y: u32,
    be16_read: u16,
    be32_read: u32,
    le32_read: u32,
    be64_read: u64,
    be16_written: [u8; 2],
    le32_written: [u8; 4],
)
    requires
        call_ensures(u16_from_be, (b0, b1), be16_read),
        call_ensures(u32_from_be, (b0, b1, b2, b3), be32_read),
        call_ensures(u32_from_le, (b0, b1, b2, b3), le32_read),
        call_ensures(u64_from_halves, (hi, lo), be64_read),
        call_ensures(u16_to_be, (x,), be16_written),
        call_ensures(u32_to_le, (y,), le32_written),
    ensures
        be16_read == 256 * b0 + b1,
        be32_read == 16777216 * b0 + 65536 * b1 + 256 * b2 + b3,
        le32_read == b0 + 256 * b1 + 65536 * b2 + 16777216 * b3,
        be64_read == 4294967296 * hi + lo,
        256 * be16_written@[0] + be16_written@[1] == x,
        le32_written@[0] + 256 * le32_written@[1] + 65536 * le32_written@[2] + 16777216
            * le32_written@[3] == y,
{
    bytes_have_their_weights(b0, b1, b2, b3, hi, lo);
    bytes_add_up(x, y);
}

} // verus!
