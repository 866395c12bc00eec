//! Fixed-width integers in little-endian byte order.
//!
//! The mesh format stores every multi-byte number with its least significant
//! byte first. Signed numbers are in two's complement.

use vstd::prelude::*;

verus! {

/// The 16-bit number whose two bytes stand at `at` in `b`.
pub open spec fn spec_u16_at(b: Seq<u8>, at: int) -> u16 {
    (b[at] + 256 * b[at + 1]) as u16
}

/// The signed 16-bit number whose two bytes stand at `at` in `b`.
pub open spec fn spec_i16_at(b: Seq<u8>, at: int) -> i16 {
    let unsigned = b[at] + 256 * b[at + 1];
    if unsigned < 0x8000 {
        unsigned as i16
    } else {
        (unsigned - 0x1_0000) as i16
    }
}

/// The 32-bit number whose four bytes stand at `at` in `b`.
pub open spec fn spec_u32_at(b: Seq<u8>, at: int) -> u32 {
    (b[at] + 256 * b[at + 1] + 65536 * b[at + 2] + 16777216 * b[at + 3]) as u32
}

/// Byte `k` of a number, counted from the least significant one.
pub open spec fn spec_byte(x: int, k: nat) -> u8 {
    if k == 0 {
        (x % 256) as u8
    } else if k == 1 {
        (x / 256 % 256) as u8
    } else if k == 2 {
        (x / 65536 % 256) as u8
    } else {
        (x / 16777216 % 256) as u8
    }
}

/// The number that has the same two bytes as `x` and no sign.
pub open spec fn spec_unsigned(x: i16) -> int {
    if x >= 0 {
        x as int
    } else {
        x + 0x1_0000
    }
}

/// Reads the 16-bit number at `at`.
pub fn u16_at(b: &[u8], at: usize) -> (r: u16)
    requires
        at + 2 <= b.len(),
    ensures
        r == spec_u16_at(b@, at as int),
{
    (b[at] as u16) + (b[at + 1] as u16) * 256
}

/// Reads the signed 16-bit number at `at`.
pub fn i16_at(b: &[u8], at: usize) -> (r: i16)
    requires
        at + 2 <= b.len(),
    ensures
        r == spec_i16_at(b@, at as int),
{
    let unsigned: i32 = (b[at] as i32) + (b[at + 1] as i32) * 256;
    if unsigned < 0x8000 {
        unsigned as i16
    } else {
        (unsigned - 0x1_0000) as i16
    }
}

/// Reads the 32-bit number at `at`.
pub fn u32_at(b: &[u8], at: usize) -> (r: u32)
    requires
        at + 4 <= b.len(),
    ensures
        r == spec_u32_at(b@, at as int),
{
    (b[at] as u32) + (b[at + 1] as u32) * 256 + (b[at + 2] as u32) * 65536 + (b[at + 3] as u32)
        * 16777216
}

/// Byte `k` of `x`, counted from the least significant one.
pub fn le_byte(x: u32, k: u8) -> (r: u8)
    requires
        k < 4,
    ensures
        r == spec_byte(x as int, k as nat),
{
    if k == 0 {
        (x % 256) as u8
    } else if k == 1 {
        (x / 256 % 256) as u8
    } else if k == 2 {
        (x / 65536 % 256) as u8
    } else {
        (x / 16777216) as u8
    }
}

/// The number that has the same two bytes as `x` and no sign.
pub fn unsigned(x: i16) -> (r: u32)
    ensures
        r == spec_unsigned(x),
{
    if x >= 0 {
        x as u32
    } else {
        (x as i32 + 0x1_0000) as u32
    }
}

/// Reading gives back the 16-bit number that was written.
pub proof fn lemma_u16_roundtrip(b: Seq<u8>, at: int, x: u16)
    requires
        0 <= at,
        at + 2 <= b.len(),
        b[at] == spec_byte(x as int, 0),
        b[at + 1] == spec_byte(x as int, 1),
    ensures
        spec_u16_at(b, at) == x,
{
}

/// Reading gives back the signed 16-bit number that was written.
pub proof fn lemma_i16_roundtrip(b: Seq<u8>, at: int, x: i16)
    requires
        0 <= at,
        at + 2 <= b.len(),
        b[at] == spec_byte(spec_unsigned(x), 0),
        b[at + 1] == spec_byte(spec_unsigned(x), 1),
    ensures
        spec_i16_at(b, at) == x,
{
}

/// Reading gives back the 32-bit number that was written.
pub proof fn lemma_u32_roundtrip(b: Seq<u8>, at: int, x: u32)
    requires
        0 <= at,
        at + 4 <= b.len(),
        b[at] == spec_byte(x as int, 0),
        b[at + 1] == spec_byte(x as int, 1),
        b[at + 2] == spec_byte(x as int, 2),
        b[at + 3] == spec_byte(x as int, 3),
    ensures
        spec_u32_at(b, at) == x,
{
}

/// Writing the 16-bit number that was read gives back the bytes.
pub proof fn lemma_u16_bytes(b: Seq<u8>, at: int)
    requires
        0 <= at,
        at + 2 <= b.len(),
    ensures
        spec_byte(spec_u16_at(b, at) as int, 0) == b[at],
        spec_byte(spec_u16_at(b, at) as int, 1) == b[at + 1],
{
}

/// Writing the signed 16-bit number that was read gives back the bytes.
pub proof fn lemma_i16_bytes(b: Seq<u8>, at: int)
    requires
        0 <= at,
        at + 2 <= b.len(),
    ensures
        spec_byte(spec_unsigned(spec_i16_at(b, at)), 0) == b[at],
        spec_byte(spec_unsigned(spec_i16_at(b, at)), 1) == b[at + 1],
{
}

/// Writing the 32-bit number that was read gives back the bytes.
pub proof fn lemma_u32_bytes(b: Seq<u8>, at: int)
    requires
        0 <= at,
        at + 4 <= b.len(),
    ensures
        spec_byte(spec_u32_at(b, at) as int, 0) == b[at],
        spec_byte(spec_u32_at(b, at) as int, 1) == b[at + 1],
        spec_byte(spec_u32_at(b, at) as int, 2) == b[at + 2],
        spec_byte(spec_u32_at(b, at) as int, 3) == b[at + 3],
{
    let b0 = b[at] as int;
    let b1 = b[at + 1] as int;
    let b2 = b[at + 2] as int;
    let b3 = b[at + 3] as int;
    let x = b0 + 256 * b1 + 65536 * b2 + 16777216 * b3;
    assert(spec_u32_at(b, at) as int == x);
    assert(x == 256 * (b1 + 256 * b2 + 65536 * b3) + b0);
    assert(x / 256 == b1 + 256 * b2 + 65536 * b3 && x % 256 == b0);
    assert(x == 65536 * (b2 + 256 * b3) + (b0 + 256 * b1));
    assert(x / 65536 == b2 + 256 * b3);
    assert(x == 16777216 * b3 + (b0 + 256 * b1 + 65536 * b2));
    assert(x / 16777216 == b3);
}

} // verus!
