//! Bit ranges of a 32-bit word, and the two's-complement reading of 32-bit values.

use bitfield::BitRange;
use vstd::prelude::*;

verus! {

/// The bits `lsb..=msb` of `word`, moved down so that bit `lsb` becomes bit 0.
pub open spec fn bits(word: u32, msb: u32, lsb: u32) -> u32 {
    (word >> lsb) & (0xffff_ffffu32 >> ((31 - (msb - lsb)) as u32))
}

/// The signed number that the unsigned `field` stands for in two's complement,
/// where `modulus` is two to the power of the field's width.
pub open spec fn signed(field: int, modulus: int) -> int {
    if 2 * field >= modulus {
        field - modulus
    } else {
        field
    }
}

/// The residue of `v` modulo 2^32, as an unsigned 32-bit number.
pub open spec fn wrap_u32(v: int) -> u32 {
    (v % 0x1_0000_0000) as u32
}

/// The residue of `v` modulo 2^32, read as a signed 32-bit number.
pub open spec fn wrap_i32(v: int) -> i32 {
    signed(v % 0x1_0000_0000, 0x1_0000_0000) as i32
}

/// The residue of `v` modulo 2^16.
pub open spec fn wrap_u16(v: int) -> u16 {
    (v % 0x1_0000) as u16
}

/// The residue of `v` modulo 2^8.
pub open spec fn wrap_u8(v: int) -> u8 {
    (v % 0x100) as u8
}

/// The low five bits of `v` in two's complement: the amount of a shift.
pub open spec fn low5(v: int) -> u32 {
    (v % 32) as u32
}

/// Calls `bitfield`'s `BitRange::<u32>::bit_range` on a `u32`.
///
/// Trusted: the result is the field of bits `lsb..=msb` of `word`, as an unsigned
/// number. The outside function shifts the word left by `31 - msb` and then right
/// by `31 - msb + lsb`; it overflows a shift or a subtraction unless
/// `lsb <= msb <= 31`.
#[verifier::external_body]
pub(crate) fn bit_range(word: u32, msb: usize, lsb: usize) -> (field: u32)
    requires
        lsb <= msb < 32,
    ensures
        field == bits(word, msb as u32, lsb as u32),
{
    word.bit_range(msb, lsb)
}

/// Reads the 32 bits of `u` as a signed number.
pub fn to_signed(u: u32) -> (r: i32)
    ensures
        r == wrap_i32(u as int),
{
    let r = u as i32;
    assert(r == (if u >= 0x8000_0000u32 {
        (u - 0x1_0000_0000) as i32
    } else {
        u as i32
    })) by (bit_vector)
        requires
            r == u as i32,
    ;
    r
}

/// Reads the 32 bits of `i` as an unsigned number.
pub fn to_unsigned(i: i32) -> (r: u32)
    ensures
        r == wrap_u32(i as int),
{
    let r = i as u32;
    assert(r == (if i < 0i32 {
        (i + 0x1_0000_0000) as u32
    } else {
        i as u32
    })) by (bit_vector)
        requires
            r == i as u32,
    ;
    r
}

/// The low eight bits of `v` in two's complement.
pub fn low_byte(v: i32) -> (r: u8)
    ensures
        r == wrap_u8(v as int),
{
    let u = to_unsigned(v);
    let r = u as u8;
    assert(r == u % 0x100) by (bit_vector)
        requires
            r == u as u8,
    ;
    r
}

/// The low sixteen bits of `v` in two's complement.
pub fn low_half(v: i32) -> (r: u16)
    ensures
        r == wrap_u16(v as int),
{
    let u = to_unsigned(v);
    let r = u as u16;
    assert(r == u % 0x1_0000) by (bit_vector)
        requires
            r == u as u16,
    ;
    r
}

/// The amount by which `v` shifts: its low five bits.
pub fn shift_amount(v: i32) -> (r: u32)
    ensures
        r == low5(v as int),
        r < 32,
{
    let u = to_unsigned(v);
    assert(u & 0x1f == u % 32) by (bit_vector);
    u & 0x1f
}

/// The sum of `x` and `y` modulo 2^32.
pub fn wrapping_sum(x: i32, y: i32) -> (r: i32)
    ensures
        r == wrap_i32(x + y),
{
    x.wrapping_add(y)
}

/// The difference of `x` and `y` modulo 2^32.
pub fn wrapping_difference(x: i32, y: i32) -> (r: i32)
    ensures
        r == wrap_i32(x - y),
{
    x.wrapping_sub(y)
}

/// The address `offset` bytes from `base`, modulo 2^32.
pub fn address(base: i32, offset: i32) -> (r: u32)
    ensures
        r == wrap_u32(base + offset),
{
    to_unsigned(base.wrapping_add(offset))
}

/// The address `offset` bytes from `base`, modulo 2^32, where `offset` holds the
/// 32 bits of the signed number `imm`.
pub(crate) fn displaced(base: u32, offset: u32, Ghost(imm): Ghost<int>) -> (r: u32)
    requires
        offset == wrap_u32(imm),
    ensures
        r == wrap_u32(base + imm),
{
    base.wrapping_add(offset)
}

/// The widths of the fields that the instruction formats share.
pub proof fn lemma_field_widths(w: u32)
    by (bit_vector)
    ensures
        bits(w, 6, 0) < 128,
        bits(w, 11, 7) < 32,
        bits(w, 14, 12) < 8,
        bits(w, 19, 15) < 32,
        bits(w, 24, 20) < 32,
        bits(w, 31, 25) < 128,
        bits(w, 31, 20) < 4096,
        bits(w, 31, 12) < 0x10_0000,
{
}

} // verus!
