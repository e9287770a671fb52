//! The little-endian layout of halfwords and words in the memory buffer.

use byteorder::{ByteOrder, LittleEndian};
use vstd::prelude::*;

verus! {

/// The number of bytes of memory.
pub const RAM_SIZE: usize = 4096;

/// Whether the `width` bytes that start at `addr` all lie inside the memory.
pub open spec fn in_bounds(addr: u32, width: u32) -> bool {
    addr + width <= RAM_SIZE
}

/// The halfword whose low byte is at `addr` and whose high byte follows it.
pub open spec fn le_u16(mem: Seq<u8>, addr: int) -> u16 {
    (mem[addr] + 0x100 * mem[addr + 1]) as u16
}

/// The word whose lowest byte is at `addr`, with the higher bytes after it in
/// rising order.
pub open spec fn le_u32(mem: Seq<u8>, addr: int) -> u32 {
    (mem[addr] + 0x100 * mem[addr + 1] + 0x1_0000 * mem[addr + 2] + 0x100_0000 * mem[addr
        + 3]) as u32
}

/// The memory after `value` is stored at `addr`, low byte first.
pub open spec fn store_u16(mem: Seq<u8>, addr: int, value: u16) -> Seq<u8> {
    mem.update(addr, (value % 0x100) as u8).update(addr + 1, (value / 0x100) as u8)
}

/// The memory after `value` is stored at `addr`, lowest byte first.
pub open spec fn store_u32(mem: Seq<u8>, addr: int, value: u32) -> Seq<u8> {
    mem.update(addr, (value % 0x100) as u8).update(
        addr + 1,
        (value / 0x100 % 0x100) as u8,
    ).update(addr + 2, (value / 0x1_0000 % 0x100) as u8).update(
        addr + 3,
        (value / 0x100_0000) as u8,
    )
}

/// Calls `byteorder`'s `LittleEndian::read_u16` on the part of `ram` from `addr` on.
///
/// Trusted: the result is the first byte of that part plus 256 times the second.
/// The outside function panics on a slice of fewer than two bytes.
#[verifier::external_body]
pub(crate) fn read_u16_le(ram: &[u8; RAM_SIZE], addr: usize) -> (value: u16)
    requires
        addr + 2 <= RAM_SIZE,
    ensures
        value == le_u16(ram@, addr as int),
{
    LittleEndian::read_u16(&ram[addr..])
}

/// Calls `byteorder`'s `LittleEndian::read_u32` on the part of `ram` from `addr` on.
///
/// Trusted: the result is made of the first four bytes of that part, the first
/// one lowest. The outside function panics on a slice of fewer than four bytes.
#[verifier::external_body]
pub(crate) fn read_u32_le(ram: &[u8; RAM_SIZE], addr: usize) -> (value: u32)
    requires
        addr + 4 <= RAM_SIZE,
    ensures
        value == le_u32(ram@, addr as int),
{
    LittleEndian::read_u32(&ram[addr..])
}

/// Calls `byteorder`'s `LittleEndian::write_u16` on the part of `ram` from `addr` on.
///
/// Trusted: the low byte of `value` is written at `addr`, the high byte after
/// it, and no other byte changes. The outside function panics on a slice of
/// fewer than two bytes.
#[verifier::external_body]
pub(crate) fn write_u16_le(ram: &mut [u8; RAM_SIZE], addr: usize, value: u16)
    requires
        addr + 2 <= RAM_SIZE,
    ensures
        final(ram)@ == store_u16(old(ram)@, addr as int, value),
{
    LittleEndian::write_u16(&mut ram[addr..], value)
}

/// Calls `byteorder`'s `LittleEndian::write_u32` on the part of `ram` from `addr` on.
///
/// Trusted: the four bytes of `value` are written from `addr` on, the lowest
/// first, and no other byte changes. The outside function panics on a slice of
/// fewer than four bytes.
#[verifier::external_body]
pub(crate) fn write_u32_le(ram: &mut [u8; RAM_SIZE], addr: usize, value: u32)
    requires
        addr + 4 <= RAM_SIZE,
    ensures
        final(ram)@ == store_u32(old(ram)@, addr as int, value),
{
    LittleEndian::write_u32(&mut ram[addr..], value)
}

} // verus!
