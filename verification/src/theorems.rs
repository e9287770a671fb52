//! What follows from the semantics of a step, for every state.

use crate::bits::{lemma_field_widths, wrap_i32, wrap_u32};
use crate::instruction::format::{imm12_of, imm_b_of, imm_j_of, rd_of, rs1_of, rs2_of, B, I, J, R};
use crate::instruction::{decode_spec, Instruction};
use crate::memory::{in_bounds, le_u16, le_u32, store_u16, store_u32};
use crate::semantics::{csr_read, exec_spec, fetch_spec, step_spec, CpuState};
use vstd::prelude::*;

verus! {

/// Arithmetic on registers is arithmetic modulo 2^32: the wrapped value differs
/// from the true one by a multiple of 2^32, and a value that fits is kept. One
/// past the largest value is the smallest.
pub proof fn lemma_wrap_i32_is_modular(v: int)
    ensures
        (wrap_i32(v) - v) % 0x1_0000_0000 == 0,
        -0x8000_0000 <= v < 0x8000_0000 ==> wrap_i32(v) == v,
        wrap_i32(0x7fff_ffffint + 1) == -0x8000_0000,
{
}

/// Addresses are computed modulo 2^32.
pub proof fn lemma_wrap_u32_is_modular(v: int)
    ensures
        (wrap_u32(v) - v) % 0x1_0000_0000 == 0,
        0 <= v < 0x1_0000_0000 ==> wrap_u32(v) == v,
{
}

/// A word that is stored is the word that is read back from the same address,
/// whether the address is aligned or not, and no other byte changes.
pub proof fn lemma_word_round_trip(mem: Seq<u8>, addr: int, value: u32)
    requires
        0 <= addr,
        addr + 4 <= mem.len(),
    ensures
        le_u32(store_u32(mem, addr, value), addr) == value,
        store_u32(mem, addr, value).len() == mem.len(),
        forall|k: int|
            0 <= k < mem.len() && !(addr <= k < addr + 4) ==> store_u32(mem, addr, value)[k]
                == mem[k],
{
}

/// A halfword that is stored is the halfword that is read back from the same
/// address, whether the address is aligned or not; its low byte lies at the
/// address and its high byte after it, and no other byte changes.
pub proof fn lemma_halfword_round_trip(mem: Seq<u8>, addr: int, value: u16)
    requires
        0 <= addr,
        addr + 2 <= mem.len(),
    ensures
        le_u16(store_u16(mem, addr, value), addr) == value,
        store_u16(mem, addr, value)[addr] == value % 0x100,
        store_u16(mem, addr, value)[addr + 1] == value / 0x100,
        store_u16(mem, addr, value).len() == mem.len(),
        forall|k: int|
            0 <= k < mem.len() && !(addr <= k < addr + 2) ==> store_u16(mem, addr, value)[k]
                == mem[k],
{
}

/// A fetch moves the program counter on by exactly four and changes nothing
/// else.
pub proof fn lemma_fetch_advances(s: CpuState)
    ensures
        fetch_spec(s) matches Ok((fetched, _)) ==> fetched.pc == s.pc + 4 && fetched.regs == s.regs
            && fetched.csr == s.csr && fetched.mem == s.mem,
{
}

/// No instruction changes register 0, nor the number of registers or of bytes.
pub proof fn lemma_exec_keeps_wf(s: CpuState, inst: Instruction)
    requires
        s.wf(),
    ensures
        exec_spec(s, inst) matches Ok(next) ==> next.wf(),
{
    lemma_field_widths(inst.word());
}

/// After every step that succeeds, register 0 still holds zero.
pub proof fn lemma_step_keeps_wf(s: CpuState)
    requires
        s.wf(),
    ensures
        step_spec(s) matches Ok((next, _)) ==> next.wf(),
{
    if let Ok((fetched, word)) = fetch_spec(s) {
        if let Some(inst) = decode_spec(word) {
            lemma_exec_keeps_wf(fetched, inst);
        }
    }
}

/// A step on `BEQ` changes the program counter only: to the address of the
/// branch plus its offset where the two registers are equal, and to the next
/// instruction where they are not.
pub proof fn lemma_step_beq(s: CpuState, b: B)
    requires
        in_bounds(s.pc, 4),
        decode_spec(le_u32(s.mem, s.pc as int)) == Some(Instruction::BEQ(b)),
    ensures
        step_spec(s) matches Ok((next, inst)) && inst == Instruction::BEQ(b) && next == s.set_pc(
            if s.reg(rs1_of(b.0)) == s.reg(rs2_of(b.0)) {
                wrap_u32(s.pc + imm_b_of(b.0))
            } else {
                (s.pc + 4) as u32
            },
        ),
{
}

/// A step on `JAL` writes the address of the next instruction to the destination
/// register, unless that is register 0, and moves the program counter to the
/// address of the jump plus its offset.
pub proof fn lemma_step_jal(s: CpuState, j: J)
    requires
        in_bounds(s.pc, 4),
        decode_spec(le_u32(s.mem, s.pc as int)) == Some(Instruction::JAL(j)),
    ensures
        step_spec(s) matches Ok((next, inst)) && inst == Instruction::JAL(j) && next == s.set_reg(
            rd_of(j.0),
            (s.pc + 4) as i32,
        ).set_pc(wrap_u32(s.pc + imm_j_of(j.0))),
{
    let fetched = s.set_pc((s.pc + 4) as u32);
    assert(fetch_spec(s) matches Ok((state, _)) && state == fetched);
    assert(fetched.here() == s.pc);
    assert(wrap_i32(fetched.pc as int) == s.pc + 4);
}

/// A step on `ADD` writes the sum of the two source registers modulo 2^32 to the
/// destination register, and moves the program counter to the next instruction.
pub proof fn lemma_step_add(s: CpuState, r: R)
    requires
        in_bounds(s.pc, 4),
        decode_spec(le_u32(s.mem, s.pc as int)) == Some(Instruction::ADD(r)),
    ensures
        step_spec(s) matches Ok((next, inst)) && inst == Instruction::ADD(r) && next == s.set_pc(
            (s.pc + 4) as u32,
        ).set_reg(rd_of(r.0), wrap_i32(s.reg(rs1_of(r.0)) + s.reg(rs2_of(r.0)))),
{
}

/// Reading a register as unsigned and the result as signed gives the register
/// back.
proof fn lemma_signed_of_unsigned(v: i32)
    ensures
        wrap_i32(wrap_u32(v as int) as int) == v,
        wrap_u32(0) == 0,
{
}

/// Nothing is set by a mask of zero.
proof fn lemma_or_zero(x: u32)
    by (bit_vector)
    ensures
        x | 0u32 == x,
{
}

/// A step on `CSRRW` copies the control/status register to the destination
/// register and writes to it the source register as it was before the step.
pub proof fn lemma_step_csrrw(s: CpuState, i: I)
    requires
        in_bounds(s.pc, 4),
        decode_spec(le_u32(s.mem, s.pc as int)) == Some(Instruction::CSRRW(i)),
    ensures
        step_spec(s) matches Ok((next, inst)) && inst == Instruction::CSRRW(i) && next == csr_read(
            s.set_pc((s.pc + 4) as u32),
            i,
        ).set_csr(imm12_of(i.0), wrap_u32(s.reg(rs1_of(i.0)) as int)),
{
}

/// A step on `CSRRS` copies the control/status register to the destination
/// register and sets in it the bits of the source register as it was before the
/// step.
pub proof fn lemma_step_csrrs(s: CpuState, i: I)
    requires
        in_bounds(s.pc, 4),
        decode_spec(le_u32(s.mem, s.pc as int)) == Some(Instruction::CSRRS(i)),
    ensures
        step_spec(s) matches Ok((next, inst)) && inst == Instruction::CSRRS(i) && next == csr_read(
            s.set_pc((s.pc + 4) as u32),
            i,
        ).set_csr(
            imm12_of(i.0),
            s.csr[imm12_of(i.0) as int] | wrap_u32(s.reg(rs1_of(i.0)) as int),
        ),
{
}

/// `CSRRW` from a register other than register 0, then `CSRRS` on the same
/// control/status register with register 0 as its source: the second step reads
/// back the value that the first one wrote, whatever the destination of the
/// first, and register 0 holds zero after both.
pub proof fn lemma_csr_write_then_read(s: CpuState, write: I, read: I)
    requires
        s.wf(),
        in_bounds(s.pc, 8),
        decode_spec(le_u32(s.mem, s.pc as int)) == Some(Instruction::CSRRW(write)),
        decode_spec(le_u32(s.mem, s.pc + 4)) == Some(Instruction::CSRRS(read)),
        imm12_of(read.0) == imm12_of(write.0),
        rs1_of(write.0) != 0,
        rs1_of(read.0) == 0,
    ensures
        step_spec(s) matches Ok((mid, _)) && step_spec(mid) matches Ok((end, _)) && {
            &&& mid.regs[0] == 0
            &&& end.regs[0] == 0
            &&& end.csr[imm12_of(write.0) as int] == wrap_u32(s.reg(rs1_of(write.0)) as int)
            &&& rd_of(read.0) != 0 ==> end.reg(rd_of(read.0)) == s.reg(rs1_of(write.0))
        },
{
    lemma_field_widths(write.0);
    lemma_field_widths(read.0);
    let index = imm12_of(write.0);
    let written = s.reg(rs1_of(write.0));
    lemma_signed_of_unsigned(written);
    lemma_or_zero(wrap_u32(written as int));
    lemma_step_csrrw(s, write);
    let mid = csr_read(s.set_pc((s.pc + 4) as u32), write).set_csr(
        index,
        wrap_u32(written as int),
    );
    assert(mid.regs[0] == 0);
    assert(mid.csr[index as int] == wrap_u32(written as int));
    lemma_step_csrrs(mid, read);
}

} // verus!
