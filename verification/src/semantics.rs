//! What one instruction does to the architectural state, as a function on states.
//!
//! The rules that hold throughout:
//! - A write to register 0 is discarded, whatever instruction makes it.
//! - Sums, differences and addresses are taken modulo 2^32; nothing traps on
//!   overflow.
//! - An access to memory may be unaligned. One that is not wholly inside the
//!   memory fails, as does a fetch.
//! - `SLTI` and `SLT` compare as signed numbers, `SLTU` as unsigned ones.
//! - `SLLI`, `SRLI`, `SLL` and `SRL` shift logically, `SRA` arithmetically, each
//!   by the low five bits of its amount.
//! - `LB` and `LH` extend the sign, `LBU` and `LHU` extend with zeros.
//! - `JALR` writes the link first and then reads its source register, and it
//!   leaves the low bit of the target as it is.
//! - An access to a control/status register reads its source register and the
//!   old value of the control/status register before it writes anything: the old
//!   value goes to the destination, and the new value is made of the source as it
//!   was. `CSRRW` and `CSRRWI` write the source, `CSRRS` and `CSRRSI` or it into
//!   the old value, `CSRRC` and `CSRRCI` and it with the old value. The immediate
//!   forms take the five bits of the source field as the source.
//! - `FENCE`, `FENCE.I`, `ECALL` and `EBREAK` cannot be executed.
//! - A step that fails leaves the state as it was.

use crate::bits::{low5, signed, wrap_i32, wrap_u16, wrap_u32, wrap_u8};
use crate::error::CpuError;
use crate::instruction::format::{
    imm12_of, imm_b_of, imm_i_of, imm_j_of, imm_s_of, imm_u_of, rd_of, rs1_of, rs2_of, B, I, S,
};
use crate::instruction::{decode_spec, Instruction};
use crate::memory::{in_bounds, le_u16, le_u32, store_u16, store_u32, RAM_SIZE};
use vstd::prelude::*;

verus! {

/// The number of general registers.
pub const REGISTER_COUNT: usize = 32;

/// The number of control/status registers: one for each 12-bit index.
pub const CSR_COUNT: usize = 4096;

/// The architectural state: the general registers, the program counter, the
/// control/status registers and the memory.
pub struct CpuState {
    pub regs: Seq<i32>,
    pub pc: u32,
    pub csr: Seq<u32>,
    pub mem: Seq<u8>,
}

impl CpuState {
    /// The state has its registers and its memory in full, and register 0 holds
    /// zero.
    pub open spec fn wf(self) -> bool {
        &&& self.regs.len() == REGISTER_COUNT
        &&& self.csr.len() == CSR_COUNT
        &&& self.mem.len() == RAM_SIZE
        &&& self.regs[0] == 0
    }

    /// The state in which everything is zero.
    pub open spec fn zeroed() -> CpuState {
        CpuState {
            regs: Seq::new(REGISTER_COUNT as nat, |i: int| 0i32),
            pc: 0,
            csr: Seq::new(CSR_COUNT as nat, |i: int| 0u32),
            mem: Seq::new(RAM_SIZE as nat, |i: int| 0u8),
        }
    }

    /// The state after `image` is copied to the start of the memory and the
    /// program counter is set to `pc`.
    pub open spec fn loaded(self, pc: u32, image: Seq<u8>) -> CpuState {
        CpuState {
            pc,
            mem: Seq::new(
                self.mem.len(),
                |i: int|
                    if i < image.len() {
                        image[i]
                    } else {
                        self.mem[i]
                    },
            ),
            ..self
        }
    }

    /// The value of register `index`.
    pub open spec fn reg(self, index: u32) -> i32 {
        self.regs[index as int]
    }

    /// The state after `value` is written to register `rd`: a write to register 0
    /// is discarded.
    pub open spec fn set_reg(self, rd: u32, value: i32) -> CpuState {
        if rd == 0 {
            self
        } else {
            CpuState { regs: self.regs.update(rd as int, value), ..self }
        }
    }

    /// The state with the program counter at `pc`.
    pub open spec fn set_pc(self, pc: u32) -> CpuState {
        CpuState { pc, ..self }
    }

    /// The state after `value` is written to the control/status register `index`.
    pub open spec fn set_csr(self, index: u32, value: u32) -> CpuState {
        CpuState { csr: self.csr.update(index as int, value), ..self }
    }

    /// The state with the memory `mem`.
    pub open spec fn set_mem(self, mem: Seq<u8>) -> CpuState {
        CpuState { mem, ..self }
    }

    /// The address of the instruction in execution: the program counter has
    /// already moved on to the next one.
    pub open spec fn here(self) -> u32 {
        wrap_u32(self.pc - 4)
    }
}

/// One for true, zero for false.
pub open spec fn flag(b: bool) -> i32 {
    if b {
        1
    } else {
        0
    }
}

/// A branch: where `taken`, the program counter moves to the branch's own address
/// plus its offset; else it stays on the next instruction.
pub open spec fn branch(s: CpuState, b: B, taken: bool) -> CpuState {
    if taken {
        s.set_pc(wrap_u32(s.here() + imm_b_of(b.0)))
    } else {
        s
    }
}

/// The address that a load reads: the first source register plus the immediate,
/// modulo 2^32.
pub open spec fn load_address(s: CpuState, i: I) -> u32 {
    wrap_u32(s.reg(rs1_of(i.0)) + imm_i_of(i.0))
}

/// The address that a store writes.
pub open spec fn store_address(s: CpuState, st: S) -> u32 {
    wrap_u32(s.reg(rs1_of(st.0)) + imm_s_of(st.0))
}

/// A load of `width` bytes: `value` goes to the destination register where the
/// bytes at the address are inside the memory.
pub open spec fn load(s: CpuState, i: I, width: u32, value: i32) -> Result<CpuState, CpuError> {
    if in_bounds(load_address(s, i), width) {
        Ok(s.set_reg(rd_of(i.0), value))
    } else {
        Err(CpuError::OutOfBoundsAccess { address: load_address(s, i), width })
    }
}

/// A store of `width` bytes: the memory becomes `mem` where the bytes at the
/// address are inside the memory.
pub open spec fn store(s: CpuState, st: S, width: u32, mem: Seq<u8>) -> Result<
    CpuState,
    CpuError,
> {
    if in_bounds(store_address(s, st), width) {
        Ok(s.set_mem(mem))
    } else {
        Err(CpuError::OutOfBoundsAccess { address: store_address(s, st), width })
    }
}

/// The first half of an access to a control/status register: the register's
/// value goes to the destination register.
pub open spec fn csr_read(s: CpuState, i: I) -> CpuState {
    s.set_reg(rd_of(i.0), wrap_i32(s.csr[imm12_of(i.0) as int] as int))
}

/// An access to a control/status register: its old value goes to the
/// destination register, and `value` is written to it.
pub open spec fn csr_access(s: CpuState, i: I, value: u32) -> CpuState {
    csr_read(s, i).set_csr(imm12_of(i.0), value)
}

/// The state after `inst` is executed in `s`, whose program counter is already
/// on the next instruction; or why `inst` cannot be executed.
pub open spec fn exec_spec(s: CpuState, inst: Instruction) -> Result<CpuState, CpuError> {
    match inst {
        Instruction::LUI(u) => Ok(s.set_reg(rd_of(u.0), wrap_i32(imm_u_of(u.0)))),
        Instruction::AUIPC(u) => Ok(s.set_reg(rd_of(u.0), wrap_i32(s.here() + imm_u_of(u.0)))),
        Instruction::JAL(j) => Ok(
            s.set_reg(rd_of(j.0), wrap_i32(s.pc as int)).set_pc(
                wrap_u32(s.here() + imm_j_of(j.0)),
            ),
        ),
        Instruction::JALR(i) => {
            let linked = s.set_reg(rd_of(i.0), wrap_i32(s.pc as int));
            Ok(linked.set_pc(wrap_u32(linked.reg(rs1_of(i.0)) + imm_i_of(i.0))))
        },
        Instruction::BEQ(b) => Ok(branch(s, b, s.reg(rs1_of(b.0)) == s.reg(rs2_of(b.0)))),
        Instruction::BNE(b) => Ok(branch(s, b, s.reg(rs1_of(b.0)) != s.reg(rs2_of(b.0)))),
        Instruction::BLT(b) => Ok(branch(s, b, s.reg(rs1_of(b.0)) < s.reg(rs2_of(b.0)))),
        Instruction::BGE(b) => Ok(branch(s, b, s.reg(rs1_of(b.0)) >= s.reg(rs2_of(b.0)))),
        Instruction::BLTU(b) => Ok(
            branch(
                s,
                b,
                wrap_u32(s.reg(rs1_of(b.0)) as int) < wrap_u32(s.reg(rs2_of(b.0)) as int),
            ),
        ),
        Instruction::BGEU(b) => Ok(
            branch(
                s,
                b,
                wrap_u32(s.reg(rs1_of(b.0)) as int) >= wrap_u32(s.reg(rs2_of(b.0)) as int),
            ),
        ),
        Instruction::LB(i) => load(
            s,
            i,
            1,
            signed(s.mem[load_address(s, i) as int] as int, 0x100) as i32,
        ),
        Instruction::LH(i) => load(
            s,
            i,
            2,
            signed(le_u16(s.mem, load_address(s, i) as int) as int, 0x1_0000) as i32,
        ),
        Instruction::LW(i) => load(
            s,
            i,
            4,
            wrap_i32(le_u32(s.mem, load_address(s, i) as int) as int),
        ),
        Instruction::LBU(i) => load(s, i, 1, s.mem[load_address(s, i) as int] as i32),
        Instruction::LHU(i) => load(s, i, 2, le_u16(s.mem, load_address(s, i) as int) as i32),
        Instruction::SB(st) => store(
            s,
            st,
            1,
            s.mem.update(store_address(s, st) as int, wrap_u8(s.reg(rs2_of(st.0)) as int)),
        ),
        Instruction::SH(st) => store(
            s,
            st,
            2,
            store_u16(s.mem, store_address(s, st) as int, wrap_u16(s.reg(rs2_of(st.0)) as int)),
        ),
        Instruction::SW(st) => store(
            s,
            st,
            4,
            store_u32(s.mem, store_address(s, st) as int, wrap_u32(s.reg(rs2_of(st.0)) as int)),
        ),
        Instruction::ADDI(i) => Ok(
            s.set_reg(rd_of(i.0), wrap_i32(s.reg(rs1_of(i.0)) + imm_i_of(i.0))),
        ),
        Instruction::SLTI(i) => Ok(
            s.set_reg(rd_of(i.0), flag(s.reg(rs1_of(i.0)) < imm_i_of(i.0))),
        ),
        Instruction::XORI(i) => Ok(
            s.set_reg(rd_of(i.0), s.reg(rs1_of(i.0)) ^ (imm_i_of(i.0) as i32)),
        ),
        Instruction::ORI(i) => Ok(
            s.set_reg(rd_of(i.0), s.reg(rs1_of(i.0)) | (imm_i_of(i.0) as i32)),
        ),
        Instruction::ANDI(i) => Ok(
            s.set_reg(rd_of(i.0), s.reg(rs1_of(i.0)) & (imm_i_of(i.0) as i32)),
        ),
        Instruction::SLLI(i) => Ok(
            s.set_reg(rd_of(i.0), s.reg(rs1_of(i.0)) << low5(imm_i_of(i.0))),
        ),
        Instruction::SRLI(i) => Ok(
            s.set_reg(
                rd_of(i.0),
                wrap_i32((wrap_u32(s.reg(rs1_of(i.0)) as int) >> low5(imm_i_of(i.0))) as int),
            ),
        ),
        Instruction::ADD(r) => Ok(
            s.set_reg(rd_of(r.0), wrap_i32(s.reg(rs1_of(r.0)) + s.reg(rs2_of(r.0)))),
        ),
        Instruction::SUB(r) => Ok(
            s.set_reg(rd_of(r.0), wrap_i32(s.reg(rs1_of(r.0)) - s.reg(rs2_of(r.0)))),
        ),
        Instruction::SLL(r) => Ok(
            s.set_reg(rd_of(r.0), s.reg(rs1_of(r.0)) << low5(s.reg(rs2_of(r.0)) as int)),
        ),
        Instruction::SLT(r) => Ok(
            s.set_reg(rd_of(r.0), flag(s.reg(rs1_of(r.0)) < s.reg(rs2_of(r.0)))),
        ),
        Instruction::SLTU(r) => Ok(
            s.set_reg(
                rd_of(r.0),
                flag(wrap_u32(s.reg(rs1_of(r.0)) as int) < wrap_u32(s.reg(rs2_of(r.0)) as int)),
            ),
        ),
        Instruction::XOR(r) => Ok(
            s.set_reg(rd_of(r.0), s.reg(rs1_of(r.0)) ^ s.reg(rs2_of(r.0))),
        ),
        Instruction::SRL(r) => Ok(
            s.set_reg(
                rd_of(r.0),
                wrap_i32(
                    (wrap_u32(s.reg(rs1_of(r.0)) as int) >> low5(
                        s.reg(rs2_of(r.0)) as int,
                    )) as int,
                ),
            ),
        ),
        Instruction::SRA(r) => Ok(
            s.set_reg(rd_of(r.0), s.reg(rs1_of(r.0)) >> low5(s.reg(rs2_of(r.0)) as int)),
        ),
        Instruction::OR(r) => Ok(s.set_reg(rd_of(r.0), s.reg(rs1_of(r.0)) | s.reg(rs2_of(r.0)))),
        Instruction::AND(r) => Ok(
            s.set_reg(rd_of(r.0), s.reg(rs1_of(r.0)) & s.reg(rs2_of(r.0))),
        ),
        Instruction::FENCE(_)
        | Instruction::FENCEI(_)
        | Instruction::ECALL(_)
        | Instruction::EBREAK(_) => Err(CpuError::UnsupportedInstruction { variant: inst }),
        Instruction::CSRRW(i) => Ok(csr_access(s, i, wrap_u32(s.reg(rs1_of(i.0)) as int))),
        Instruction::CSRRS(i) => Ok(
            csr_access(s, i, s.csr[imm12_of(i.0) as int] | wrap_u32(s.reg(rs1_of(i.0)) as int)),
        ),
        Instruction::CSRRC(i) => Ok(
            csr_access(s, i, s.csr[imm12_of(i.0) as int] & wrap_u32(s.reg(rs1_of(i.0)) as int)),
        ),
        Instruction::CSRRWI(i) => Ok(csr_access(s, i, rs1_of(i.0))),
        Instruction::CSRRSI(i) => Ok(
            csr_access(s, i, s.csr[imm12_of(i.0) as int] | rs1_of(i.0)),
        ),
        Instruction::CSRRCI(i) => Ok(
            csr_access(s, i, s.csr[imm12_of(i.0) as int] & rs1_of(i.0)),
        ),
    }
}

/// The word that a fetch reads and the state after it, with the program counter
/// four bytes on; or the failure, where the four bytes at the program counter are
/// not all inside the memory.
pub open spec fn fetch_spec(s: CpuState) -> Result<(CpuState, u32), CpuError> {
    if in_bounds(s.pc, 4) {
        Ok((s.set_pc((s.pc + 4) as u32), le_u32(s.mem, s.pc as int)))
    } else {
        Err(CpuError::OutOfBoundsAccess { address: s.pc, width: 4 })
    }
}

/// One step: fetch the word at the program counter, decode it, execute the
/// instruction. The result is the state after the step with the instruction that
/// was executed, or the failure that stopped the step.
pub open spec fn step_spec(s: CpuState) -> Result<(CpuState, Instruction), CpuError> {
    match fetch_spec(s) {
        Err(e) => Err(e),
        Ok((fetched, word)) => match decode_spec(word) {
            None => Err(CpuError::InvalidEncoding { word, address: s.pc }),
            Some(inst) => match exec_spec(fetched, inst) {
                Err(e) => Err(e),
                Ok(next) => Ok((next, inst)),
            },
        },
    }
}

} // verus!
