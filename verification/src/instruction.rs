//! Decoded instructions: one variant for each operation of the core, around the
//! view of the word that it was decoded from.

pub mod encode;
pub mod format;

use crate::instruction::format::{
    funct3_of, funct7_of, imm12_of, opcode_of, B, I, J, R, S, U,
};
use vstd::prelude::*;

verus! {

/// Opcode of `LUI`.
pub const OPCODE_LUI: u32 = 0b011_0111;

/// Opcode of `AUIPC`.
pub const OPCODE_AUIPC: u32 = 0b001_0111;

/// Opcode of `JAL`.
pub const OPCODE_JAL: u32 = 0b110_1111;

/// Opcode of `JALR`.
pub const OPCODE_JALR: u32 = 0b110_0111;

/// Opcode of the conditional branches.
pub const OPCODE_BRANCH: u32 = 0b110_0011;

/// Opcode of the loads.
pub const OPCODE_LOAD: u32 = 0b000_0011;

/// Opcode of the stores.
pub const OPCODE_STORE: u32 = 0b010_0011;

/// Opcode of the operations on a register and an immediate.
pub const OPCODE_OP_IMM: u32 = 0b001_0011;

/// Opcode of the operations on two registers.
pub const OPCODE_OP: u32 = 0b011_0011;

/// Opcode of the fences.
pub const OPCODE_MISC_MEM: u32 = 0b000_1111;

/// Opcode of the environment calls and of the accesses to control/status registers.
pub const OPCODE_SYSTEM: u32 = 0b111_0011;

/// A decoded instruction.
#[derive(Debug, Clone, Copy, PartialEq, Eq)]
pub enum Instruction {
    LUI(U),
    AUIPC(U),
    JAL(J),
    JALR(I),
    BEQ(B),
    BNE(B),
    BLT(B),
    BGE(B),
    BLTU(B),
    BGEU(B),
    LB(I),
    LH(I),
    LW(I),
    LBU(I),
    LHU(I),
    SB(S),
    SH(S),
    SW(S),
    ADDI(I),
    SLTI(I),
    XORI(I),
    ORI(I),
    ANDI(I),
    SLLI(I),
    SRLI(I),
    ADD(R),
    SUB(R),
    SLL(R),
    SLT(R),
    SLTU(R),
    XOR(R),
    SRL(R),
    SRA(R),
    OR(R),
    AND(R),
    FENCE(I),
    FENCEI(I),
    ECALL(I),
    EBREAK(I),
    CSRRW(I),
    CSRRS(I),
    CSRRC(I),
    CSRRWI(I),
    CSRRSI(I),
    CSRRCI(I),
}

/// The indirect jump: `JALR` has a `funct3` of zero, and no other selects
/// anything.
pub open spec fn jalr_variant(funct3: u32, i: I) -> Option<Instruction> {
    if funct3 == 0b000 {
        Some(Instruction::JALR(i))
    } else {
        None
    }
}

/// The conditional branch that `funct3` selects.
pub open spec fn branch_variant(funct3: u32, b: B) -> Option<Instruction> {
    if funct3 == 0b000 {
        Some(Instruction::BEQ(b))
    } else if funct3 == 0b001 {
        Some(Instruction::BNE(b))
    } else if funct3 == 0b100 {
        Some(Instruction::BLT(b))
    } else if funct3 == 0b101 {
        Some(Instruction::BGE(b))
    } else if funct3 == 0b110 {
        Some(Instruction::BLTU(b))
    } else if funct3 == 0b111 {
        Some(Instruction::BGEU(b))
    } else {
        None
    }
}

/// The load that `funct3` selects.
pub open spec fn load_variant(funct3: u32, i: I) -> Option<Instruction> {
    if funct3 == 0b000 {
        Some(Instruction::LB(i))
    } else if funct3 == 0b001 {
        Some(Instruction::LH(i))
    } else if funct3 == 0b010 {
        Some(Instruction::LW(i))
    } else if funct3 == 0b100 {
        Some(Instruction::LBU(i))
    } else if funct3 == 0b101 {
        Some(Instruction::LHU(i))
    } else {
        None
    }
}

/// The store that `funct3` selects.
pub open spec fn store_variant(funct3: u32, s: S) -> Option<Instruction> {
    if funct3 == 0b000 {
        Some(Instruction::SB(s))
    } else if funct3 == 0b001 {
        Some(Instruction::SH(s))
    } else if funct3 == 0b010 {
        Some(Instruction::SW(s))
    } else {
        None
    }
}

/// The operation on a register and an immediate that `funct3` selects; the two
/// shifts also ask for a `funct7` of zero.
pub open spec fn op_imm_variant(funct3: u32, funct7: u32, i: I) -> Option<Instruction> {
    if funct3 == 0b000 {
        Some(Instruction::ADDI(i))
    } else if funct3 == 0b010 {
        Some(Instruction::SLTI(i))
    } else if funct3 == 0b100 {
        Some(Instruction::XORI(i))
    } else if funct3 == 0b110 {
        Some(Instruction::ORI(i))
    } else if funct3 == 0b111 {
        Some(Instruction::ANDI(i))
    } else if funct3 == 0b001 && funct7 == 0b000_0000 {
        Some(Instruction::SLLI(i))
    } else if funct3 == 0b101 && funct7 == 0b000_0000 {
        Some(Instruction::SRLI(i))
    } else {
        None
    }
}

/// The operation on two registers that `funct3` and `funct7` select.
pub open spec fn op_variant(funct3: u32, funct7: u32, r: R) -> Option<Instruction> {
    if funct7 == 0b000_0000 {
        if funct3 == 0b000 {
            Some(Instruction::ADD(r))
        } else if funct3 == 0b001 {
            Some(Instruction::SLL(r))
        } else if funct3 == 0b010 {
            Some(Instruction::SLT(r))
        } else if funct3 == 0b011 {
            Some(Instruction::SLTU(r))
        } else if funct3 == 0b100 {
            Some(Instruction::XOR(r))
        } else if funct3 == 0b101 {
            Some(Instruction::SRL(r))
        } else if funct3 == 0b110 {
            Some(Instruction::OR(r))
        } else if funct3 == 0b111 {
            Some(Instruction::AND(r))
        } else {
            None
        }
    } else if funct7 == 0b010_0000 {
        if funct3 == 0b000 {
            Some(Instruction::SUB(r))
        } else if funct3 == 0b101 {
            Some(Instruction::SRA(r))
        } else {
            None
        }
    } else {
        None
    }
}

/// The fence that `funct3` selects.
pub open spec fn misc_mem_variant(funct3: u32, i: I) -> Option<Instruction> {
    if funct3 == 0b000 {
        Some(Instruction::FENCE(i))
    } else if funct3 == 0b001 {
        Some(Instruction::FENCEI(i))
    } else {
        None
    }
}

/// The system instruction that `funct3` selects. With a `funct3` of zero, the
/// whole 12-bit field tells the environment call (zero) from the breakpoint
/// (one), and no other value of it selects anything.
pub open spec fn system_variant(funct3: u32, imm12: u32, i: I) -> Option<Instruction> {
    if funct3 == 0b000 {
        if imm12 == 0 {
            Some(Instruction::ECALL(i))
        } else if imm12 == 1 {
            Some(Instruction::EBREAK(i))
        } else {
            None
        }
    } else if funct3 == 0b001 {
        Some(Instruction::CSRRW(i))
    } else if funct3 == 0b010 {
        Some(Instruction::CSRRS(i))
    } else if funct3 == 0b011 {
        Some(Instruction::CSRRC(i))
    } else if funct3 == 0b101 {
        Some(Instruction::CSRRWI(i))
    } else if funct3 == 0b110 {
        Some(Instruction::CSRRSI(i))
    } else if funct3 == 0b111 {
        Some(Instruction::CSRRCI(i))
    } else {
        None
    }
}

/// The instruction that a word encodes: chosen by the opcode, then by funct3 and
/// funct7 where the opcode has more than one instruction, and by the 12-bit field
/// between the environment call and the breakpoint. `None` where these fields
/// select nothing.
pub open spec fn decode_spec(w: u32) -> Option<Instruction> {
    let opcode = opcode_of(w);
    let funct3 = funct3_of(w);
    let funct7 = funct7_of(w);
    if opcode == OPCODE_LUI {
        Some(Instruction::LUI(U(w)))
    } else if opcode == OPCODE_AUIPC {
        Some(Instruction::AUIPC(U(w)))
    } else if opcode == OPCODE_JAL {
        Some(Instruction::JAL(J(w)))
    } else if opcode == OPCODE_JALR {
        jalr_variant(funct3, I(w))
    } else if opcode == OPCODE_BRANCH {
        branch_variant(funct3, B(w))
    } else if opcode == OPCODE_LOAD {
        load_variant(funct3, I(w))
    } else if opcode == OPCODE_STORE {
        store_variant(funct3, S(w))
    } else if opcode == OPCODE_OP_IMM {
        op_imm_variant(funct3, funct7, I(w))
    } else if opcode == OPCODE_OP {
        op_variant(funct3, funct7, R(w))
    } else if opcode == OPCODE_MISC_MEM {
        misc_mem_variant(funct3, I(w))
    } else if opcode == OPCODE_SYSTEM {
        system_variant(funct3, imm12_of(w), I(w))
    } else {
        None
    }
}

impl Instruction {
    /// The word that the instruction is a view of.
    pub open spec fn word(self) -> u32 {
        match self {
            Instruction::LUI(u) | Instruction::AUIPC(u) => u.0,
            Instruction::JAL(j) => j.0,
            Instruction::BEQ(b)
            | Instruction::BNE(b)
            | Instruction::BLT(b)
            | Instruction::BGE(b)
            | Instruction::BLTU(b)
            | Instruction::BGEU(b) => b.0,
            Instruction::SB(s) | Instruction::SH(s) | Instruction::SW(s) => s.0,
            Instruction::ADD(r)
            | Instruction::SUB(r)
            | Instruction::SLL(r)
            | Instruction::SLT(r)
            | Instruction::SLTU(r)
            | Instruction::XOR(r)
            | Instruction::SRL(r)
            | Instruction::SRA(r)
            | Instruction::OR(r)
            | Instruction::AND(r) => r.0,
            Instruction::JALR(i)
            | Instruction::LB(i)
            | Instruction::LH(i)
            | Instruction::LW(i)
            | Instruction::LBU(i)
            | Instruction::LHU(i)
            | Instruction::ADDI(i)
            | Instruction::SLTI(i)
            | Instruction::XORI(i)
            | Instruction::ORI(i)
            | Instruction::ANDI(i)
            | Instruction::SLLI(i)
            | Instruction::SRLI(i)
            | Instruction::FENCE(i)
            | Instruction::FENCEI(i)
            | Instruction::ECALL(i)
            | Instruction::EBREAK(i)
            | Instruction::CSRRW(i)
            | Instruction::CSRRS(i)
            | Instruction::CSRRC(i)
            | Instruction::CSRRWI(i)
            | Instruction::CSRRSI(i)
            | Instruction::CSRRCI(i) => i.0,
        }
    }
}

/// A decoded instruction is a view of the very word that it was decoded from.
pub proof fn lemma_decode_keeps_word(w: u32)
    ensures
        decode_spec(w) matches Some(inst) ==> inst.word() == w,
{
}

} // verus!
