//! The words that the six formats lay their fields out in, and the proof that
//! decoding reads every field back.

use crate::bits::bits;
use crate::instruction::format::{
    funct3_of, funct7_of, imm12_of, imm_b_of, imm_i_of, imm_j_of, imm_s_of, imm_u_of, opcode_of,
    rd_of, rs1_of, rs2_of, B, I, J, R, S, U,
};
use crate::instruction::{
    branch_variant, decode_spec, jalr_variant, load_variant, misc_mem_variant, op_imm_variant,
    op_variant, store_variant, system_variant, Instruction, OPCODE_AUIPC, OPCODE_BRANCH,
    OPCODE_JAL, OPCODE_JALR, OPCODE_LOAD, OPCODE_LUI, OPCODE_MISC_MEM, OPCODE_OP, OPCODE_OP_IMM,
    OPCODE_STORE, OPCODE_SYSTEM,
};
use vstd::prelude::*;

verus! {

/// The R-format word with the given fields.
pub open spec fn encode_r(opcode: u32, funct3: u32, funct7: u32, rd: u32, rs1: u32, rs2: u32) -> u32 {
    (funct7 * 0x200_0000 + rs2 * 0x10_0000 + rs1 * 0x8000 + funct3 * 0x1000 + rd * 0x80
        + opcode) as u32
}

/// The I-format word with the given fields; `imm` is a signed 12-bit number.
pub open spec fn encode_i(opcode: u32, funct3: u32, rd: u32, rs1: u32, imm: int) -> u32 {
    ((imm % 0x1000) * 0x10_0000 + rs1 * 0x8000 + funct3 * 0x1000 + rd * 0x80 + opcode) as u32
}

/// The S-format word with the given fields; `imm` is a signed 12-bit number.
pub open spec fn encode_s(opcode: u32, funct3: u32, rs1: u32, rs2: u32, imm: int) -> u32 {
    let field = imm % 0x1000;
    ((field / 0x20) * 0x200_0000 + rs2 * 0x10_0000 + rs1 * 0x8000 + funct3 * 0x1000 + (field
        % 0x20) * 0x80 + opcode) as u32
}

/// The B-format word with the given fields; `imm` is an even signed 13-bit number.
pub open spec fn encode_b(opcode: u32, funct3: u32, rs1: u32, rs2: u32, imm: int) -> u32 {
    let field = imm % 0x2000;
    ((field / 0x1000) * 0x8000_0000 + (field / 0x20 % 0x40) * 0x200_0000 + rs2 * 0x10_0000 + rs1
        * 0x8000 + funct3 * 0x1000 + (field / 2 % 0x10) * 0x100 + (field / 0x800 % 2) * 0x80
        + opcode) as u32
}

/// The U-format word with the given fields; `imm` is a multiple of 4096 below 2^32.
pub open spec fn encode_u(opcode: u32, rd: u32, imm: u32) -> u32 {
    (imm + rd * 0x80 + opcode) as u32
}

/// The J-format word with the given fields; `imm` is an even signed 21-bit number.
pub open spec fn encode_j(opcode: u32, rd: u32, imm: int) -> u32 {
    let field = imm % 0x20_0000;
    ((field / 0x10_0000) * 0x8000_0000 + (field / 2 % 0x400) * 0x20_0000 + (field / 0x800 % 2)
        * 0x10_0000 + (field / 0x1000 % 0x100) * 0x1000 + rd * 0x80 + opcode) as u32
}

proof fn lemma_fields_r(opcode: u32, funct3: u32, funct7: u32, rd: u32, rs1: u32, rs2: u32, w: u32)
    by (bit_vector)
    requires
        opcode < 128,
        funct3 < 8,
        funct7 < 128,
        rd < 32,
        rs1 < 32,
        rs2 < 32,
        w == funct7 * 0x200_0000 + rs2 * 0x10_0000 + rs1 * 0x8000 + funct3 * 0x1000 + rd * 0x80
            + opcode,
    ensures
        bits(w, 6, 0) == opcode,
        bits(w, 11, 7) == rd,
        bits(w, 14, 12) == funct3,
        bits(w, 19, 15) == rs1,
        bits(w, 24, 20) == rs2,
        bits(w, 31, 25) == funct7,
{
}

proof fn lemma_fields_i(opcode: u32, funct3: u32, rd: u32, rs1: u32, field: u32, w: u32)
    by (bit_vector)
    requires
        opcode < 128,
        funct3 < 8,
        rd < 32,
        rs1 < 32,
        field < 0x1000,
        w == field * 0x10_0000 + rs1 * 0x8000 + funct3 * 0x1000 + rd * 0x80 + opcode,
    ensures
        bits(w, 6, 0) == opcode,
        bits(w, 11, 7) == rd,
        bits(w, 14, 12) == funct3,
        bits(w, 19, 15) == rs1,
        bits(w, 31, 20) == field,
        bits(w, 31, 25) == field / 0x20,
{
}

proof fn lemma_fields_s(opcode: u32, funct3: u32, rs1: u32, rs2: u32, field: u32, w: u32)
    by (bit_vector)
    requires
        opcode < 128,
        funct3 < 8,
        rs1 < 32,
        rs2 < 32,
        field < 0x1000,
        w == (field / 0x20) * 0x200_0000 + rs2 * 0x10_0000 + rs1 * 0x8000 + funct3 * 0x1000 + (
        field % 0x20) * 0x80 + opcode,
    ensures
        bits(w, 6, 0) == opcode,
        bits(w, 14, 12) == funct3,
        bits(w, 19, 15) == rs1,
        bits(w, 24, 20) == rs2,
        bits(w, 31, 25) * 0x20 + bits(w, 11, 7) == field,
{
}

proof fn lemma_fields_b(opcode: u32, funct3: u32, rs1: u32, rs2: u32, field: u32, w: u32)
    by (bit_vector)
    requires
        opcode < 128,
        funct3 < 8,
        rs1 < 32,
        rs2 < 32,
        field < 0x2000,
        field % 2 == 0,
        w == (field / 0x1000) * 0x8000_0000 + (field / 0x20 % 0x40) * 0x200_0000 + rs2
            * 0x10_0000 + rs1 * 0x8000 + funct3 * 0x1000 + (field / 2 % 0x10) * 0x100 + (field
            / 0x800 % 2) * 0x80 + opcode,
    ensures
        bits(w, 6, 0) == opcode,
        bits(w, 14, 12) == funct3,
        bits(w, 19, 15) == rs1,
        bits(w, 24, 20) == rs2,
        bits(w, 31, 31) * 0x1000 + bits(w, 7, 7) * 0x800 + bits(w, 30, 25) * 0x20 + bits(w, 11, 8)
            * 2 == field,
{
}

proof fn lemma_fields_u(opcode: u32, rd: u32, imm: u32, w: u32)
    by (bit_vector)
    requires
        opcode < 128,
        rd < 32,
        imm % 0x1000 == 0,
        w == imm + rd * 0x80 + opcode,
    ensures
        bits(w, 6, 0) == opcode,
        bits(w, 11, 7) == rd,
        bits(w, 31, 12) * 0x1000 == imm,
{
}

proof fn lemma_fields_j(opcode: u32, rd: u32, field: u32, w: u32)
    by (bit_vector)
    requires
        opcode < 128,
        rd < 32,
        field < 0x20_0000,
        field % 2 == 0,
        w == (field / 0x10_0000) * 0x8000_0000 + (field / 2 % 0x400) * 0x20_0000 + (field / 0x800
            % 2) * 0x10_0000 + (field / 0x1000 % 0x100) * 0x1000 + rd * 0x80 + opcode,
    ensures
        bits(w, 6, 0) == opcode,
        bits(w, 11, 7) == rd,
        bits(w, 31, 31) * 0x10_0000 + bits(w, 19, 12) * 0x1000 + bits(w, 20, 20) * 0x800 + bits(
            w,
            30,
            21,
        ) * 2 == field,
{
}

/// A word built in the R format gives each of its fields back, and on the opcode
/// of the register-register operations it decodes to the operation that its
/// funct3 and funct7 select, as a view of that word.
pub proof fn lemma_round_trip_r(opcode: u32, funct3: u32, funct7: u32, rd: u32, rs1: u32, rs2: u32)
    requires
        opcode < 128,
        funct3 < 8,
        funct7 < 128,
        rd < 32,
        rs1 < 32,
        rs2 < 32,
    ensures
        ({
            let w = encode_r(opcode, funct3, funct7, rd, rs1, rs2);
            &&& opcode_of(w) == opcode
            &&& funct3_of(w) == funct3
            &&& funct7_of(w) == funct7
            &&& rd_of(w) == rd
            &&& rs1_of(w) == rs1
            &&& rs2_of(w) == rs2
            &&& opcode == OPCODE_OP ==> decode_spec(w) == op_variant(funct3, funct7, R(w))
        }),
{
    lemma_fields_r(opcode, funct3, funct7, rd, rs1, rs2, encode_r(opcode, funct3, funct7, rd, rs1, rs2));
}

/// A word built in the I format gives each of its fields back, the immediate with
/// its sign, and on each opcode of that format it decodes to the instruction that
/// its funct3 selects (with the top seven bits of the immediate for the shifts,
/// and the whole of it for the environment call and the breakpoint), as a view
/// of that word.
pub proof fn lemma_round_trip_i(opcode: u32, funct3: u32, rd: u32, rs1: u32, imm: int)
    requires
        opcode < 128,
        funct3 < 8,
        rd < 32,
        rs1 < 32,
        -0x800 <= imm < 0x800,
    ensures
        ({
            let w = encode_i(opcode, funct3, rd, rs1, imm);
            let funct7 = ((imm % 0x1000) / 0x20) as u32;
            &&& opcode_of(w) == opcode
            &&& funct3_of(w) == funct3
            &&& rd_of(w) == rd
            &&& rs1_of(w) == rs1
            &&& imm_i_of(w) == imm
            &&& imm12_of(w) == imm % 0x1000
            &&& opcode == OPCODE_JALR ==> decode_spec(w) == jalr_variant(funct3, I(w))
            &&& opcode == OPCODE_LOAD ==> decode_spec(w) == load_variant(funct3, I(w))
            &&& opcode == OPCODE_OP_IMM ==> decode_spec(w) == op_imm_variant(funct3, funct7, I(w))
            &&& opcode == OPCODE_MISC_MEM ==> decode_spec(w) == misc_mem_variant(funct3, I(w))
            &&& opcode == OPCODE_SYSTEM ==> decode_spec(w) == system_variant(
                funct3,
                (imm % 0x1000) as u32,
                I(w),
            )
        }),
{
    let field = (imm % 0x1000) as u32;
    lemma_fields_i(opcode, funct3, rd, rs1, field, encode_i(opcode, funct3, rd, rs1, imm));
}

/// A word built in the S format gives each of its fields back, the immediate with
/// its sign, and on the opcode of the stores it decodes to the store that its
/// funct3 selects, as a view of that word.
pub proof fn lemma_round_trip_s(opcode: u32, funct3: u32, rs1: u32, rs2: u32, imm: int)
    requires
        opcode < 128,
        funct3 < 8,
        rs1 < 32,
        rs2 < 32,
        -0x800 <= imm < 0x800,
    ensures
        ({
            let w = encode_s(opcode, funct3, rs1, rs2, imm);
            &&& opcode_of(w) == opcode
            &&& funct3_of(w) == funct3
            &&& rs1_of(w) == rs1
            &&& rs2_of(w) == rs2
            &&& imm_s_of(w) == imm
            &&& opcode == OPCODE_STORE ==> decode_spec(w) == store_variant(funct3, S(w))
        }),
{
    let field = (imm % 0x1000) as u32;
    lemma_fields_s(opcode, funct3, rs1, rs2, field, encode_s(opcode, funct3, rs1, rs2, imm));
}

/// A word built in the B format gives each of its fields back, the offset with
/// its sign, and on the opcode of the branches it decodes to the branch that its
/// funct3 selects, as a view of that word.
pub proof fn lemma_round_trip_b(opcode: u32, funct3: u32, rs1: u32, rs2: u32, imm: int)
    requires
        opcode < 128,
        funct3 < 8,
        rs1 < 32,
        rs2 < 32,
        -0x1000 <= imm < 0x1000,
        imm % 2 == 0,
    ensures
        ({
            let w = encode_b(opcode, funct3, rs1, rs2, imm);
            &&& opcode_of(w) == opcode
            &&& funct3_of(w) == funct3
            &&& rs1_of(w) == rs1
            &&& rs2_of(w) == rs2
            &&& imm_b_of(w) == imm
            &&& opcode == OPCODE_BRANCH ==> decode_spec(w) == branch_variant(funct3, B(w))
        }),
{
    let field = (imm % 0x2000) as u32;
    lemma_fields_b(opcode, funct3, rs1, rs2, field, encode_b(opcode, funct3, rs1, rs2, imm));
}

/// A word built in the U format gives each of its fields back, and on the opcodes
/// of `LUI` and `AUIPC` it decodes to that instruction, as a view of that word.
pub proof fn lemma_round_trip_u(opcode: u32, rd: u32, imm: u32)
    requires
        opcode < 128,
        rd < 32,
        imm % 0x1000 == 0,
    ensures
        ({
            let w = encode_u(opcode, rd, imm);
            &&& opcode_of(w) == opcode
            &&& rd_of(w) == rd
            &&& imm_u_of(w) == imm
            &&& opcode == OPCODE_LUI ==> decode_spec(w) == Some(Instruction::LUI(U(w)))
            &&& opcode == OPCODE_AUIPC ==> decode_spec(w) == Some(Instruction::AUIPC(U(w)))
        }),
{
    lemma_fields_u(opcode, rd, imm, encode_u(opcode, rd, imm));
}

/// A word built in the J format gives each of its fields back, the offset with
/// its sign, and on the opcode of `JAL` it decodes to that instruction, as a view
/// of that word.
pub proof fn lemma_round_trip_j(opcode: u32, rd: u32, imm: int)
    requires
        opcode < 128,
        rd < 32,
        -0x10_0000 <= imm < 0x10_0000,
        imm % 2 == 0,
    ensures
        ({
            let w = encode_j(opcode, rd, imm);
            &&& opcode_of(w) == opcode
            &&& rd_of(w) == rd
            &&& imm_j_of(w) == imm
            &&& opcode == OPCODE_JAL ==> decode_spec(w) == Some(Instruction::JAL(J(w)))
        }),
{
    let field = (imm % 0x20_0000) as u32;
    lemma_fields_j(opcode, rd, field, encode_j(opcode, rd, imm));
}

} // verus!
