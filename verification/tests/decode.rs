use rv32i_core::cpu::Cpu;
use rv32i_core::error::CpuError;
use rv32i_core::instruction::format::{B, I, J, R, S, U};
use rv32i_core::instruction::Instruction;

fn decode(word: u32) -> Result<Instruction, CpuError> {
    Cpu::new().decode(word)
}

fn r_word(funct3: u32, funct7: u32) -> u32 {
    (funct7 << 25) | (2 << 20) | (1 << 15) | (funct3 << 12) | (3 << 7) | 0b011_0011
}

fn i_word(opcode: u32, funct3: u32, imm12: u32) -> u32 {
    (imm12 << 20) | (1 << 15) | (funct3 << 12) | (3 << 7) | opcode
}

fn sb_word(opcode: u32, funct3: u32) -> u32 {
    (2 << 20) | (1 << 15) | (funct3 << 12) | (8 << 7) | opcode
}

#[test]
fn the_all_zero_word_is_no_instruction() {
    assert_eq!(
        decode(0x0000_0000),
        Err(CpuError::InvalidEncoding { word: 0, address: 0xffff_fffc })
    );
}

#[test]
fn the_all_ones_word_is_no_instruction() {
    assert!(matches!(
        decode(0xffff_ffff),
        Err(CpuError::InvalidEncoding { word: 0xffff_ffff, .. })
    ));
}

#[test]
fn a_decode_failure_names_the_address_before_the_program_counter() {
    let mut cpu = Cpu::new();
    cpu.init(0x44, &[]);
    assert_eq!(
        cpu.decode(0x0000_0001),
        Err(CpuError::InvalidEncoding { word: 1, address: 0x40 })
    );
}

#[test]
fn upper_immediates_and_jal_decode_by_opcode_alone() {
    assert_eq!(decode(0x1234_52b7), Ok(Instruction::LUI(U(0x1234_52b7))));
    assert_eq!(decode(0x1234_5297), Ok(Instruction::AUIPC(U(0x1234_5297))));
    assert_eq!(decode(0x0000_00ef), Ok(Instruction::JAL(J(0x0000_00ef))));
    assert_eq!(decode(0xffff_ffb7), Ok(Instruction::LUI(U(0xffff_ffb7))));
    assert_eq!(decode(0xffff_ffef), Ok(Instruction::JAL(J(0xffff_ffef))));
}

#[test]
fn jalr_asks_for_a_zero_funct3() {
    let op = 0b110_0111;
    // jalr x0, 0(x1)
    assert_eq!(decode(0x0000_8067), Ok(Instruction::JALR(I(0x0000_8067))));
    assert_eq!(decode(i_word(op, 0b000, 0xffc)), Ok(Instruction::JALR(I(i_word(op, 0b000, 0xffc)))));
    assert_eq!(
        decode(0x0000_1067),
        Err(CpuError::InvalidEncoding { word: 0x0000_1067, address: 0xffff_fffc })
    );
    for funct3 in 1..8 {
        assert_eq!(
            decode(i_word(op, funct3, 8)),
            Err(CpuError::InvalidEncoding { word: i_word(op, funct3, 8), address: 0xffff_fffc })
        );
    }
}

#[test]
fn branches_decode_by_funct3() {
    let op = 0b110_0011;
    assert_eq!(decode(sb_word(op, 0b000)), Ok(Instruction::BEQ(B(sb_word(op, 0b000)))));
    assert_eq!(decode(sb_word(op, 0b001)), Ok(Instruction::BNE(B(sb_word(op, 0b001)))));
    assert_eq!(decode(sb_word(op, 0b100)), Ok(Instruction::BLT(B(sb_word(op, 0b100)))));
    assert_eq!(decode(sb_word(op, 0b101)), Ok(Instruction::BGE(B(sb_word(op, 0b101)))));
    assert_eq!(decode(sb_word(op, 0b110)), Ok(Instruction::BLTU(B(sb_word(op, 0b110)))));
    assert_eq!(decode(sb_word(op, 0b111)), Ok(Instruction::BGEU(B(sb_word(op, 0b111)))));
    assert_eq!(decode(0x0020_8463), Ok(Instruction::BEQ(B(0x0020_8463))));
}

#[test]
fn undefined_branches_are_rejected() {
    let op = 0b110_0011;
    assert!(matches!(decode(sb_word(op, 0b010)), Err(CpuError::InvalidEncoding { .. })));
    assert!(matches!(decode(sb_word(op, 0b011)), Err(CpuError::InvalidEncoding { .. })));
}

#[test]
fn loads_decode_by_funct3() {
    let op = 0b000_0011;
    assert_eq!(decode(i_word(op, 0b000, 4)), Ok(Instruction::LB(I(i_word(op, 0b000, 4)))));
    assert_eq!(decode(i_word(op, 0b001, 4)), Ok(Instruction::LH(I(i_word(op, 0b001, 4)))));
    assert_eq!(decode(i_word(op, 0b010, 4)), Ok(Instruction::LW(I(i_word(op, 0b010, 4)))));
    assert_eq!(decode(i_word(op, 0b100, 4)), Ok(Instruction::LBU(I(i_word(op, 0b100, 4)))));
    assert_eq!(decode(i_word(op, 0b101, 4)), Ok(Instruction::LHU(I(i_word(op, 0b101, 4)))));
    assert_eq!(decode(0x0000_a183), Ok(Instruction::LW(I(0x0000_a183))));
}

#[test]
fn undefined_loads_are_rejected() {
    let op = 0b000_0011;
    assert!(matches!(decode(i_word(op, 0b011, 4)), Err(CpuError::InvalidEncoding { .. })));
    assert!(matches!(decode(i_word(op, 0b110, 4)), Err(CpuError::InvalidEncoding { .. })));
    assert!(matches!(decode(i_word(op, 0b111, 4)), Err(CpuError::InvalidEncoding { .. })));
}

#[test]
fn stores_decode_by_funct3() {
    let op = 0b010_0011;
    assert_eq!(decode(sb_word(op, 0b000)), Ok(Instruction::SB(S(sb_word(op, 0b000)))));
    assert_eq!(decode(sb_word(op, 0b001)), Ok(Instruction::SH(S(sb_word(op, 0b001)))));
    assert_eq!(decode(sb_word(op, 0b010)), Ok(Instruction::SW(S(sb_word(op, 0b010)))));
    assert_eq!(decode(0x0020_a023), Ok(Instruction::SW(S(0x0020_a023))));
}

#[test]
fn undefined_stores_are_rejected() {
    let op = 0b010_0011;
    for funct3 in 3..8 {
        assert_eq!(
            decode(sb_word(op, funct3)),
            Err(CpuError::InvalidEncoding { word: sb_word(op, funct3), address: 0xffff_fffc })
        );
    }
}

#[test]
fn immediate_operations_decode_by_funct3() {
    let op = 0b001_0011;
    let imm = 0xabc;
    assert_eq!(decode(i_word(op, 0b000, imm)), Ok(Instruction::ADDI(I(i_word(op, 0b000, imm)))));
    assert_eq!(decode(i_word(op, 0b010, imm)), Ok(Instruction::SLTI(I(i_word(op, 0b010, imm)))));
    assert_eq!(decode(i_word(op, 0b100, imm)), Ok(Instruction::XORI(I(i_word(op, 0b100, imm)))));
    assert_eq!(decode(i_word(op, 0b110, imm)), Ok(Instruction::ORI(I(i_word(op, 0b110, imm)))));
    assert_eq!(decode(i_word(op, 0b111, imm)), Ok(Instruction::ANDI(I(i_word(op, 0b111, imm)))));
    assert_eq!(decode(0x0050_0093), Ok(Instruction::ADDI(I(0x0050_0093))));
}

#[test]
fn immediate_shifts_ask_for_a_zero_funct7() {
    let op = 0b001_0011;
    assert_eq!(decode(i_word(op, 0b001, 31)), Ok(Instruction::SLLI(I(i_word(op, 0b001, 31)))));
    assert_eq!(decode(i_word(op, 0b101, 31)), Ok(Instruction::SRLI(I(i_word(op, 0b101, 31)))));
    assert!(matches!(decode(i_word(op, 0b001, 32)), Err(CpuError::InvalidEncoding { .. })));
    assert!(matches!(decode(i_word(op, 0b101, 32)), Err(CpuError::InvalidEncoding { .. })));
    // the top seven bits 0100000 with funct3 101 select nothing here
    assert_eq!(
        decode(0x4050_5093),
        Err(CpuError::InvalidEncoding { word: 0x4050_5093, address: 0xffff_fffc })
    );
}

#[test]
fn the_unsigned_compare_with_an_immediate_is_not_decoded() {
    assert!(matches!(
        decode(i_word(0b001_0011, 0b011, 1)),
        Err(CpuError::InvalidEncoding { .. })
    ));
}

#[test]
fn register_operations_decode_by_funct3_and_funct7() {
    assert_eq!(decode(r_word(0b000, 0)), Ok(Instruction::ADD(R(r_word(0b000, 0)))));
    assert_eq!(decode(r_word(0b000, 0b010_0000)), Ok(Instruction::SUB(R(r_word(0b000, 0b010_0000)))));
    assert_eq!(decode(r_word(0b001, 0)), Ok(Instruction::SLL(R(r_word(0b001, 0)))));
    assert_eq!(decode(r_word(0b010, 0)), Ok(Instruction::SLT(R(r_word(0b010, 0)))));
    assert_eq!(decode(r_word(0b011, 0)), Ok(Instruction::SLTU(R(r_word(0b011, 0)))));
    assert_eq!(decode(r_word(0b100, 0)), Ok(Instruction::XOR(R(r_word(0b100, 0)))));
    assert_eq!(decode(r_word(0b101, 0)), Ok(Instruction::SRL(R(r_word(0b101, 0)))));
    assert_eq!(decode(r_word(0b101, 0b010_0000)), Ok(Instruction::SRA(R(r_word(0b101, 0b010_0000)))));
    assert_eq!(decode(r_word(0b110, 0)), Ok(Instruction::OR(R(r_word(0b110, 0)))));
    assert_eq!(decode(r_word(0b111, 0)), Ok(Instruction::AND(R(r_word(0b111, 0)))));
    assert_eq!(decode(0x0020_81b3), Ok(Instruction::ADD(R(0x0020_81b3))));
    assert_eq!(decode(0x4020_81b3), Ok(Instruction::SUB(R(0x4020_81b3))));
}

#[test]
fn undefined_register_operations_are_rejected() {
    // the multiply extension
    assert!(matches!(decode(r_word(0b000, 0b000_0001)), Err(CpuError::InvalidEncoding { .. })));
    for funct3 in [0b001, 0b010, 0b011, 0b100, 0b110, 0b111] {
        assert!(matches!(
            decode(r_word(funct3, 0b010_0000)),
            Err(CpuError::InvalidEncoding { .. })
        ));
    }
    for funct3 in 0..8 {
        assert!(matches!(
            decode(r_word(funct3, 0b111_1111)),
            Err(CpuError::InvalidEncoding { .. })
        ));
    }
}

#[test]
fn fences_decode_by_funct3() {
    let op = 0b000_1111;
    assert_eq!(decode(0x0ff0_000f), Ok(Instruction::FENCE(I(0x0ff0_000f))));
    assert_eq!(decode(0x0000_100f), Ok(Instruction::FENCEI(I(0x0000_100f))));
    assert!(matches!(decode(i_word(op, 0b010, 0)), Err(CpuError::InvalidEncoding { .. })));
}

#[test]
fn environment_call_and_breakpoint_decode_by_the_twelve_bit_field() {
    assert_eq!(decode(0x0000_0073), Ok(Instruction::ECALL(I(0x0000_0073))));
    assert_eq!(decode(0x0010_0073), Ok(Instruction::EBREAK(I(0x0010_0073))));
}

#[test]
fn other_system_words_with_a_zero_funct3_are_rejected() {
    for word in [
        0x0020_0073u32,
        0x0030_0073,
        0x0100_0073,
        0x0200_0073,
        0x0210_0073,
        0x0400_0073,
        0x1020_0073,
        0x1050_0073,
        0x3020_0073,
        0x8000_0073,
        0x8010_0073,
        0xfff0_0073,
    ] {
        assert_eq!(decode(word), Err(CpuError::InvalidEncoding { word, address: 0xffff_fffc }));
    }
}

#[test]
fn control_register_accesses_decode_by_funct3() {
    let op = 0b111_0011;
    let c = 0x300;
    assert_eq!(decode(i_word(op, 0b001, c)), Ok(Instruction::CSRRW(I(i_word(op, 0b001, c)))));
    assert_eq!(decode(i_word(op, 0b010, c)), Ok(Instruction::CSRRS(I(i_word(op, 0b010, c)))));
    assert_eq!(decode(i_word(op, 0b011, c)), Ok(Instruction::CSRRC(I(i_word(op, 0b011, c)))));
    assert_eq!(decode(i_word(op, 0b101, c)), Ok(Instruction::CSRRWI(I(i_word(op, 0b101, c)))));
    assert_eq!(decode(i_word(op, 0b110, c)), Ok(Instruction::CSRRSI(I(i_word(op, 0b110, c)))));
    assert_eq!(decode(i_word(op, 0b111, c)), Ok(Instruction::CSRRCI(I(i_word(op, 0b111, c)))));
    assert!(matches!(decode(i_word(op, 0b100, c)), Err(CpuError::InvalidEncoding { .. })));
    assert_eq!(decode(0x3000_9073), Ok(Instruction::CSRRW(I(0x3000_9073))));
}

#[test]
fn unknown_opcodes_are_rejected() {
    for opcode in [0b000_0000u32, 0b000_0111, 0b010_0111, 0b010_1111, 0b100_0011, 0b101_0011, 0b111_1111, 0b011_1011] {
        let word = 0x0020_8000 | opcode;
        assert_eq!(decode(word), Err(CpuError::InvalidEncoding { word, address: 0xffff_fffc }));
    }
}

#[test]
fn a_decoded_instruction_gives_back_the_fields_of_its_word() {
    // sub x7, x30, x12
    let word = (0b010_0000 << 25) | (12 << 20) | (30 << 15) | (7 << 7) | 0b011_0011;
    match decode(word) {
        Ok(Instruction::SUB(r)) => {
            assert_eq!(r.rd(), 7);
            assert_eq!(r.rs1(), 30);
            assert_eq!(r.rs2(), 12);
        }
        other => panic!("{:?}", other),
    }
    // lh x9, -2(x4)
    let word = (0xffe << 20) | (4 << 15) | (0b001 << 12) | (9 << 7) | 0b000_0011;
    match decode(word) {
        Ok(Instruction::LH(i)) => {
            assert_eq!(i.rd(), 9);
            assert_eq!(i.rs1(), 4);
            assert_eq!(i.imm(), -2);
        }
        other => panic!("{:?}", other),
    }
    // bge x3, x4, -16
    let word = 0xfe41_d8e3;
    match decode(word) {
        Ok(Instruction::BGE(b)) => {
            assert_eq!(b.rs1(), 3);
            assert_eq!(b.rs2(), 4);
            assert_eq!(b.imm() as i32, -16);
        }
        other => panic!("{:?}", other),
    }
}
