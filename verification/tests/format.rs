use rv32i_core::instruction::format::{Common, B, I, J, R, S, U};

#[test]
fn test_common_format() {
    let inst: u32 = 0b0000_0000_0011_0100_1010_1000_1001_0011;
    let inst = Common(inst);
    assert_eq!(inst.opcode(), 0b01_0011);
    assert_eq!(inst.funct3(), 0b010);
    assert_eq!(inst.funct7(), 0b000_0000);
}

#[test]
fn common_reads_the_top_seven_bits_as_funct7() {
    // sub x3, x1, x2
    let inst = Common(0x4020_81b3);
    assert_eq!(inst.opcode(), 0b011_0011);
    assert_eq!(inst.funct3(), 0b000);
    assert_eq!(inst.funct7(), 0b010_0000);
    let all = Common(0xffff_ffff);
    assert_eq!(all.opcode(), 0x7f);
    assert_eq!(all.funct3(), 7);
    assert_eq!(all.funct7(), 0x7f);
}

#[test]
fn r_view_gives_its_fields() {
    // sra x31, x17, x9
    let word = (0b010_0000 << 25) | (9 << 20) | (17 << 15) | (0b101 << 12) | (31 << 7) | 0b011_0011;
    let r = R(word);
    assert_eq!(r.opcode(), 0b011_0011);
    assert_eq!(r.funct3(), 0b101);
    assert_eq!(r.funct7(), 0b010_0000);
    assert_eq!(r.rd(), 31);
    assert_eq!(r.rs1(), 17);
    assert_eq!(r.rs2(), 9);
}

#[test]
fn r_view_of_a_known_word() {
    // add x3, x1, x2
    let r = R(0x0020_81b3);
    assert_eq!(r.rd(), 3);
    assert_eq!(r.rs1(), 1);
    assert_eq!(r.rs2(), 2);
    assert_eq!(r.funct3(), 0);
    assert_eq!(r.funct7(), 0);
}

#[test]
fn i_immediate_of_all_ones_is_minus_one() {
    let i = I(0xfff0_0093);
    assert_eq!(i.imm(), -1);
    assert_eq!(i.csr(), 0xfff);
}

#[test]
fn i_view_gives_its_fields() {
    // addi x1, x0, 5
    let i = I(0x0050_0093);
    assert_eq!(i.opcode(), 0b001_0011);
    assert_eq!(i.funct3(), 0);
    assert_eq!(i.rd(), 1);
    assert_eq!(i.rs1(), 0);
    assert_eq!(i.imm(), 5);
    assert_eq!(i.csr(), 5);
}

#[test]
fn i_immediate_keeps_its_sign_at_both_ends() {
    assert_eq!(I(0x7ff0_0013).imm(), 2047);
    assert_eq!(I(0x8000_0013).imm(), -2048);
    assert_eq!(I(0x8000_0013).csr(), 0x800);
    assert_eq!(I(0x0000_0013).imm(), 0);
    // lw x10, -12(x21)
    let i = I(0xff4a_a503);
    assert_eq!(i.imm(), -12);
    assert_eq!(i.rd(), 10);
    assert_eq!(i.rs1(), 21);
    assert_eq!(i.funct3(), 0b010);
}

#[test]
fn s_view_gives_its_fields() {
    // sw x2, 0(x1)
    let s = S(0x0020_a023);
    assert_eq!(s.opcode(), 0b010_0011);
    assert_eq!(s.funct3(), 0b010);
    assert_eq!(s.rs1(), 1);
    assert_eq!(s.rs2(), 2);
    assert_eq!(s.imm(), 0);
}

#[test]
fn s_immediate_joins_its_two_parts_with_sign() {
    // sb x7, 37(x5): imm = 0b0000001_00101
    let s = S((1 << 25) | (7 << 20) | (5 << 15) | (5 << 7) | 0b010_0011);
    assert_eq!(s.imm(), 37);
    assert_eq!(s.rs1(), 5);
    assert_eq!(s.rs2(), 7);
    // sw x14, -4(x2)
    let s = S(0xfee1_2e23);
    assert_eq!(s.imm(), -4);
    assert_eq!(s.rs1(), 2);
    assert_eq!(s.rs2(), 14);
    assert_eq!(S(0xfe00_0fa3).imm(), -1);
    assert_eq!(S(0x8000_0023).imm(), -2048);
    assert_eq!(S(0x7e00_0fa3).imm(), 2047);
}

#[test]
fn b_view_gives_its_fields() {
    // beq x1, x2, +8
    let b = B(0x0020_8463);
    assert_eq!(b.opcode(), 0b110_0011);
    assert_eq!(b.funct3(), 0);
    assert_eq!(b.rs1(), 1);
    assert_eq!(b.rs2(), 2);
    assert_eq!(b.imm(), 8);
}

#[test]
fn b_immediate_is_sign_extended_from_thirteen_bits() {
    // bne x10, x11, -4
    let b = B(0xfeb5_1ee3);
    assert_eq!(b.imm(), 0xffff_fffc);
    assert_eq!(b.imm() as i32, -4);
    // only the sign bit set: -4096
    assert_eq!(B(0x8000_0063).imm(), 0xffff_f000);
    // sign bit and bits 10..=1 set, bit 11 clear: -4096 + 2046
    assert_eq!(B(0xfe00_0f63).imm() as i32, -2050);
    // bit 7 of the word is bit 11 of the offset
    assert_eq!(B(0x0000_00e3).imm(), 2048);
    // largest offset
    assert_eq!(B(0x7e00_0fe3).imm(), 4094);
}

#[test]
fn u_view_gives_its_fields() {
    // lui x5, 0x12345
    let u = U(0x1234_52b7);
    assert_eq!(u.opcode(), 0b011_0111);
    assert_eq!(u.rd(), 5);
    assert_eq!(u.imm(), 0x1234_5000);
    assert_eq!(U(0xffff_ffff).imm(), 0xffff_f000);
    assert_eq!(U(0x0000_0fff).imm(), 0);
}

#[test]
fn j_view_gives_its_fields() {
    // jal x1, 0
    let j = J(0x0000_00ef);
    assert_eq!(j.opcode(), 0b110_1111);
    assert_eq!(j.rd(), 1);
    assert_eq!(j.imm(), 0);
    // jal x0, +2048: bit 20 of the word is bit 11 of the offset
    assert_eq!(J(0x0010_006f).imm(), 2048);
    // jal x0, +4096: bits 19..=12 stay in place
    assert_eq!(J(0x0000_106f).imm(), 4096);
    // jal x0, +2: bits 30..=21 are bits 10..=1
    assert_eq!(J(0x0020_006f).imm(), 2);
}

#[test]
fn j_immediate_is_sign_extended_from_twenty_one_bits() {
    // jal x0, -4
    let j = J(0xffdf_f06f);
    assert_eq!(j.imm(), 0xffff_fffc);
    assert_eq!(j.rd(), 0);
    // only the sign bit set: -2^20
    assert_eq!(J(0x8000_006f).imm(), 0xfff0_0000);
    // largest offset
    assert_eq!(J(0x7fff_f06f).imm(), 0x000f_fffe);
}
