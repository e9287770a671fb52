//! Read-only views of a 32-bit instruction word, one for each encoding format.

use crate::bits::{bit_range, bits, lemma_field_widths, signed, to_signed, wrap_u32};
use vstd::prelude::*;

verus! {

/// Bits 6..=0 of an instruction word: the opcode, in every format.
pub open spec fn opcode_of(w: u32) -> u32 {
    bits(w, 6, 0)
}

/// Bits 11..=7: the destination register in the R, I, U and J formats.
pub open spec fn rd_of(w: u32) -> u32 {
    bits(w, 11, 7)
}

/// Bits 14..=12: funct3 in the R, I, S and B formats.
pub open spec fn funct3_of(w: u32) -> u32 {
    bits(w, 14, 12)
}

/// Bits 19..=15: the first source register in the R, I, S and B formats.
pub open spec fn rs1_of(w: u32) -> u32 {
    bits(w, 19, 15)
}

/// Bits 24..=20: the second source register in the R, S and B formats.
pub open spec fn rs2_of(w: u32) -> u32 {
    bits(w, 24, 20)
}

/// Bits 31..=25: funct7 in the R format, and in the view taken before the format
/// is known.
pub open spec fn funct7_of(w: u32) -> u32 {
    bits(w, 31, 25)
}

/// Bits 31..=20: the unsigned 12-bit field of the I format, which is also the
/// index of a control/status register.
pub open spec fn imm12_of(w: u32) -> u32 {
    bits(w, 31, 20)
}

/// The I-format immediate: bits 31..=20, a signed 12-bit number.
pub open spec fn imm_i_of(w: u32) -> int {
    signed(bits(w, 31, 20) as int, 0x1000)
}

/// The S-format immediate: bits 31..=25 above bits 11..=7, a signed 12-bit number.
pub open spec fn imm_s_of(w: u32) -> int {
    signed(bits(w, 31, 25) * 0x20 + bits(w, 11, 7), 0x1000)
}

/// The B-format immediate: bit 31, bit 7, bits 30..=25, bits 11..=8 and a zero bit,
/// from the top down, a signed 13-bit number.
pub open spec fn imm_b_of(w: u32) -> int {
    signed(
        bits(w, 31, 31) * 0x1000 + bits(w, 7, 7) * 0x800 + bits(w, 30, 25) * 0x20 + bits(w, 11, 8)
            * 2,
        0x2000,
    )
}

/// The U-format immediate: bits 31..=12 in place, above twelve zero bits.
pub open spec fn imm_u_of(w: u32) -> int {
    bits(w, 31, 12) * 0x1000
}

/// The J-format immediate: bit 31, bits 19..=12, bit 20, bits 30..=21 and a zero
/// bit, from the top down, a signed 21-bit number.
pub open spec fn imm_j_of(w: u32) -> int {
    signed(
        bits(w, 31, 31) * 0x10_0000 + bits(w, 19, 12) * 0x1000 + bits(w, 20, 20) * 0x800 + bits(
            w,
            30,
            21,
        ) * 2,
        0x20_0000,
    )
}

/// The fields that can be read before the format of a word is known.
#[derive(Debug, Clone, Copy, PartialEq, Eq)]
pub struct Common(pub u32);

impl Common {
    pub fn opcode(&self) -> (r: u32)
        ensures
            r == opcode_of(self.0),
            r < 128,
    {
        proof {
            lemma_field_widths(self.0);
        }
        bit_range(self.0, 6, 0)
    }

    pub fn funct3(&self) -> (r: u32)
        ensures
            r == funct3_of(self.0),
            r < 8,
    {
        proof {
            lemma_field_widths(self.0);
        }
        bit_range(self.0, 14, 12)
    }

    pub fn funct7(&self) -> (r: u32)
        ensures
            r == funct7_of(self.0),
            r < 128,
    {
        proof {
            lemma_field_widths(self.0);
        }
        bit_range(self.0, 31, 25)
    }
}

/// How the sign fill and the assembled field of an I-format word add up.
proof fn lemma_imm_i(w: u32, field: u32, fill: u32)
    by (bit_vector)
    requires
        field == bits(w, 31, 20),
        fill == (if w & 0x8000_0000 == 0x8000_0000 {
            0xffff_f000u32
        } else {
            0u32
        }),
    ensures
        field < 0x1000,
        field >= 0x800 <==> fill == 0xffff_f000u32,
        fill | field == fill + field,
{
}

/// How the sign fill and the assembled field of an S-format word add up.
proof fn lemma_imm_s(w: u32, hi: u32, lo: u32, fill: u32)
    by (bit_vector)
    requires
        hi == bits(w, 31, 25),
        lo == bits(w, 11, 7),
        fill == (if w & 0x8000_0000 == 0x8000_0000 {
            0xffff_f000u32
        } else {
            0u32
        }),
    ensures
        hi << 5 | lo == hi * 0x20 + lo,
        hi * 0x20 + lo < 0x1000,
        hi * 0x20 + lo >= 0x800 <==> fill == 0xffff_f000u32,
        fill | (hi << 5 | lo) == fill + (hi << 5 | lo),
{
}

/// How the sign fill and the assembled field of a B-format word add up.
proof fn lemma_imm_b(w: u32, b12: u32, b11: u32, b10_5: u32, b4_1: u32, fill: u32)
    by (bit_vector)
    requires
        b12 == bits(w, 31, 31),
        b11 == bits(w, 7, 7),
        b10_5 == bits(w, 30, 25),
        b4_1 == bits(w, 11, 8),
        fill == (if w & 0x8000_0000 == 0x8000_0000 {
            0xffff_e000u32
        } else {
            0u32
        }),
    ensures
        (b12 << 12 | b11 << 11 | b10_5 << 5 | b4_1 << 1) == b12 * 0x1000 + b11 * 0x800 + b10_5
            * 0x20 + b4_1 * 2,
        b12 * 0x1000 + b11 * 0x800 + b10_5 * 0x20 + b4_1 * 2 < 0x2000,
        b12 * 0x1000 + b11 * 0x800 + b10_5 * 0x20 + b4_1 * 2 >= 0x1000 <==> fill == 0xffff_e000u32,
        fill | (b12 << 12 | b11 << 11 | b10_5 << 5 | b4_1 << 1) == fill + (b12 << 12 | b11 << 11
            | b10_5 << 5 | b4_1 << 1),
{
}

/// How the sign fill and the assembled field of a J-format word add up.
proof fn lemma_imm_j(w: u32, b20: u32, b19_12: u32, b11: u32, b10_1: u32, fill: u32)
    by (bit_vector)
    requires
        b20 == bits(w, 31, 31),
        b19_12 == bits(w, 19, 12),
        b11 == bits(w, 20, 20),
        b10_1 == bits(w, 30, 21),
        fill == (if w & 0x8000_0000 == 0x8000_0000 {
            0xffe0_0000u32
        } else {
            0u32
        }),
    ensures
        (b20 << 20 | b19_12 << 12 | b11 << 11 | b10_1 << 1) == b20 * 0x10_0000 + b19_12 * 0x1000
            + b11 * 0x800 + b10_1 * 2,
        b20 * 0x10_0000 + b19_12 * 0x1000 + b11 * 0x800 + b10_1 * 2 < 0x20_0000,
        b20 * 0x10_0000 + b19_12 * 0x1000 + b11 * 0x800 + b10_1 * 2 >= 0x10_0000 <==> fill
            == 0xffe0_0000u32,
        fill | (b20 << 20 | b19_12 << 12 | b11 << 11 | b10_1 << 1) == fill + (b20 << 20 | b19_12
            << 12 | b11 << 11 | b10_1 << 1),
{
}

/// The upper twenty bits of a word, in place.
proof fn lemma_imm_u(w: u32)
    by (bit_vector)
    ensures
        w & 0xffff_f000 == bits(w, 31, 12) * 0x1000,
{
}

/// The fill that extends the sign of a word whose immediate has its top bit in
/// bit 31: `ones` where that bit is set, zero elsewhere.
fn sign_fill(w: u32, ones: u32) -> (fill: u32)
    ensures
        fill == (if w & 0x8000_0000 == 0x8000_0000 {
            ones
        } else {
            0u32
        }),
{
    if w & 0x8000_0000 == 0x8000_0000 {
        ones
    } else {
        0
    }
}

/// The register-register format.
#[derive(Debug, Clone, Copy, PartialEq, Eq)]
pub struct R(pub u32);

impl R {
    pub fn opcode(&self) -> (r: u32)
        ensures
            r == opcode_of(self.0),
            r < 128,
    {
        proof {
            lemma_field_widths(self.0);
        }
        bit_range(self.0, 6, 0)
    }

    pub fn funct3(&self) -> (r: u32)
        ensures
            r == funct3_of(self.0),
            r < 8,
    {
        proof {
            lemma_field_widths(self.0);
        }
        bit_range(self.0, 14, 12)
    }

    pub fn funct7(&self) -> (r: u32)
        ensures
            r == funct7_of(self.0),
            r < 128,
    {
        proof {
            lemma_field_widths(self.0);
        }
        bit_range(self.0, 31, 25)
    }

    pub fn rd(self) -> (r: usize)
        ensures
            r == rd_of(self.0),
            r < 32,
    {
        proof {
            lemma_field_widths(self.0);
        }
        bit_range(self.0, 11, 7) as usize
    }

    pub fn rs1(self) -> (r: usize)
        ensures
            r == rs1_of(self.0),
            r < 32,
    {
        proof {
            lemma_field_widths(self.0);
        }
        bit_range(self.0, 19, 15) as usize
    }

    pub fn rs2(self) -> (r: usize)
        ensures
            r == rs2_of(self.0),
            r < 32,
    {
        proof {
            lemma_field_widths(self.0);
        }
        bit_range(self.0, 24, 20) as usize
    }
}

/// The branch format.
#[derive(Debug, Clone, Copy, PartialEq, Eq)]
pub struct B(pub u32);

impl B {
    pub fn opcode(&self) -> (r: u32)
        ensures
            r == opcode_of(self.0),
            r < 128,
    {
        proof {
            lemma_field_widths(self.0);
        }
        bit_range(self.0, 6, 0)
    }

    pub fn funct3(&self) -> (r: u32)
        ensures
            r == funct3_of(self.0),
            r < 8,
    {
        proof {
            lemma_field_widths(self.0);
        }
        bit_range(self.0, 14, 12)
    }

    pub fn rs1(self) -> (r: usize)
        ensures
            r == rs1_of(self.0),
            r < 32,
    {
        proof {
            lemma_field_widths(self.0);
        }
        bit_range(self.0, 19, 15) as usize
    }

    pub fn rs2(self) -> (r: usize)
        ensures
            r == rs2_of(self.0),
            r < 32,
    {
        proof {
            lemma_field_widths(self.0);
        }
        bit_range(self.0, 24, 20) as usize
    }

    /// The branch offset, as the 32 bits of its sign-extended value.
    pub fn imm(self) -> (r: u32)
        ensures
            r == wrap_u32(imm_b_of(self.0)),
    {
        let fill = sign_fill(self.0, 0xffff_e000);
        let b12 = bit_range(self.0, 31, 31);
        let b11 = bit_range(self.0, 7, 7);
        let b10_5 = bit_range(self.0, 30, 25);
        let b4_1 = bit_range(self.0, 11, 8);
        proof {
            lemma_imm_b(self.0, b12, b11, b10_5, b4_1, fill);
        }
        fill | (b12 << 12 | b11 << 11 | b10_5 << 5 | b4_1 << 1)
    }
}

/// The store format.
#[derive(Debug, Clone, Copy, PartialEq, Eq)]
pub struct S(pub u32);

impl S {
    pub fn opcode(&self) -> (r: u32)
        ensures
            r == opcode_of(self.0),
            r < 128,
    {
        proof {
            lemma_field_widths(self.0);
        }
        bit_range(self.0, 6, 0)
    }

    pub fn funct3(&self) -> (r: u32)
        ensures
            r == funct3_of(self.0),
            r < 8,
    {
        proof {
            lemma_field_widths(self.0);
        }
        bit_range(self.0, 14, 12)
    }

    pub fn rs1(self) -> (r: usize)
        ensures
            r == rs1_of(self.0),
            r < 32,
    {
        proof {
            lemma_field_widths(self.0);
        }
        bit_range(self.0, 19, 15) as usize
    }

    pub fn rs2(self) -> (r: usize)
        ensures
            r == rs2_of(self.0),
            r < 32,
    {
        proof {
            lemma_field_widths(self.0);
        }
        bit_range(self.0, 24, 20) as usize
    }

    /// The store offset, sign-extended.
    pub fn imm(self) -> (r: i32)
        ensures
            r == imm_s_of(self.0),
    {
        let fill = sign_fill(self.0, 0xffff_f000);
        let hi = bit_range(self.0, 31, 25);
        let lo = bit_range(self.0, 11, 7);
        proof {
            lemma_imm_s(self.0, hi, lo, fill);
        }
        to_signed(fill | (hi << 5 | lo))
    }
}

/// The upper-immediate format.
#[derive(Debug, Clone, Copy, PartialEq, Eq)]
pub struct U(pub u32);

impl U {
    pub fn opcode(&self) -> (r: u32)
        ensures
            r == opcode_of(self.0),
            r < 128,
    {
        proof {
            lemma_field_widths(self.0);
        }
        bit_range(self.0, 6, 0)
    }

    pub fn rd(self) -> (r: usize)
        ensures
            r == rd_of(self.0),
            r < 32,
    {
        proof {
            lemma_field_widths(self.0);
        }
        bit_range(self.0, 11, 7) as usize
    }

    /// The upper twenty bits of the word in place, the lower twelve zero.
    pub fn imm(self) -> (r: u32)
        ensures
            r == imm_u_of(self.0),
    {
        proof {
            lemma_imm_u(self.0);
        }
        self.0 & 0xffff_f000
    }
}

/// The jump format.
#[derive(Debug, Clone, Copy, PartialEq, Eq)]
pub struct J(pub u32);

impl J {
    pub fn opcode(&self) -> (r: u32)
        ensures
            r == opcode_of(self.0),
            r < 128,
    {
        proof {
            lemma_field_widths(self.0);
        }
        bit_range(self.0, 6, 0)
    }

    pub fn rd(self) -> (r: usize)
        ensures
            r == rd_of(self.0),
            r < 32,
    {
        proof {
            lemma_field_widths(self.0);
        }
        bit_range(self.0, 11, 7) as usize
    }

    /// The jump offset, as the 32 bits of its sign-extended value.
    pub fn imm(self) -> (r: u32)
        ensures
            r == wrap_u32(imm_j_of(self.0)),
    {
        let fill = sign_fill(self.0, 0xffe0_0000);
        let b20 = bit_range(self.0, 31, 31);
        let b19_12 = bit_range(self.0, 19, 12);
        let b11 = bit_range(self.0, 20, 20);
        let b10_1 = bit_range(self.0, 30, 21);
        proof {
            lemma_imm_j(self.0, b20, b19_12, b11, b10_1, fill);
        }
        fill | (b20 << 20 | b19_12 << 12 | b11 << 11 | b10_1 << 1)
    }
}

/// The register-immediate format.
#[derive(Debug, Clone, Copy, PartialEq, Eq)]
pub struct I(pub u32);

impl I {
    pub fn opcode(&self) -> (r: u32)
        ensures
            r == opcode_of(self.0),
            r < 128,
    {
        proof {
            lemma_field_widths(self.0);
        }
        bit_range(self.0, 6, 0)
    }

    pub fn funct3(&self) -> (r: u32)
        ensures
            r == funct3_of(self.0),
            r < 8,
    {
        proof {
            lemma_field_widths(self.0);
        }
        bit_range(self.0, 14, 12)
    }

    pub fn rd(self) -> (r: usize)
        ensures
            r == rd_of(self.0),
            r < 32,
    {
        proof {
            lemma_field_widths(self.0);
        }
        bit_range(self.0, 11, 7) as usize
    }

    pub fn rs1(self) -> (r: usize)
        ensures
            r == rs1_of(self.0),
            r < 32,
    {
        proof {
            lemma_field_widths(self.0);
        }
        bit_range(self.0, 19, 15) as usize
    }

    /// The 12-bit immediate, sign-extended.
    pub fn imm(self) -> (r: i32)
        ensures
            r == imm_i_of(self.0),
    {
        let fill = sign_fill(self.0, 0xffff_f000);
        let field = bit_range(self.0, 31, 20);
        proof {
            lemma_imm_i(self.0, field, fill);
        }
        to_signed(fill | field)
    }

    /// The 12-bit field read as the index of a control/status register.
    pub fn csr(self) -> (r: usize)
        ensures
            r == imm12_of(self.0),
            r < 4096,
    {
        proof {
            lemma_field_widths(self.0);
        }
        bit_range(self.0, 31, 20) as usize
    }
}

} // verus!
