//! The execution engine: registers, program counter, control/status registers
//! and memory, and the fetch, decode and execute cycle on them.

use crate::bits::{
    address, displaced, low_byte, low_half, shift_amount, to_signed, to_unsigned, wrap_u32,
    wrapping_difference, wrapping_sum,
};
use crate::error::CpuError;
use crate::instruction::format::{
    imm12_of, imm_b_of, imm_j_of, imm_u_of, Common, B, I, J, R, S, U,
};
use crate::instruction::{
    decode_spec, Instruction, OPCODE_AUIPC, OPCODE_BRANCH, OPCODE_JAL, OPCODE_JALR, OPCODE_LOAD,
    OPCODE_LUI, OPCODE_MISC_MEM, OPCODE_OP, OPCODE_OP_IMM, OPCODE_STORE, OPCODE_SYSTEM,
};
use crate::memory::{
    in_bounds, le_u16, le_u32, read_u16_le, read_u32_le, store_u16, store_u32, write_u16_le,
    write_u32_le, RAM_SIZE,
};
use crate::semantics::{
    branch, csr_read, exec_spec, fetch_spec, step_spec, CpuState, CSR_COUNT, REGISTER_COUNT,
};
use vstd::prelude::*;

verus! {

/// A hart with its memory.
pub struct Cpu {
    x: [i32; REGISTER_COUNT],
    pc: u32,
    csr: [u32; CSR_COUNT],
    ram: [u8; RAM_SIZE],
}

impl View for Cpu {
    type V = CpuState;

    closed spec fn view(&self) -> CpuState {
        CpuState { regs: self.x@, pc: self.pc, csr: self.csr@, mem: self.ram@ }
    }
}

impl Default for Cpu {
    fn default() -> (cpu: Self)
        ensures
            cpu@ == CpuState::zeroed(),
            cpu.wf(),
    {
        let cpu = Cpu { x: [0; REGISTER_COUNT], pc: 0, csr: [0; CSR_COUNT], ram: [0; RAM_SIZE] };
        assert(cpu.x@ =~= CpuState::zeroed().regs);
        assert(cpu.csr@ =~= CpuState::zeroed().csr);
        assert(cpu.ram@ =~= CpuState::zeroed().mem);
        cpu
    }
}

impl Cpu {
    /// Register 0 holds zero.
    pub open spec fn wf(&self) -> bool {
        self@.wf()
    }

    /// A hart whose registers, control/status registers and memory are all zero,
    /// with the program counter at zero.
    pub fn new() -> (cpu: Self)
        ensures
            cpu@ == CpuState::zeroed(),
            cpu.wf(),
    {
        Default::default()
    }

    /// Copies `data` to the start of the memory and sets the program counter to
    /// `pc`.
    pub fn init(&mut self, pc: u32, data: &[u8])
        requires
            data@.len() <= RAM_SIZE,
        ensures
            final(self)@ == old(self)@.loaded(pc, data@),
    {
        let n = data.len();
        let mut i: usize = 0;
        while i < n
            invariant
                n == data@.len(),
                n <= RAM_SIZE,
                i <= n,
                self.x == old(self).x,
                self.csr == old(self).csr,
                forall|k: int| 0 <= k < i ==> self.ram@[k] == data@[k],
                forall|k: int| i <= k < RAM_SIZE ==> self.ram@[k] == old(self).ram@[k],
            decreases n - i,
        {
            self.ram[i] = data[i];
            i = i + 1;
        }
        self.pc = pc;
        assert(self.ram@ =~= old(self)@.loaded(pc, data@).mem);
    }

    /// The program counter.
    pub fn pc(&self) -> (pc: u32)
        ensures
            pc == self@.pc,
    {
        self.pc
    }

    /// The value of the general register `index`.
    pub fn register(&self, index: usize) -> (value: i32)
        requires
            index < REGISTER_COUNT,
        ensures
            value == self@.regs[index as int],
    {
        self.x[index]
    }

    /// The value of the control/status register `index`.
    pub fn csr(&self, index: usize) -> (value: u32)
        requires
            index < CSR_COUNT,
        ensures
            value == self@.csr[index as int],
    {
        self.csr[index]
    }

    /// Executes one instruction: fetches the word at the program counter, decodes
    /// it and executes it. Returns the instruction. On a failure nothing has
    /// changed.
    pub fn tick(&mut self) -> (r: Result<Instruction, CpuError>)
        requires
            old(self).wf(),
        ensures
            final(self).wf(),
            match step_spec(old(self)@) {
                Ok((next, inst)) => r == Ok::<Instruction, CpuError>(inst) && final(self)@ == next,
                Err(e) => r == Err::<Instruction, CpuError>(e) && final(self)@ == old(self)@,
            },
    {
        let address = self.pc;
        let word = match self.fetch() {
            Ok(word) => word,
            Err(e) => {
                return Err(e);
            },
        };
        let inst = match self.decode(word) {
            Ok(inst) => inst,
            Err(e) => {
                self.pc = address;
                return Err(e);
            },
        };
        match self.exec(inst) {
            Ok(()) => Ok(inst),
            Err(e) => {
                self.pc = address;
                Err(e)
            },
        }
    }

    /// Reads the word at the program counter and moves the program counter four
    /// bytes on. On a failure nothing has changed.
    pub fn fetch(&mut self) -> (r: Result<u32, CpuError>)
        ensures
            match fetch_spec(old(self)@) {
                Ok((next, word)) => r == Ok::<u32, CpuError>(word) && final(self)@ == next,
                Err(e) => r == Err::<u32, CpuError>(e) && final(self)@ == old(self)@,
            },
    {
        let word = match self.read_word(self.pc) {
            Ok(word) => word,
            Err(e) => {
                return Err(e);
            },
        };
        self.pc = self.pc.wrapping_add(4);
        Ok(word)
    }

    /// Executes `inst`, which was fetched from the address four bytes before the
    /// program counter. On a failure nothing has changed.
    pub fn exec(&mut self, inst: Instruction) -> (r: Result<(), CpuError>)
        requires
            old(self).wf(),
        ensures
            final(self).wf(),
            match exec_spec(old(self)@, inst) {
                Ok(next) => r is Ok && final(self)@ == next,
                Err(e) => r == Err::<(), CpuError>(e) && final(self)@ == old(self)@,
            },
    {
        match inst {
            Instruction::LUI(i) => self.write_register(i.rd(), to_signed(i.imm())),
            Instruction::AUIPC(i) => {
                let value = to_signed(self.relative(i.imm(), Ghost(imm_u_of(i.0))));
                self.write_register(i.rd(), value)
            },
            Instruction::JAL(i) => {
                self.write_register(i.rd(), to_signed(self.pc));
                self.pc = self.relative(i.imm(), Ghost(imm_j_of(i.0)));
            },
            Instruction::JALR(i) => {
                self.write_register(i.rd(), to_signed(self.pc));
                self.pc = address(self.x[i.rs1()], i.imm());
            },
            Instruction::BEQ(i) => self.branch(i, self.x[i.rs1()] == self.x[i.rs2()]),
            Instruction::BNE(i) => self.branch(i, self.x[i.rs1()] != self.x[i.rs2()]),
            Instruction::BLT(i) => self.branch(i, self.x[i.rs1()] < self.x[i.rs2()]),
            Instruction::BGE(i) => self.branch(i, self.x[i.rs1()] >= self.x[i.rs2()]),
            Instruction::BLTU(i) => self.branch(
                i,
                to_unsigned(self.x[i.rs1()]) < to_unsigned(self.x[i.rs2()]),
            ),
            Instruction::BGEU(i) => self.branch(
                i,
                to_unsigned(self.x[i.rs1()]) >= to_unsigned(self.x[i.rs2()]),
            ),
            Instruction::LB(i) => {
                let byte = self.read_byte(address(self.x[i.rs1()], i.imm()))?;
                let value: i32 = if byte >= 0x80 {
                    byte as i32 - 0x100
                } else {
                    byte as i32
                };
                self.write_register(i.rd(), value)
            },
            Instruction::LH(i) => {
                let half = self.read_halfword(address(self.x[i.rs1()], i.imm()))?;
                let value: i32 = if half >= 0x8000 {
                    half as i32 - 0x1_0000
                } else {
                    half as i32
                };
                self.write_register(i.rd(), value)
            },
            Instruction::LW(i) => {
                let word = self.read_word(address(self.x[i.rs1()], i.imm()))?;
                self.write_register(i.rd(), to_signed(word))
            },
            Instruction::LBU(i) => {
                let byte = self.read_byte(address(self.x[i.rs1()], i.imm()))?;
                self.write_register(i.rd(), byte as i32)
            },
            Instruction::LHU(i) => {
                let half = self.read_halfword(address(self.x[i.rs1()], i.imm()))?;
                self.write_register(i.rd(), half as i32)
            },
            Instruction::SB(i) => {
                let data = low_byte(self.x[i.rs2()]);
                self.write_byte(address(self.x[i.rs1()], i.imm()), data)?
            },
            Instruction::SH(i) => {
                let data = low_half(self.x[i.rs2()]);
                self.write_halfword(address(self.x[i.rs1()], i.imm()), data)?
            },
            Instruction::SW(i) => {
                let data = to_unsigned(self.x[i.rs2()]);
                self.write_word(address(self.x[i.rs1()], i.imm()), data)?
            },
            Instruction::ADDI(i) => {
                self.write_register(i.rd(), wrapping_sum(self.x[i.rs1()], i.imm()))
            },
            Instruction::SLTI(i) => {
                let value: i32 = if self.x[i.rs1()] < i.imm() {
                    1
                } else {
                    0
                };
                self.write_register(i.rd(), value)
            },
            Instruction::XORI(i) => self.write_register(i.rd(), self.x[i.rs1()] ^ i.imm()),
            Instruction::ORI(i) => self.write_register(i.rd(), self.x[i.rs1()] | i.imm()),
            Instruction::ANDI(i) => self.write_register(i.rd(), self.x[i.rs1()] & i.imm()),
            Instruction::SLLI(i) => {
                self.write_register(i.rd(), self.x[i.rs1()] << shift_amount(i.imm()))
            },
            Instruction::SRLI(i) => {
                let value = to_unsigned(self.x[i.rs1()]) >> shift_amount(i.imm());
                self.write_register(i.rd(), to_signed(value))
            },
            Instruction::ADD(i) => {
                self.write_register(i.rd(), wrapping_sum(self.x[i.rs1()], self.x[i.rs2()]))
            },
            Instruction::SUB(i) => {
                self.write_register(i.rd(), wrapping_difference(self.x[i.rs1()], self.x[i.rs2()]))
            },
            Instruction::SLL(i) => {
                self.write_register(i.rd(), self.x[i.rs1()] << shift_amount(self.x[i.rs2()]))
            },
            Instruction::SLT(i) => {
                let value: i32 = if self.x[i.rs1()] < self.x[i.rs2()] {
                    1
                } else {
                    0
                };
                self.write_register(i.rd(), value)
            },
            Instruction::SLTU(i) => {
                let value: i32 = if to_unsigned(self.x[i.rs1()]) < to_unsigned(self.x[i.rs2()]) {
                    1
                } else {
                    0
                };
                self.write_register(i.rd(), value)
            },
            Instruction::XOR(i) => {
                self.write_register(i.rd(), self.x[i.rs1()] ^ self.x[i.rs2()])
            },
            Instruction::SRL(i) => {
                let value = to_unsigned(self.x[i.rs1()]) >> shift_amount(self.x[i.rs2()]);
                self.write_register(i.rd(), to_signed(value))
            },
            Instruction::SRA(i) => {
                self.write_register(i.rd(), self.x[i.rs1()] >> shift_amount(self.x[i.rs2()]))
            },
            Instruction::OR(i) => self.write_register(i.rd(), self.x[i.rs1()] | self.x[i.rs2()]),
            Instruction::AND(i) => {
                self.write_register(i.rd(), self.x[i.rs1()] & self.x[i.rs2()])
            },
            Instruction::FENCE(_)
            | Instruction::FENCEI(_)
            | Instruction::ECALL(_)
            | Instruction::EBREAK(_) => {
                return Err(CpuError::UnsupportedInstruction { variant: inst });
            },
            Instruction::CSRRW(i) => {
                let source = to_unsigned(self.x[i.rs1()]);
                let _ = self.read_csr(i);
                self.csr[i.csr()] = source;
            },
            Instruction::CSRRS(i) => {
                let source = to_unsigned(self.x[i.rs1()]);
                let before = self.read_csr(i);
                self.csr[i.csr()] = before | source;
            },
            Instruction::CSRRC(i) => {
                let source = to_unsigned(self.x[i.rs1()]);
                let before = self.read_csr(i);
                self.csr[i.csr()] = before & source;
            },
            Instruction::CSRRWI(i) => {
                let _ = self.read_csr(i);
                self.csr[i.csr()] = i.rs1() as u32;
            },
            Instruction::CSRRSI(i) => {
                let before = self.read_csr(i);
                self.csr[i.csr()] = before | i.rs1() as u32;
            },
            Instruction::CSRRCI(i) => {
                let before = self.read_csr(i);
                self.csr[i.csr()] = before & i.rs1() as u32;
            },
        };
        Ok(())
    }

    /// The address `offset` bytes from the instruction in execution, where
    /// `offset` holds the 32 bits of the signed number `imm`.
    fn relative(&self, offset: u32, Ghost(imm): Ghost<int>) -> (target: u32)
        requires
            offset == wrap_u32(imm),
        ensures
            target == wrap_u32(self@.here() + imm),
    {
        displaced(self.pc.wrapping_sub(4), offset, Ghost(imm))
    }

    /// Moves the program counter to the target of the branch `b` where `taken`.
    fn branch(&mut self, b: B, taken: bool)
        ensures
            final(self)@ == branch(old(self)@, b, taken),
    {
        if taken {
            self.pc = self.relative(b.imm(), Ghost(imm_b_of(b.0)));
        }
    }

    /// Copies the control/status register that `i` names to the destination
    /// register of `i`, and returns the value copied.
    fn read_csr(&mut self, i: I) -> (before: u32)
        ensures
            before == old(self)@.csr[imm12_of(i.0) as int],
            final(self)@ == csr_read(old(self)@, i),
            old(self).wf() ==> final(self).wf(),
    {
        let before = self.csr[i.csr()];
        self.write_register(i.rd(), to_signed(before));
        before
    }

    /// Writes `value` to register `rd`, unless `rd` is register 0.
    fn write_register(&mut self, rd: usize, value: i32)
        requires
            rd < REGISTER_COUNT,
        ensures
            final(self)@ == old(self)@.set_reg(rd as u32, value),
            old(self).wf() ==> final(self).wf(),
    {
        if rd != 0 {
            self.x[rd] = value;
        }
    }

    /// The byte at `addr`.
    pub fn read_byte(&self, addr: u32) -> (r: Result<u8, CpuError>)
        ensures
            r == (if in_bounds(addr, 1) {
                Ok::<u8, CpuError>(self@.mem[addr as int])
            } else {
                Err::<u8, CpuError>(CpuError::OutOfBoundsAccess { address: addr, width: 1 })
            }),
    {
        if addr as usize <= RAM_SIZE - 1 {
            Ok(self.ram[addr as usize])
        } else {
            Err(CpuError::OutOfBoundsAccess { address: addr, width: 1 })
        }
    }

    /// The halfword at `addr`, low byte first.
    pub fn read_halfword(&self, addr: u32) -> (r: Result<u16, CpuError>)
        ensures
            r == (if in_bounds(addr, 2) {
                Ok::<u16, CpuError>(le_u16(self@.mem, addr as int))
            } else {
                Err::<u16, CpuError>(CpuError::OutOfBoundsAccess { address: addr, width: 2 })
            }),
    {
        if addr as usize <= RAM_SIZE - 2 {
            Ok(read_u16_le(&self.ram, addr as usize))
        } else {
            Err(CpuError::OutOfBoundsAccess { address: addr, width: 2 })
        }
    }

    /// The word at `addr`, lowest byte first.
    pub fn read_word(&self, addr: u32) -> (r: Result<u32, CpuError>)
        ensures
            r == (if in_bounds(addr, 4) {
                Ok::<u32, CpuError>(le_u32(self@.mem, addr as int))
            } else {
                Err::<u32, CpuError>(CpuError::OutOfBoundsAccess { address: addr, width: 4 })
            }),
    {
        if addr as usize <= RAM_SIZE - 4 {
            Ok(read_u32_le(&self.ram, addr as usize))
        } else {
            Err(CpuError::OutOfBoundsAccess { address: addr, width: 4 })
        }
    }

    /// Writes `data` at `addr`. On a failure nothing has changed.
    pub fn write_byte(&mut self, addr: u32, data: u8) -> (r: Result<(), CpuError>)
        ensures
            in_bounds(addr, 1) ==> r is Ok && final(self)@ == old(self)@.set_mem(
                old(self)@.mem.update(addr as int, data),
            ),
            !in_bounds(addr, 1) ==> r == Err::<(), CpuError>(
                CpuError::OutOfBoundsAccess { address: addr, width: 1 },
            ) && final(self)@ == old(self)@,
    {
        if addr as usize <= RAM_SIZE - 1 {
            self.ram[addr as usize] = data;
            Ok(())
        } else {
            Err(CpuError::OutOfBoundsAccess { address: addr, width: 1 })
        }
    }

    /// Writes `data` at `addr`, low byte first. On a failure nothing has changed.
    pub fn write_halfword(&mut self, addr: u32, data: u16) -> (r: Result<(), CpuError>)
        ensures
            in_bounds(addr, 2) ==> r is Ok && final(self)@ == old(self)@.set_mem(
                store_u16(old(self)@.mem, addr as int, data),
            ),
            !in_bounds(addr, 2) ==> r == Err::<(), CpuError>(
                CpuError::OutOfBoundsAccess { address: addr, width: 2 },
            ) && final(self)@ == old(self)@,
    {
        if addr as usize <= RAM_SIZE - 2 {
            write_u16_le(&mut self.ram, addr as usize, data);
            Ok(())
        } else {
            Err(CpuError::OutOfBoundsAccess { address: addr, width: 2 })
        }
    }

    /// Writes `data` at `addr`, lowest byte first. On a failure nothing has
    /// changed.
    pub fn write_word(&mut self, addr: u32, data: u32) -> (r: Result<(), CpuError>)
        ensures
            in_bounds(addr, 4) ==> r is Ok && final(self)@ == old(self)@.set_mem(
                store_u32(old(self)@.mem, addr as int, data),
            ),
            !in_bounds(addr, 4) ==> r == Err::<(), CpuError>(
                CpuError::OutOfBoundsAccess { address: addr, width: 4 },
            ) && final(self)@ == old(self)@,
    {
        if addr as usize <= RAM_SIZE - 4 {
            write_u32_le(&mut self.ram, addr as usize, data);
            Ok(())
        } else {
            Err(CpuError::OutOfBoundsAccess { address: addr, width: 4 })
        }
    }

    /// The instruction that the word `d` encodes. Where it encodes none, the
    /// failure names the word and the address that it was fetched from, four bytes
    /// before the program counter.
    pub fn decode(&self, d: u32) -> (r: Result<Instruction, CpuError>)
        ensures
            r == (match decode_spec(d) {
                Some(inst) => Ok::<Instruction, CpuError>(inst),
                None => Err::<Instruction, CpuError>(
                    CpuError::InvalidEncoding { word: d, address: self@.here() },
                ),
            }),
    {
        let i = Common(d);
        let funct3 = i.funct3();
        let funct7 = i.funct7();
        let funct12 = I(d).csr();
        let inst = match i.opcode() {
            OPCODE_LUI => Instruction::LUI(U(d)),
            OPCODE_AUIPC => Instruction::AUIPC(U(d)),
            OPCODE_JAL => Instruction::JAL(J(d)),
            OPCODE_JALR if funct3 == 0b000 => Instruction::JALR(I(d)),
            OPCODE_BRANCH if funct3 == 0b000 => Instruction::BEQ(B(d)),
            OPCODE_BRANCH if funct3 == 0b001 => Instruction::BNE(B(d)),
            OPCODE_BRANCH if funct3 == 0b100 => Instruction::BLT(B(d)),
            OPCODE_BRANCH if funct3 == 0b101 => Instruction::BGE(B(d)),
            OPCODE_BRANCH if funct3 == 0b110 => Instruction::BLTU(B(d)),
            OPCODE_BRANCH if funct3 == 0b111 => Instruction::BGEU(B(d)),
            OPCODE_LOAD if funct3 == 0b000 => Instruction::LB(I(d)),
            OPCODE_LOAD if funct3 == 0b001 => Instruction::LH(I(d)),
            OPCODE_LOAD if funct3 == 0b010 => Instruction::LW(I(d)),
            OPCODE_LOAD if funct3 == 0b100 => Instruction::LBU(I(d)),
            OPCODE_LOAD if funct3 == 0b101 => Instruction::LHU(I(d)),
            OPCODE_STORE if funct3 == 0b000 => Instruction::SB(S(d)),
            OPCODE_STORE if funct3 == 0b001 => Instruction::SH(S(d)),
            OPCODE_STORE if funct3 == 0b010 => Instruction::SW(S(d)),
            OPCODE_OP_IMM if funct3 == 0b000 => Instruction::ADDI(I(d)),
            OPCODE_OP_IMM if funct3 == 0b010 => Instruction::SLTI(I(d)),
            OPCODE_OP_IMM if funct3 == 0b100 => Instruction::XORI(I(d)),
            OPCODE_OP_IMM if funct3 == 0b110 => Instruction::ORI(I(d)),
            OPCODE_OP_IMM if funct3 == 0b111 => Instruction::ANDI(I(d)),
            OPCODE_OP_IMM if funct7 == 0b000_0000 && funct3 == 0b001 => Instruction::SLLI(I(d)),
            OPCODE_OP_IMM if funct7 == 0b000_0000 && funct3 == 0b101 => Instruction::SRLI(I(d)),
            OPCODE_OP if funct7 == 0b000_0000 && funct3 == 0b000 => Instruction::ADD(R(d)),
            OPCODE_OP if funct7 == 0b010_0000 && funct3 == 0b000 => Instruction::SUB(R(d)),
            OPCODE_OP if funct7 == 0b000_0000 && funct3 == 0b001 => Instruction::SLL(R(d)),
            OPCODE_OP if funct7 == 0b000_0000 && funct3 == 0b010 => Instruction::SLT(R(d)),
            OPCODE_OP if funct7 == 0b000_0000 && funct3 == 0b011 => Instruction::SLTU(R(d)),
            OPCODE_OP if funct7 == 0b000_0000 && funct3 == 0b100 => Instruction::XOR(R(d)),
            OPCODE_OP if funct7 == 0b000_0000 && funct3 == 0b101 => Instruction::SRL(R(d)),
            OPCODE_OP if funct7 == 0b010_0000 && funct3 == 0b101 => Instruction::SRA(R(d)),
            OPCODE_OP if funct7 == 0b000_0000 && funct3 == 0b110 => Instruction::OR(R(d)),
            OPCODE_OP if funct7 == 0b000_0000 && funct3 == 0b111 => Instruction::AND(R(d)),
            OPCODE_MISC_MEM if funct3 == 0b000 => Instruction::FENCE(I(d)),
            OPCODE_MISC_MEM if funct3 == 0b001 => Instruction::FENCEI(I(d)),
            OPCODE_SYSTEM if funct12 == 0 && funct3 == 0b000 => Instruction::ECALL(I(d)),
            OPCODE_SYSTEM if funct12 == 1 && funct3 == 0b000 => Instruction::EBREAK(I(d)),
            OPCODE_SYSTEM if funct3 == 0b001 => Instruction::CSRRW(I(d)),
            OPCODE_SYSTEM if funct3 == 0b010 => Instruction::CSRRS(I(d)),
            OPCODE_SYSTEM if funct3 == 0b011 => Instruction::CSRRC(I(d)),
            OPCODE_SYSTEM if funct3 == 0b101 => Instruction::CSRRWI(I(d)),
            OPCODE_SYSTEM if funct3 == 0b110 => Instruction::CSRRSI(I(d)),
            OPCODE_SYSTEM if funct3 == 0b111 => Instruction::CSRRCI(I(d)),
            _ => {
                return Err(
                    CpuError::InvalidEncoding { word: d, address: self.pc.wrapping_sub(4) },
                );
            },
        };
        Ok(inst)
    }
}

} // verus!
