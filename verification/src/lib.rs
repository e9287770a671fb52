//! A single-hart, instruction-level emulator core for the RV32I base integer
//! instruction set.
//!
//! [`cpu::Cpu`] owns the architectural state and steps through a program one
//! instruction at a time. [`semantics`] says what a step does, as a function on
//! states, and [`theorems`] holds what follows from it.

pub mod bits;
pub mod cpu;
pub mod error;
pub mod instruction;
pub mod memory;
pub mod semantics;
pub mod theorems;

pub use crate::cpu::Cpu;
pub use crate::error::CpuError;
pub use crate::instruction::Instruction;
