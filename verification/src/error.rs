//! The failures of the core.

use crate::instruction::Instruction;
use vstd::prelude::*;

verus! {

/// Why a step could not be completed.
#[derive(Debug, Clone, Copy, PartialEq, Eq)]
pub enum CpuError {
    /// The word at `address` encodes no instruction of the core.
    InvalidEncoding { word: u32, address: u32 },
    /// The word decodes to an instruction that the core cannot execute.
    UnsupportedInstruction { variant: Instruction },
    /// The `width` bytes at `address` are not all inside the memory.
    OutOfBoundsAccess { address: u32, width: u32 },
}

} // verus!
