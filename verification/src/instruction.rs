//! The six instruction shapes, generic over the opcode names of the
//! instruction-set module that decodes and executes them.

use vstd::prelude::*;

pub mod privileged;
pub mod rv32i;
pub mod rv64i;
pub mod zicsr;

verus! {

/// A decoded instruction. Register fields are indices below 32. Immediates
/// are the raw bit patterns of the encoding, not yet sign-extended: 12
/// significant bits in `TypeI` and `TypeS`, 13 in `TypeB`, 20 in `TypeU`
/// and 21 in `TypeJ`.
#[allow(inconsistent_fields)]
#[derive(Debug, PartialEq, Eq)]
pub enum Instruction<OpcodeR, OpcodeI, OpcodeS, OpcodeB, OpcodeU, OpcodeJ> {
    TypeR { opcode: OpcodeR, rd: usize, funct3: usize, rs1: usize, rs2: usize, funct7: usize },
    TypeI { opcode: OpcodeI, rd: usize, funct3: usize, rs1: usize, imm: u64 },
    TypeS { opcode: OpcodeS, funct3: usize, rs1: usize, rs2: usize, imm: u64 },
    TypeB { opcode: OpcodeB, funct3: usize, rs1: usize, rs2: usize, imm: u64 },
    TypeU { opcode: OpcodeU, rd: usize, imm: u64 },
    TypeJ { opcode: OpcodeJ, rd: usize, imm: u64 },
}

} // verus!
