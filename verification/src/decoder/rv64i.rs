//! The decoder of the 64-bit extension of the base integer instruction set.

use vstd::prelude::*;
use crate::decoder::{funct3_field, i_shaped, opcode_field, Decoder, MASK_3BIT, MASK_7BIT};
use crate::instruction::rv64i::{
    Rv64iOpcodeB, Rv64iOpcodeI, Rv64iOpcodeJ, Rv64iOpcodeR, Rv64iOpcodeS, Rv64iOpcodeU,
};
use crate::instruction::Instruction;

verus! {

/// An instruction of the 64-bit extension.
pub type Rv64iInstruction = Instruction<
    Rv64iOpcodeR,
    Rv64iOpcodeI,
    Rv64iOpcodeS,
    Rv64iOpcodeB,
    Rv64iOpcodeU,
    Rv64iOpcodeJ,
>;

pub const OPCODE_OP_IMM_32: u32 = 0b0011011;

/// The instruction that a word with the 32-bit register-immediate opcode
/// encodes.
pub open spec fn op_imm_32_opcode(word: u32) -> Option<Rv64iOpcodeI> {
    if funct3_field(word) == 0b000 {
        Some(Rv64iOpcodeI::Addiw)
    } else {
        None
    }
}

pub struct Rv64iDecoder;

impl Decoder for Rv64iDecoder {
    type OpcodeR = Rv64iOpcodeR;

    type OpcodeI = Rv64iOpcodeI;

    type OpcodeS = Rv64iOpcodeS;

    type OpcodeB = Rv64iOpcodeB;

    type OpcodeU = Rv64iOpcodeU;

    type OpcodeJ = Rv64iOpcodeJ;

    open spec fn decoded(instruction: u32) -> Option<Rv64iInstruction> {
        if opcode_field(instruction) == OPCODE_OP_IMM_32 {
            i_shaped(op_imm_32_opcode(instruction), instruction)
        } else {
            None
        }
    }

    fn decode(instruction: u32) -> (decoded: Option<Rv64iInstruction>) {
        let opcode: u32 = instruction & MASK_7BIT;
        let funct3: u32 = (instruction >> 12) & MASK_3BIT;
        match opcode {
            0b0011011 => Self::decode_i(
                match funct3 {
                    0b000 => Some(Rv64iOpcodeI::Addiw),
                    _ => None,
                },
                instruction,
            ),
            _ => None,
        }
    }
}

} // verus!
