//! The decoder of the privileged instructions.

use vstd::prelude::*;
use crate::decoder::{
    funct3_field, funct7_field, opcode_field, r_shaped, rs2_field, Decoder, MASK_3BIT, MASK_5BIT,
    MASK_7BIT,
};
use crate::decoder::rv32i::OPCODE_SYSTEM;
use crate::instruction::privileged::{
    PrivilegedOpcodeB, PrivilegedOpcodeI, PrivilegedOpcodeJ, PrivilegedOpcodeR, PrivilegedOpcodeS,
    PrivilegedOpcodeU,
};
use crate::instruction::Instruction;

verus! {

/// A privileged instruction.
pub type PrivilegedInstruction = Instruction<
    PrivilegedOpcodeR,
    PrivilegedOpcodeI,
    PrivilegedOpcodeS,
    PrivilegedOpcodeB,
    PrivilegedOpcodeU,
    PrivilegedOpcodeJ,
>;

/// The privileged instruction that a word with the system opcode encodes:
/// the return from a machine-mode trap, with `funct3` 0, `funct7` 0b0011000
/// and `rs2` 0b00010.
pub open spec fn return_opcode(word: u32) -> Option<PrivilegedOpcodeR> {
    if funct3_field(word) == 0b000 && funct7_field(word) == 0b0011000 && rs2_field(word)
        == 0b00010 {
        Some(PrivilegedOpcodeR::Mret)
    } else {
        None
    }
}

pub struct PrivilegedDecoder;

impl Decoder for PrivilegedDecoder {
    type OpcodeR = PrivilegedOpcodeR;

    type OpcodeI = PrivilegedOpcodeI;

    type OpcodeS = PrivilegedOpcodeS;

    type OpcodeB = PrivilegedOpcodeB;

    type OpcodeU = PrivilegedOpcodeU;

    type OpcodeJ = PrivilegedOpcodeJ;

    open spec fn decoded(instruction: u32) -> Option<PrivilegedInstruction> {
        if opcode_field(instruction) == OPCODE_SYSTEM {
            r_shaped(return_opcode(instruction), instruction)
        } else {
            None
        }
    }

    fn decode(instruction: u32) -> (decoded: Option<PrivilegedInstruction>) {
        let opcode: u32 = instruction & MASK_7BIT;
        let funct3: u32 = (instruction >> 12) & MASK_3BIT;
        let funct7: u32 = (instruction >> 25) & MASK_7BIT;
        let rs2: u32 = (instruction >> 20) & MASK_5BIT;
        match opcode {
            0b1110011 => Self::decode_r(
                match funct3 {
                    0b000 => match funct7 {
                        0b0011000 => match rs2 {
                            0b00010 => Some(PrivilegedOpcodeR::Mret),
                            _ => None,
                        },
                        _ => None,
                    },
                    _ => None,
                },
                instruction,
            ),
            _ => None,
        }
    }
}

} // verus!
