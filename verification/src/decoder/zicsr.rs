//! The decoder of the control and status register instructions.

use vstd::prelude::*;
use crate::decoder::{funct3_field, i_shaped, opcode_field, Decoder, MASK_3BIT, MASK_7BIT};
use crate::decoder::rv32i::OPCODE_SYSTEM;
use crate::instruction::zicsr::{
    ZicsrOpcodeB, ZicsrOpcodeI, ZicsrOpcodeJ, ZicsrOpcodeR, ZicsrOpcodeS, ZicsrOpcodeU,
};
use crate::instruction::Instruction;

verus! {

/// A control and status register instruction.
pub type ZicsrInstruction = Instruction<
    ZicsrOpcodeR,
    ZicsrOpcodeI,
    ZicsrOpcodeS,
    ZicsrOpcodeB,
    ZicsrOpcodeU,
    ZicsrOpcodeJ,
>;

/// The register access that a word with the system opcode encodes, by its
/// `funct3`.
pub open spec fn csr_opcode(word: u32) -> Option<ZicsrOpcodeI> {
    if funct3_field(word) == 0b001 {
        Some(ZicsrOpcodeI::Csrrw)
    } else if funct3_field(word) == 0b010 {
        Some(ZicsrOpcodeI::Csrrs)
    } else if funct3_field(word) == 0b101 {
        Some(ZicsrOpcodeI::Csrrwi)
    } else {
        None
    }
}

pub struct ZicsrDecoder;

impl Decoder for ZicsrDecoder {
    type OpcodeR = ZicsrOpcodeR;

    type OpcodeI = ZicsrOpcodeI;

    type OpcodeS = ZicsrOpcodeS;

    type OpcodeB = ZicsrOpcodeB;

    type OpcodeU = ZicsrOpcodeU;

    type OpcodeJ = ZicsrOpcodeJ;

    open spec fn decoded(instruction: u32) -> Option<ZicsrInstruction> {
        if opcode_field(instruction) == OPCODE_SYSTEM {
            i_shaped(csr_opcode(instruction), instruction)
        } else {
            None
        }
    }

    fn decode(instruction: u32) -> (decoded: Option<ZicsrInstruction>) {
        let opcode: u32 = instruction & MASK_7BIT;
        let funct3: u32 = (instruction >> 12) & MASK_3BIT;
        match opcode {
            0b1110011 => Self::decode_i(
                match funct3 {
                    0b001 => Some(ZicsrOpcodeI::Csrrw),
                    0b010 => Some(ZicsrOpcodeI::Csrrs),
                    0b101 => Some(ZicsrOpcodeI::Csrrwi),
                    _ => None,
                },
                instruction,
            ),
            _ => None,
        }
    }
}

} // verus!
