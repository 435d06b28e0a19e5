//! The decoder of the base integer instruction set.

use vstd::prelude::*;
use crate::bitops::sign_extended;
use crate::decoder::{
    b_immediate, b_shaped, funct3_field, funct7_field, i_shaped, j_immediate, j_shaped,
    opcode_field, r_shaped, rd_field, rs1_field, rs2_field, s_shaped, u_shaped, Decoder,
    MASK_3BIT, MASK_7BIT,
};
use crate::instruction::rv32i::{
    Rv32iOpcodeB, Rv32iOpcodeI, Rv32iOpcodeJ, Rv32iOpcodeR, Rv32iOpcodeS, Rv32iOpcodeU,
};
use crate::instruction::Instruction;

verus! {

/// An instruction of the base integer instruction set.
pub type Rv32iInstruction = Instruction<
    Rv32iOpcodeR,
    Rv32iOpcodeI,
    Rv32iOpcodeS,
    Rv32iOpcodeB,
    Rv32iOpcodeU,
    Rv32iOpcodeJ,
>;

pub const OPCODE_LUI: u32 = 0b0110111;

pub const OPCODE_AUIPC: u32 = 0b0010111;

pub const OPCODE_JAL: u32 = 0b1101111;

pub const OPCODE_BRANCH: u32 = 0b1100011;

pub const OPCODE_STORE: u32 = 0b0100011;

pub const OPCODE_OP_IMM: u32 = 0b0010011;

pub const OPCODE_OP: u32 = 0b0110011;

pub const OPCODE_MISC_MEM: u32 = 0b0001111;

pub const OPCODE_SYSTEM: u32 = 0b1110011;

/// The branch that a word with the branch opcode encodes, by its `funct3`.
pub open spec fn branch_opcode(word: u32) -> Option<Rv32iOpcodeB> {
    if funct3_field(word) == 0b000 {
        Some(Rv32iOpcodeB::Beq)
    } else if funct3_field(word) == 0b001 {
        Some(Rv32iOpcodeB::Bne)
    } else if funct3_field(word) == 0b101 {
        Some(Rv32iOpcodeB::Bge)
    } else {
        None
    }
}

/// The store that a word with the store opcode encodes.
pub open spec fn store_opcode(word: u32) -> Option<Rv32iOpcodeS> {
    if funct3_field(word) == 0b010 {
        Some(Rv32iOpcodeS::Sw)
    } else {
        None
    }
}

/// The instruction that a word with the register-immediate opcode encodes.
pub open spec fn op_imm_opcode(word: u32) -> Option<Rv32iOpcodeI> {
    if funct3_field(word) == 0b000 {
        Some(Rv32iOpcodeI::Addi)
    } else if funct3_field(word) == 0b001 {
        Some(Rv32iOpcodeI::Slli)
    } else {
        None
    }
}

/// The instruction that a word with the register-register opcode encodes.
pub open spec fn op_opcode(word: u32) -> Option<Rv32iOpcodeR> {
    if funct7_field(word) == 0b0000000 && funct3_field(word) == 0b000 {
        Some(Rv32iOpcodeR::Add)
    } else {
        None
    }
}

/// The instruction that a word with the memory-ordering opcode encodes.
pub open spec fn misc_mem_opcode(word: u32) -> Option<Rv32iOpcodeI> {
    if funct3_field(word) == 0b000 {
        Some(Rv32iOpcodeI::Fence)
    } else {
        None
    }
}

/// The base instruction that a word with the system opcode encodes: the
/// environment call, whose immediate is zero.
pub open spec fn system_opcode(word: u32) -> Option<Rv32iOpcodeI> {
    if funct3_field(word) == 0b000 && word >> 20 == 0 {
        Some(Rv32iOpcodeI::Ecall)
    } else {
        None
    }
}

pub struct Rv32iDecoder;

impl Decoder for Rv32iDecoder {
    type OpcodeR = Rv32iOpcodeR;

    type OpcodeI = Rv32iOpcodeI;

    type OpcodeS = Rv32iOpcodeS;

    type OpcodeB = Rv32iOpcodeB;

    type OpcodeU = Rv32iOpcodeU;

    type OpcodeJ = Rv32iOpcodeJ;

    open spec fn decoded(instruction: u32) -> Option<Rv32iInstruction> {
        let opcode = opcode_field(instruction);
        if opcode == OPCODE_LUI {
            u_shaped(Some(Rv32iOpcodeU::Lui), instruction)
        } else if opcode == OPCODE_AUIPC {
            u_shaped(Some(Rv32iOpcodeU::Auipc), instruction)
        } else if opcode == OPCODE_JAL {
            j_shaped(Some(Rv32iOpcodeJ::Jal), instruction)
        } else if opcode == OPCODE_BRANCH {
            b_shaped(branch_opcode(instruction), instruction)
        } else if opcode == OPCODE_STORE {
            s_shaped(store_opcode(instruction), instruction)
        } else if opcode == OPCODE_OP_IMM {
            i_shaped(op_imm_opcode(instruction), instruction)
        } else if opcode == OPCODE_OP {
            r_shaped(op_opcode(instruction), instruction)
        } else if opcode == OPCODE_MISC_MEM {
            i_shaped(misc_mem_opcode(instruction), instruction)
        } else if opcode == OPCODE_SYSTEM {
            i_shaped(system_opcode(instruction), instruction)
        } else {
            None
        }
    }

    fn decode(instruction: u32) -> (decoded: Option<Rv32iInstruction>) {
        let opcode: u32 = instruction & MASK_7BIT;
        let funct3: u32 = (instruction >> 12) & MASK_3BIT;
        let funct7: u32 = (instruction >> 25) & MASK_7BIT;
        match opcode {
            0b0110111 => Self::decode_u(Some(Rv32iOpcodeU::Lui), instruction),
            0b0010111 => Self::decode_u(Some(Rv32iOpcodeU::Auipc), instruction),
            0b1101111 => Self::decode_j(Some(Rv32iOpcodeJ::Jal), instruction),
            0b1100011 => Self::decode_b(
                match funct3 {
                    0b000 => Some(Rv32iOpcodeB::Beq),
                    0b001 => Some(Rv32iOpcodeB::Bne),
                    0b101 => Some(Rv32iOpcodeB::Bge),
                    _ => None,
                },
                instruction,
            ),
            0b0100011 => Self::decode_s(
                match funct3 {
                    0b010 => Some(Rv32iOpcodeS::Sw),
                    _ => None,
                },
                instruction,
            ),
            0b0010011 => Self::decode_i(
                match funct3 {
                    0b000 => Some(Rv32iOpcodeI::Addi),
                    0b001 => Some(Rv32iOpcodeI::Slli),
                    _ => None,
                },
                instruction,
            ),
            0b0110011 => Self::decode_r(
                match funct7 {
                    0b0000000 => match funct3 {
                        0b000 => Some(Rv32iOpcodeR::Add),
                        _ => None,
                    },
                    _ => None,
                },
                instruction,
            ),
            0b0001111 => Self::decode_i(
                match funct3 {
                    0b000 => Some(Rv32iOpcodeI::Fence),
                    _ => None,
                },
                instruction,
            ),
            0b1110011 => Self::decode_i(
                match funct3 {
                    0b000 => match instruction >> 20 {
                        0b0 => Some(Rv32iOpcodeI::Ecall),
                        _ => None,
                    },
                    _ => None,
                },
                instruction,
            ),
            _ => None,
        }
    }
}

/// The bits of a branch's word that hold its immediate.
pub const BRANCH_IMMEDIATE_BITS: u32 = 0xfe00_0f80;

/// The bits of a jump's word that hold its immediate.
pub const JUMP_IMMEDIATE_BITS: u32 = 0xffff_f000;

/// A branch displacement laid out in the immediate bits of a word:
/// bit 12 of the displacement in bit 31, bits 10:5 in bits 30:25, bits 4:1
/// in bits 11:8 and bit 11 in bit 7.
pub open spec fn branch_displacement_bits(displacement: i64) -> u32 {
    let d = displacement as u32;
    (((d >> 12) & 0x1) << 31) | (((d >> 5) & 0x3f) << 25) | (((d >> 1) & 0xf) << 8) | (((d >> 11)
        & 0x1) << 7)
}

/// A jump displacement laid out in the immediate bits of a word: bit 20 of
/// the displacement in bit 31, bits 10:1 in bits 30:21, bit 11 in bit 20 and
/// bits 19:12 in place.
pub open spec fn jump_displacement_bits(displacement: i64) -> u32 {
    let d = displacement as u32;
    (((d >> 20) & 0x1) << 31) | (((d >> 1) & 0x3ff) << 21) | (((d >> 11) & 0x1) << 20) | (((d
        >> 12) & 0xff) << 12)
}

/// A branch encoded with an even displacement of at least -4096 and less
/// than 4096 bytes decodes to the same branch. Its immediate holds the low
/// 13 bits of the displacement, and sign-extending it from 13 bits gives the
/// displacement back. `rest` holds the word's other fields.
pub proof fn lemma_branch_displacement_is_recovered(rest: u32, displacement: i64)
    requires
        -4096 <= displacement < 4096,
        displacement % 2 == 0,
        rest & BRANCH_IMMEDIATE_BITS == 0,
        opcode_field(rest) == OPCODE_BRANCH,
        branch_opcode(rest) is Some,
    ensures
        Rv32iDecoder::decoded(rest | branch_displacement_bits(displacement)) matches Some(
            Instruction::TypeB { opcode, funct3, rs1, rs2, imm },
        ) && Some(opcode) == branch_opcode(rest) && funct3 == funct3_field(rest) && rs1
            == rs1_field(rest) && rs2 == rs2_field(rest) && imm == displacement as u64 & 0x1fff
            && sign_extended(imm, 13) == displacement as u64,
{
    let word = rest | branch_displacement_bits(displacement);
    assert(opcode_field(word) == opcode_field(rest) && funct3_field(word) == funct3_field(rest)
        && rs1_field(word) == rs1_field(rest) && rs2_field(word) == rs2_field(rest)) by (bit_vector)
        requires
            word == rest | branch_displacement_bits(displacement),
            rest & 0xfe00_0f80 == 0,
    ;
    assert(b_immediate(word) == displacement as u64 & 0x1fff && sign_extended(
        b_immediate(word),
        13,
    ) == displacement as u64) by (bit_vector)
        requires
            word == rest | branch_displacement_bits(displacement),
            rest & 0xfe00_0f80 == 0,
            -4096 <= displacement < 4096,
            displacement % 2 == 0,
    ;
}

/// A jump encoded with an even displacement of at least -1 MiB and less than
/// 1 MiB decodes to a jump. Its immediate holds the low 21 bits of the
/// displacement, and sign-extending it from 21 bits gives the displacement
/// back. `rest` holds the word's other fields.
pub proof fn lemma_jump_displacement_is_recovered(rest: u32, displacement: i64)
    requires
        -0x10_0000 <= displacement < 0x10_0000,
        displacement % 2 == 0,
        rest & JUMP_IMMEDIATE_BITS == 0,
        opcode_field(rest) == OPCODE_JAL,
    ensures
        Rv32iDecoder::decoded(rest | jump_displacement_bits(displacement)) matches Some(
            Instruction::TypeJ { opcode, rd, imm },
        ) && opcode == Rv32iOpcodeJ::Jal && rd == rd_field(rest) && imm == displacement as u64
            & 0x1f_ffff && sign_extended(imm, 21) == displacement as u64,
{
    let word = rest | jump_displacement_bits(displacement);
    assert(opcode_field(word) == opcode_field(rest) && rd_field(word) == rd_field(rest))
        by (bit_vector)
        requires
            word == rest | jump_displacement_bits(displacement),
            rest & 0xffff_f000 == 0,
    ;
    assert(j_immediate(word) == displacement as u64 & 0x1f_ffff && sign_extended(
        j_immediate(word),
        21,
    ) == displacement as u64) by (bit_vector)
        requires
            word == rest | jump_displacement_bits(displacement),
            rest & 0xffff_f000 == 0,
            -0x10_0000 <= displacement < 0x10_0000,
            displacement % 2 == 0,
    ;
}

} // verus!
