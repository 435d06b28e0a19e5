//! Field extraction for the six instruction shapes, and the interface that
//! each instruction-set module's decoder implements.

use vstd::prelude::*;
use crate::instruction::Instruction;

pub mod privileged;
pub mod rv32i;
pub mod rv64i;
pub mod zicsr;

verus! {

pub const MASK_3BIT: u32 = 0b111;

pub const MASK_5BIT: u32 = 0b11111;

pub const MASK_7BIT: u32 = 0b1111111;

/// Bits 6:0 of the word, which select the instruction's major opcode.
pub open spec fn opcode_field(word: u32) -> u32 {
    word & MASK_7BIT
}

/// Bits 11:7 of the word.
pub open spec fn rd_field(word: u32) -> u32 {
    (word >> 7) & MASK_5BIT
}

/// Bits 14:12 of the word.
pub open spec fn funct3_field(word: u32) -> u32 {
    (word >> 12) & MASK_3BIT
}

/// Bits 19:15 of the word.
pub open spec fn rs1_field(word: u32) -> u32 {
    (word >> 15) & MASK_5BIT
}

/// Bits 24:20 of the word.
pub open spec fn rs2_field(word: u32) -> u32 {
    (word >> 20) & MASK_5BIT
}

/// Bits 31:25 of the word.
pub open spec fn funct7_field(word: u32) -> u32 {
    (word >> 25) & MASK_7BIT
}

/// The immediate of a register-immediate instruction: bits 31:20.
pub open spec fn i_immediate(word: u32) -> u64 {
    (word >> 20) as u64
}

/// The immediate of a store: bits 31:25 above bits 11:7.
pub open spec fn s_immediate(word: u32) -> u64 {
    ((((word >> 25) & 0x7f) << 5) | ((word >> 7) & 0x1f)) as u64
}

/// The immediate of a branch, an even byte displacement of 13 bits: bit 31
/// of the word becomes bit 12, bit 7 becomes bit 11, bits 30:25 become bits
/// 10:5 and bits 11:8 become bits 4:1.
pub open spec fn b_immediate(word: u32) -> u64 {
    ((((word >> 31) & 0x1) << 12) | (((word >> 7) & 0x1) << 11) | (((word >> 25) & 0x3f) << 5) | (((
    word >> 8) & 0xf) << 1)) as u64
}

/// The immediate of an upper-immediate instruction: bits 31:12.
pub open spec fn u_immediate(word: u32) -> u64 {
    (word >> 12) as u64
}

/// The immediate of a jump, an even byte displacement of 21 bits: bit 31 of
/// the word becomes bit 20, bits 19:12 stay in place, bit 20 becomes bit 11
/// and bits 30:21 become bits 10:1.
pub open spec fn j_immediate(word: u32) -> u64 {
    ((((word >> 31) & 0x1) << 20) | (((word >> 12) & 0xff) << 12) | (((word >> 20) & 0x1) << 11) | (((
    word >> 21) & 0x3ff) << 1)) as u64
}

/// The register-register instruction that `word` encodes under `opcode`.
pub open spec fn r_shaped<R, I, S, B, U, J>(opcode: Option<R>, word: u32) -> Option<
    Instruction<R, I, S, B, U, J>,
> {
    match opcode {
        Some(o) => Some(
            Instruction::TypeR {
                opcode: o,
                rd: rd_field(word) as usize,
                funct3: funct3_field(word) as usize,
                rs1: rs1_field(word) as usize,
                rs2: rs2_field(word) as usize,
                funct7: funct7_field(word) as usize,
            },
        ),
        None => None,
    }
}

/// The register-immediate instruction that `word` encodes under `opcode`.
pub open spec fn i_shaped<R, I, S, B, U, J>(opcode: Option<I>, word: u32) -> Option<
    Instruction<R, I, S, B, U, J>,
> {
    match opcode {
        Some(o) => Some(
            Instruction::TypeI {
                opcode: o,
                rd: rd_field(word) as usize,
                funct3: funct3_field(word) as usize,
                rs1: rs1_field(word) as usize,
                imm: i_immediate(word),
            },
        ),
        None => None,
    }
}

/// The store that `word` encodes under `opcode`.
pub open spec fn s_shaped<R, I, S, B, U, J>(opcode: Option<S>, word: u32) -> Option<
    Instruction<R, I, S, B, U, J>,
> {
    match opcode {
        Some(o) => Some(
            Instruction::TypeS {
                opcode: o,
                funct3: funct3_field(word) as usize,
                rs1: rs1_field(word) as usize,
                rs2: rs2_field(word) as usize,
                imm: s_immediate(word),
            },
        ),
        None => None,
    }
}

/// The branch that `word` encodes under `opcode`.
pub open spec fn b_shaped<R, I, S, B, U, J>(opcode: Option<B>, word: u32) -> Option<
    Instruction<R, I, S, B, U, J>,
> {
    match opcode {
        Some(o) => Some(
            Instruction::TypeB {
                opcode: o,
                funct3: funct3_field(word) as usize,
                rs1: rs1_field(word) as usize,
                rs2: rs2_field(word) as usize,
                imm: b_immediate(word),
            },
        ),
        None => None,
    }
}

/// The upper-immediate instruction that `word` encodes under `opcode`.
pub open spec fn u_shaped<R, I, S, B, U, J>(opcode: Option<U>, word: u32) -> Option<
    Instruction<R, I, S, B, U, J>,
> {
    match opcode {
        Some(o) => Some(
            Instruction::TypeU { opcode: o, rd: rd_field(word) as usize, imm: u_immediate(word) },
        ),
        None => None,
    }
}

/// The jump that `word` encodes under `opcode`.
pub open spec fn j_shaped<R, I, S, B, U, J>(opcode: Option<J>, word: u32) -> Option<
    Instruction<R, I, S, B, U, J>,
> {
    match opcode {
        Some(o) => Some(
            Instruction::TypeJ { opcode: o, rd: rd_field(word) as usize, imm: j_immediate(word) },
        ),
        None => None,
    }
}

/// Every field fits its width: register indices are below 32, and each
/// immediate fits its significant bits, the branch and jump displacements
/// being even.
pub proof fn lemma_fields_in_range(word: u32)
    by (bit_vector)
    ensures
        opcode_field(word) < 128,
        rd_field(word) < 32,
        funct3_field(word) < 8,
        rs1_field(word) < 32,
        rs2_field(word) < 32,
        funct7_field(word) < 128,
        i_immediate(word) < 0x1000,
        s_immediate(word) < 0x1000,
        b_immediate(word) < 0x2000,
        b_immediate(word) & 1 == 0,
        u_immediate(word) < 0x10_0000,
        j_immediate(word) < 0x20_0000,
        j_immediate(word) & 1 == 0,
{
}

/// The decoder of one instruction-set module. `decode` answers `None` for a
/// word that is not an instruction of the module.
pub trait Decoder {
    type OpcodeR;

    type OpcodeI;

    type OpcodeS;

    type OpcodeB;

    type OpcodeU;

    type OpcodeJ;

    /// The instruction of the module that `instruction` encodes, if any.
    spec fn decoded(instruction: u32) -> Option<
        Instruction<
            Self::OpcodeR,
            Self::OpcodeI,
            Self::OpcodeS,
            Self::OpcodeB,
            Self::OpcodeU,
            Self::OpcodeJ,
        >,
    >;

    fn decode(instruction: u32) -> (decoded: Option<
        Instruction<
            Self::OpcodeR,
            Self::OpcodeI,
            Self::OpcodeS,
            Self::OpcodeB,
            Self::OpcodeU,
            Self::OpcodeJ,
        >,
    >)
        ensures
            decoded == Self::decoded(instruction),
    ;

    fn decode_r(opcode: Option<Self::OpcodeR>, instruction: u32) -> (decoded: Option<
        Instruction<
            Self::OpcodeR,
            Self::OpcodeI,
            Self::OpcodeS,
            Self::OpcodeB,
            Self::OpcodeU,
            Self::OpcodeJ,
        >,
    >)
        ensures
            decoded == r_shaped::<
                Self::OpcodeR,
                Self::OpcodeI,
                Self::OpcodeS,
                Self::OpcodeB,
                Self::OpcodeU,
                Self::OpcodeJ,
            >(opcode, instruction),
    {
        match opcode {
            Some(o) => {
                let rd: usize = ((instruction >> 7) & MASK_5BIT) as usize;
                let funct3: usize = ((instruction >> 12) & MASK_3BIT) as usize;
                let rs1: usize = ((instruction >> 15) & MASK_5BIT) as usize;
                let rs2: usize = ((instruction >> 20) & MASK_5BIT) as usize;
                let funct7: usize = ((instruction >> 25) & MASK_7BIT) as usize;
                Some(Instruction::TypeR { opcode: o, rd, funct3, rs1, rs2, funct7 })
            },
            None => None,
        }
    }

    fn decode_i(opcode: Option<Self::OpcodeI>, instruction: u32) -> (decoded: Option<
        Instruction<
            Self::OpcodeR,
            Self::OpcodeI,
            Self::OpcodeS,
            Self::OpcodeB,
            Self::OpcodeU,
            Self::OpcodeJ,
        >,
    >)
        ensures
            decoded == i_shaped::<
                Self::OpcodeR,
                Self::OpcodeI,
                Self::OpcodeS,
                Self::OpcodeB,
                Self::OpcodeU,
                Self::OpcodeJ,
            >(opcode, instruction),
    {
        match opcode {
            Some(o) => {
                let rd: usize = ((instruction >> 7) & MASK_5BIT) as usize;
                let funct3: usize = ((instruction >> 12) & MASK_3BIT) as usize;
                let rs1: usize = ((instruction >> 15) & MASK_5BIT) as usize;
                let imm: u64 = (instruction >> 20) as u64;
                Some(Instruction::TypeI { opcode: o, rd, funct3, rs1, imm })
            },
            None => None,
        }
    }

    fn decode_s(opcode: Option<Self::OpcodeS>, instruction: u32) -> (decoded: Option<
        Instruction<
            Self::OpcodeR,
            Self::OpcodeI,
            Self::OpcodeS,
            Self::OpcodeB,
            Self::OpcodeU,
            Self::OpcodeJ,
        >,
    >)
        ensures
            decoded == s_shaped::<
                Self::OpcodeR,
                Self::OpcodeI,
                Self::OpcodeS,
                Self::OpcodeB,
                Self::OpcodeU,
                Self::OpcodeJ,
            >(opcode, instruction),
    {
        match opcode {
            Some(o) => {
                let funct3: usize = ((instruction >> 12) & MASK_3BIT) as usize;
                let rs1: usize = ((instruction >> 15) & MASK_5BIT) as usize;
                let rs2: usize = ((instruction >> 20) & MASK_5BIT) as usize;
                let bits: u32 = ((instruction & 0xfe000000) >> 20) | ((instruction >> 7)
                    & MASK_5BIT);
                assert(bits == ((((instruction >> 25) & 0x7f) << 5) | ((instruction >> 7) & 0x1f)))
                    by (bit_vector)
                    requires
                        bits == ((instruction & 0xfe000000) >> 20) | ((instruction >> 7) & 0x1f),
                ;
                let imm: u64 = bits as u64;
                Some(Instruction::TypeS { opcode: o, funct3, rs1, rs2, imm })
            },
            None => None,
        }
    }

    fn decode_b(opcode: Option<Self::OpcodeB>, instruction: u32) -> (decoded: Option<
        Instruction<
            Self::OpcodeR,
            Self::OpcodeI,
            Self::OpcodeS,
            Self::OpcodeB,
            Self::OpcodeU,
            Self::OpcodeJ,
        >,
    >)
        ensures
            decoded == b_shaped::<
                Self::OpcodeR,
                Self::OpcodeI,
                Self::OpcodeS,
                Self::OpcodeB,
                Self::OpcodeU,
                Self::OpcodeJ,
            >(opcode, instruction),
    {
        match opcode {
            Some(o) => {
                let funct3: usize = ((instruction >> 12) & MASK_3BIT) as usize;
                let rs1: usize = ((instruction >> 15) & MASK_5BIT) as usize;
                let rs2: usize = ((instruction >> 20) & MASK_5BIT) as usize;
                let bits: u32 = ((instruction & 0x80000000) >> 19) | ((instruction & 0x80) << 4) | ((
                instruction >> 20) & 0x7e0) | ((instruction >> 7) & 0x1e);
                assert(bits == ((((instruction >> 31) & 0x1) << 12) | (((instruction >> 7) & 0x1)
                    << 11) | (((instruction >> 25) & 0x3f) << 5) | (((instruction >> 8) & 0xf)
                    << 1))) by (bit_vector)
                    requires
                        bits == ((instruction & 0x80000000) >> 19) | ((instruction & 0x80) << 4) | ((
                        instruction >> 20) & 0x7e0) | ((instruction >> 7) & 0x1e),
                ;
                let imm: u64 = bits as u64;
                Some(Instruction::TypeB { opcode: o, funct3, rs1, rs2, imm })
            },
            None => None,
        }
    }

    fn decode_u(opcode: Option<Self::OpcodeU>, instruction: u32) -> (decoded: Option<
        Instruction<
            Self::OpcodeR,
            Self::OpcodeI,
            Self::OpcodeS,
            Self::OpcodeB,
            Self::OpcodeU,
            Self::OpcodeJ,
        >,
    >)
        ensures
            decoded == u_shaped::<
                Self::OpcodeR,
                Self::OpcodeI,
                Self::OpcodeS,
                Self::OpcodeB,
                Self::OpcodeU,
                Self::OpcodeJ,
            >(opcode, instruction),
    {
        match opcode {
            Some(o) => {
                let rd: usize = ((instruction >> 7) & MASK_5BIT) as usize;
                let imm: u64 = (instruction >> 12) as u64;
                Some(Instruction::TypeU { opcode: o, rd, imm })
            },
            None => None,
        }
    }

    fn decode_j(opcode: Option<Self::OpcodeJ>, instruction: u32) -> (decoded: Option<
        Instruction<
            Self::OpcodeR,
            Self::OpcodeI,
            Self::OpcodeS,
            Self::OpcodeB,
            Self::OpcodeU,
            Self::OpcodeJ,
        >,
    >)
        ensures
            decoded == j_shaped::<
                Self::OpcodeR,
                Self::OpcodeI,
                Self::OpcodeS,
                Self::OpcodeB,
                Self::OpcodeU,
                Self::OpcodeJ,
            >(opcode, instruction),
    {
        match opcode {
            Some(o) => {
                let rd: usize = ((instruction >> 7) & MASK_5BIT) as usize;
                let bits: u32 = ((instruction & 0x80000000) >> 11) | (instruction & 0xff000) | ((
                instruction >> 9) & 0x800) | ((instruction >> 20) & 0x7fe);
                assert(bits == ((((instruction >> 31) & 0x1) << 20) | (((instruction >> 12) & 0xff)
                    << 12) | (((instruction >> 20) & 0x1) << 11) | (((instruction >> 21) & 0x3ff)
                    << 1))) by (bit_vector)
                    requires
                        bits == ((instruction & 0x80000000) >> 11) | (instruction & 0xff000) | ((
                        instruction >> 9) & 0x800) | ((instruction >> 20) & 0x7fe),
                ;
                let imm: u64 = bits as u64;
                Some(Instruction::TypeJ { opcode: o, rd, imm })
            },
            None => None,
        }
    }
}

} // verus!
