//! The executor of the 64-bit extension of the base integer instruction set.

use vstd::prelude::*;
use crate::bitops::{extend_sign, sign_extended};
use crate::cause::Cause;
use crate::csr::ControlAndStatusRegister;
use crate::decoder::rv64i::Rv64iInstruction;
use crate::executor::Executor;
use crate::instruction::rv64i::{
    Rv64iOpcodeB, Rv64iOpcodeI, Rv64iOpcodeJ, Rv64iOpcodeR, Rv64iOpcodeS, Rv64iOpcodeU,
};
use crate::instruction::Instruction;
use crate::memory::Memory;
use crate::mode::PrivilegeMode;
use crate::pc::ProgramCounter;
use crate::state::State;
use crate::x::{written, IntegerRegister, REGISTER_COUNT};

verus! {

/// The sum of a register value and a 12-bit immediate as the word
/// instructions compute it: added modulo 2^32, then sign-extended from 32
/// bits.
pub open spec fn word_sum(value: u64, imm: u64) -> u64 {
    sign_extended(value.wrapping_add(sign_extended(imm, 12)), 32)
}

pub struct Rv64iExecutor;

impl Executor for Rv64iExecutor {
    type OpcodeR = Rv64iOpcodeR;

    type OpcodeI = Rv64iOpcodeI;

    type OpcodeS = Rv64iOpcodeS;

    type OpcodeB = Rv64iOpcodeB;

    type OpcodeU = Rv64iOpcodeU;

    type OpcodeJ = Rv64iOpcodeJ;

    open spec fn admits(instruction: Rv64iInstruction, state: State) -> bool {
        match instruction {
            Instruction::TypeI { rd, rs1, .. } => rd < REGISTER_COUNT && rs1 < REGISTER_COUNT,
            _ => true,
        }
    }

    open spec fn outcome(instruction: Rv64iInstruction, state: State) -> Result<(), Cause> {
        Ok(())
    }

    /// Add-immediate-word writes the word sum of `rs1` and the immediate to
    /// `rd`. An instruction of another shape does nothing.
    open spec fn effect(instruction: Rv64iInstruction, state: State) -> State {
        match instruction {
            Instruction::TypeI { opcode: Rv64iOpcodeI::Addiw, rd, rs1, imm, .. } => State {
                x: written(state.x, rd, word_sum(state.x[rs1 as int], imm)),
                ..state
            },
            _ => state,
        }
    }

    fn accepts(
        instruction: &Rv64iInstruction,
        prv: &PrivilegeMode,
        pc: &ProgramCounter,
        x: &IntegerRegister,
        csr: &ControlAndStatusRegister,
        memory: &Memory,
    ) -> (yes: bool) {
        match instruction {
            Instruction::TypeI { opcode: _, rd, funct3: _, rs1, imm: _ } => *rd < REGISTER_COUNT
                && *rs1 < REGISTER_COUNT,
            _ => true,
        }
    }

    fn execute(
        instruction: Rv64iInstruction,
        prv: &PrivilegeMode,
        pc: &mut ProgramCounter,
        x: &mut IntegerRegister,
        csr: &mut ControlAndStatusRegister,
        memory: &mut Memory,
    ) -> (result: Result<(), Cause>) {
        match instruction {
            Instruction::TypeI { opcode, rd, funct3: _, rs1, imm } => match opcode {
                Rv64iOpcodeI::Addiw => {
                    let sum: u64 = x.read(rs1).wrapping_add(extend_sign(imm, 12));
                    x.write(rd, extend_sign(sum, 32));
                },
            },
            _ => (),
        }
        Ok(())
    }
}

} // verus!
