//! The executor of the privileged instructions.

use vstd::prelude::*;
use crate::cause::{Cause, Exception, ExceptionReturn};
use crate::csr::ControlAndStatusRegister;
use crate::decoder::privileged::PrivilegedInstruction;
use crate::executor::Executor;
use crate::instruction::privileged::{
    PrivilegedOpcodeB, PrivilegedOpcodeI, PrivilegedOpcodeJ, PrivilegedOpcodeR, PrivilegedOpcodeS,
    PrivilegedOpcodeU,
};
use crate::instruction::Instruction;
use crate::memory::Memory;
use crate::mode::PrivilegeMode;
use crate::pc::ProgramCounter;
use crate::state::State;
use crate::x::IntegerRegister;

verus! {

pub struct PrivilegedExecutor;

impl Executor for PrivilegedExecutor {
    type OpcodeR = PrivilegedOpcodeR;

    type OpcodeI = PrivilegedOpcodeI;

    type OpcodeS = PrivilegedOpcodeS;

    type OpcodeB = PrivilegedOpcodeB;

    type OpcodeU = PrivilegedOpcodeU;

    type OpcodeJ = PrivilegedOpcodeJ;

    open spec fn admits(instruction: PrivilegedInstruction, state: State) -> bool {
        true
    }

    /// The return from a machine-mode trap asks for the return at machine
    /// level and is an illegal instruction at any other level. An
    /// instruction of another shape does nothing.
    open spec fn outcome(instruction: PrivilegedInstruction, state: State) -> Result<(), Cause> {
        match instruction {
            Instruction::TypeR { opcode: PrivilegedOpcodeR::Mret, .. } => {
                if state.prv == PrivilegeMode::Machine {
                    Err(Cause::ExceptionReturn(ExceptionReturn::Machine))
                } else {
                    Err(Cause::Exception(Exception::IllegalInstruction))
                }
            },
            _ => Ok(()),
        }
    }

    open spec fn effect(instruction: PrivilegedInstruction, state: State) -> State {
        state
    }

    fn accepts(
        instruction: &PrivilegedInstruction,
        prv: &PrivilegeMode,
        pc: &ProgramCounter,
        x: &IntegerRegister,
        csr: &ControlAndStatusRegister,
        memory: &Memory,
    ) -> (yes: bool) {
        true
    }

    fn execute(
        instruction: PrivilegedInstruction,
        prv: &PrivilegeMode,
        pc: &mut ProgramCounter,
        x: &mut IntegerRegister,
        csr: &mut ControlAndStatusRegister,
        memory: &mut Memory,
    ) -> (result: Result<(), Cause>) {
        match instruction {
            Instruction::TypeR { opcode, rd: _, funct3: _, rs1: _, rs2: _, funct7: _ } => {
                match opcode {
                    PrivilegedOpcodeR::Mret => {
                        if *prv == PrivilegeMode::Machine {
                            Err(Cause::ExceptionReturn(ExceptionReturn::Machine))
                        } else {
                            Err(Cause::Exception(Exception::IllegalInstruction))
                        }
                    },
                }
            },
            _ => Ok(()),
        }
    }
}

} // verus!
