//! The executor of the control and status register instructions.

use vstd::prelude::*;
use crate::bitops::MASK_12BIT;
use crate::cause::Cause;
use crate::csr::{is_declared, ControlAndStatusRegister};
use crate::decoder::zicsr::ZicsrInstruction;
use crate::executor::Executor;
use crate::instruction::zicsr::{
    ZicsrOpcodeB, ZicsrOpcodeI, ZicsrOpcodeJ, ZicsrOpcodeR, ZicsrOpcodeS, ZicsrOpcodeU,
};
use crate::instruction::Instruction;
use crate::memory::Memory;
use crate::mode::PrivilegeMode;
use crate::pc::ProgramCounter;
use crate::state::State;
use crate::x::{written, IntegerRegister, REGISTER_COUNT};

verus! {

/// The address of the register that an instruction accesses: the low 12
/// bits of its immediate.
pub open spec fn csr_address(imm: u64) -> u64 {
    imm & MASK_12BIT
}

/// The value that an instruction stores in the addressed register, which
/// held `held`: the swap replaces it by register `rs1`, the set turns on the
/// bits of register `rs1`, and the immediate swap replaces it by the number
/// `rs1` itself.
pub open spec fn stored_value(opcode: ZicsrOpcodeI, held: u64, x: Seq<u64>, rs1: usize) -> u64 {
    match opcode {
        ZicsrOpcodeI::Csrrw => x[rs1 as int],
        ZicsrOpcodeI::Csrrs => held | x[rs1 as int],
        ZicsrOpcodeI::Csrrwi => rs1 as u64,
    }
}

pub struct ZicsrExecutor;

impl Executor for ZicsrExecutor {
    type OpcodeR = ZicsrOpcodeR;

    type OpcodeI = ZicsrOpcodeI;

    type OpcodeS = ZicsrOpcodeS;

    type OpcodeB = ZicsrOpcodeB;

    type OpcodeU = ZicsrOpcodeU;

    type OpcodeJ = ZicsrOpcodeJ;

    open spec fn admits(instruction: ZicsrInstruction, state: State) -> bool {
        match instruction {
            Instruction::TypeI { rd, rs1, imm, .. } => rd < REGISTER_COUNT && rs1 < REGISTER_COUNT
                && is_declared(csr_address(imm)),
            _ => true,
        }
    }

    open spec fn outcome(instruction: ZicsrInstruction, state: State) -> Result<(), Cause> {
        Ok(())
    }

    /// A register access stores the new value in the addressed register and
    /// writes the value that was held there to `rd`. An instruction of
    /// another shape does nothing.
    open spec fn effect(instruction: ZicsrInstruction, state: State) -> State {
        match instruction {
            Instruction::TypeI { opcode, rd, rs1, imm, .. } => {
                let address = csr_address(imm);
                let held = state.csr[address];
                State {
                    x: written(state.x, rd, held),
                    csr: state.csr.insert(address, stored_value(opcode, held, state.x, rs1)),
                    ..state
                }
            },
            _ => state,
        }
    }

    fn accepts(
        instruction: &ZicsrInstruction,
        prv: &PrivilegeMode,
        pc: &ProgramCounter,
        x: &IntegerRegister,
        csr: &ControlAndStatusRegister,
        memory: &Memory,
    ) -> (yes: bool) {
        match instruction {
            Instruction::TypeI { opcode: _, rd, funct3: _, rs1, imm } => *rd < REGISTER_COUNT
                && *rs1 < REGISTER_COUNT && csr.contains(*imm & MASK_12BIT),
            _ => true,
        }
    }

    fn execute(
        instruction: ZicsrInstruction,
        prv: &PrivilegeMode,
        pc: &mut ProgramCounter,
        x: &mut IntegerRegister,
        csr: &mut ControlAndStatusRegister,
        memory: &mut Memory,
    ) -> (result: Result<(), Cause>) {
        match instruction {
            Instruction::TypeI { opcode, rd, funct3: _, rs1, imm } => {
                let held: u64 = match opcode {
                    ZicsrOpcodeI::Csrrw => csr.csrrw(imm & MASK_12BIT, x.read(rs1)),
                    ZicsrOpcodeI::Csrrs => csr.csrrs(imm & MASK_12BIT, x.read(rs1)),
                    ZicsrOpcodeI::Csrrwi => csr.csrrw(imm & MASK_12BIT, rs1 as u64),
                };
                x.write(rd, held);
            },
            _ => (),
        }
        Ok(())
    }
}

} // verus!
