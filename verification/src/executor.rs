//! The interface that each instruction-set module's executor implements.

use vstd::prelude::*;
use crate::cause::Cause;
use crate::csr::ControlAndStatusRegister;
use crate::instruction::Instruction;
use crate::memory::Memory;
use crate::mode::PrivilegeMode;
use crate::pc::ProgramCounter;
use crate::state::{state_of, State};
use crate::x::IntegerRegister;

pub mod privileged;
pub mod rv32i;
pub mod rv64i;
pub mod zicsr;

verus! {

/// The executor of one instruction-set module. It changes nothing but the
/// state that it is handed.
pub trait Executor {
    type OpcodeR;

    type OpcodeI;

    type OpcodeS;

    type OpcodeB;

    type OpcodeU;

    type OpcodeJ;

    /// Whether the instruction can be executed in `state`: the registers
    /// that it names exist, and so does the memory word or the control and
    /// status register that it accesses.
    spec fn admits(
        instruction: Instruction<
            Self::OpcodeR,
            Self::OpcodeI,
            Self::OpcodeS,
            Self::OpcodeB,
            Self::OpcodeU,
            Self::OpcodeJ,
        >,
        state: State,
    ) -> bool;

    /// What executing the instruction in `state` reports: success, a fault,
    /// or a request to return from a trap.
    spec fn outcome(
        instruction: Instruction<
            Self::OpcodeR,
            Self::OpcodeI,
            Self::OpcodeS,
            Self::OpcodeB,
            Self::OpcodeU,
            Self::OpcodeJ,
        >,
        state: State,
    ) -> Result<(), Cause>;

    /// The state that executing the instruction in `state` leaves.
    spec fn effect(
        instruction: Instruction<
            Self::OpcodeR,
            Self::OpcodeI,
            Self::OpcodeS,
            Self::OpcodeB,
            Self::OpcodeU,
            Self::OpcodeJ,
        >,
        state: State,
    ) -> State;

    /// Tests whether `execute` may be called.
    fn accepts(
        instruction: &Instruction<
            Self::OpcodeR,
            Self::OpcodeI,
            Self::OpcodeS,
            Self::OpcodeB,
            Self::OpcodeU,
            Self::OpcodeJ,
        >,
        prv: &PrivilegeMode,
        pc: &ProgramCounter,
        x: &IntegerRegister,
        csr: &ControlAndStatusRegister,
        memory: &Memory,
    ) -> (yes: bool)
        ensures
            yes == Self::admits(*instruction, state_of(*prv, pc@, x@, csr@, memory@)),
    ;

    fn execute(
        instruction: Instruction<
            Self::OpcodeR,
            Self::OpcodeI,
            Self::OpcodeS,
            Self::OpcodeB,
            Self::OpcodeU,
            Self::OpcodeJ,
        >,
        prv: &PrivilegeMode,
        pc: &mut ProgramCounter,
        x: &mut IntegerRegister,
        csr: &mut ControlAndStatusRegister,
        memory: &mut Memory,
    ) -> (result: Result<(), Cause>)
        requires
            Self::admits(
                instruction,
                state_of(*prv, old(pc)@, old(x)@, old(csr)@, old(memory)@),
            ),
        ensures
            result == Self::outcome(
                instruction,
                state_of(*prv, old(pc)@, old(x)@, old(csr)@, old(memory)@),
            ),
            state_of(*prv, final(pc)@, final(x)@, final(csr)@, final(memory)@) == Self::effect(
                instruction,
                state_of(*prv, old(pc)@, old(x)@, old(csr)@, old(memory)@),
            ),
    ;
}

} // verus!
