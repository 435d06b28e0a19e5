//! The executor of the base integer instruction set.

use vstd::prelude::*;
use crate::bitops::{extend_sign, sign_extended, MASK_6BIT};
use crate::cause::{Cause, Exception};
use crate::csr::ControlAndStatusRegister;
use crate::decoder::rv32i::Rv32iInstruction;
use crate::executor::Executor;
use crate::instruction::rv32i::{
    Rv32iOpcodeB, Rv32iOpcodeI, Rv32iOpcodeJ, Rv32iOpcodeR, Rv32iOpcodeS, Rv32iOpcodeU,
};
use crate::instruction::Instruction;
use crate::memory::{with_word, word_in_range, Memory, MEMORY_BASE_ADDRESS};
use crate::mode::PrivilegeMode;
use crate::pc::ProgramCounter;
use crate::state::State;
use crate::x::{written, IntegerRegister, REGISTER_COUNT};

verus! {

/// The exception that an environment call raises at each privilege level.
pub open spec fn environment_call(prv: PrivilegeMode) -> Exception {
    match prv {
        PrivilegeMode::User => Exception::EnvironmentCallFromUserMode,
        PrivilegeMode::Supervisor => Exception::EnvironmentCallFromSupervisorMode,
        PrivilegeMode::Machine => Exception::EnvironmentCallFromMachineMode,
    }
}

/// Whether a branch is taken on the register values `a` and `b`. The order
/// that `Bge` tests is that of two's-complement numbers.
pub open spec fn branch_taken(opcode: Rv32iOpcodeB, a: u64, b: u64) -> bool {
    match opcode {
        Rv32iOpcodeB::Beq => a == b,
        Rv32iOpcodeB::Bne => a != b,
        Rv32iOpcodeB::Bge => a as i64 >= b as i64,
    }
}

/// The address `pc` displaced by an immediate of `nbits` significant bits,
/// taken as a two's-complement number; addresses wrap at 64 bits.
pub open spec fn displaced(pc: u64, imm: u64, nbits: u32) -> u64 {
    pc.wrapping_add_signed(sign_extended(imm, nbits) as i64)
}

/// The address of a store: register `rs1` plus the sign-extended 12-bit
/// immediate, modulo 2^64.
pub open spec fn store_address(x: Seq<u64>, rs1: usize, imm: u64) -> u64 {
    x[rs1 as int].wrapping_add(sign_extended(imm, 12))
}

/// The 20-bit immediate of an upper-immediate instruction, sign-extended
/// and placed above 12 zero bits.
pub open spec fn upper_immediate(imm: u64) -> u64 {
    (sign_extended(imm, 20) << 12) & 0xffff_ffff_ffff_f000
}

pub struct Rv32iExecutor;

impl Executor for Rv32iExecutor {
    type OpcodeR = Rv32iOpcodeR;

    type OpcodeI = Rv32iOpcodeI;

    type OpcodeS = Rv32iOpcodeS;

    type OpcodeB = Rv32iOpcodeB;

    type OpcodeU = Rv32iOpcodeU;

    type OpcodeJ = Rv32iOpcodeJ;

    open spec fn admits(instruction: Rv32iInstruction, state: State) -> bool {
        match instruction {
            Instruction::TypeR { rd, rs1, rs2, .. } => rd < REGISTER_COUNT && rs1 < REGISTER_COUNT
                && rs2 < REGISTER_COUNT,
            Instruction::TypeI { opcode, rd, rs1, .. } => match opcode {
                Rv32iOpcodeI::Slli | Rv32iOpcodeI::Addi => rd < REGISTER_COUNT && rs1
                    < REGISTER_COUNT,
                Rv32iOpcodeI::Fence | Rv32iOpcodeI::Ecall => true,
            },
            Instruction::TypeS { rs1, rs2, imm, .. } => rs1 < REGISTER_COUNT && rs2
                < REGISTER_COUNT && word_in_range(store_address(state.x, rs1, imm)),
            Instruction::TypeB { rs1, rs2, .. } => rs1 < REGISTER_COUNT && rs2 < REGISTER_COUNT,
            Instruction::TypeU { rd, .. } => rd < REGISTER_COUNT,
            Instruction::TypeJ { rd, .. } => rd < REGISTER_COUNT,
        }
    }

    /// Only the environment call fails, with the exception of the current
    /// privilege level.
    open spec fn outcome(instruction: Rv32iInstruction, state: State) -> Result<(), Cause> {
        match instruction {
            Instruction::TypeI { opcode: Rv32iOpcodeI::Ecall, .. } => Err(
                Cause::Exception(environment_call(state.prv)),
            ),
            _ => Ok(()),
        }
    }

    /// Arithmetic is modulo 2^64. The shift takes its amount from the low
    /// six bits of the immediate. The fence and the environment call change
    /// nothing. A store writes the low 32 bits of `rs2`. A taken branch and
    /// the jump displace the program counter; the jump first writes the
    /// address of the next instruction to `rd`.
    open spec fn effect(instruction: Rv32iInstruction, state: State) -> State {
        match instruction {
            Instruction::TypeR { opcode: Rv32iOpcodeR::Add, rd, rs1, rs2, .. } => State {
                x: written(state.x, rd, state.x[rs1 as int].wrapping_add(state.x[rs2 as int])),
                ..state
            },
            Instruction::TypeI { opcode, rd, rs1, imm, .. } => match opcode {
                Rv32iOpcodeI::Slli => State {
                    x: written(state.x, rd, state.x[rs1 as int] << (imm & MASK_6BIT)),
                    ..state
                },
                Rv32iOpcodeI::Addi => State {
                    x: written(
                        state.x,
                        rd,
                        state.x[rs1 as int].wrapping_add(sign_extended(imm, 12)),
                    ),
                    ..state
                },
                Rv32iOpcodeI::Fence | Rv32iOpcodeI::Ecall => state,
            },
            Instruction::TypeS { opcode: Rv32iOpcodeS::Sw, rs1, rs2, imm, .. } => State {
                memory: with_word(
                    state.memory,
                    store_address(state.x, rs1, imm) - MEMORY_BASE_ADDRESS,
                    state.x[rs2 as int] as u32,
                ),
                ..state
            },
            Instruction::TypeB { opcode, rs1, rs2, imm, .. } => if branch_taken(
                opcode,
                state.x[rs1 as int],
                state.x[rs2 as int],
            ) {
                State { pc: displaced(state.pc, imm, 13), ..state }
            } else {
                state
            },
            Instruction::TypeU { opcode, rd, imm } => match opcode {
                Rv32iOpcodeU::Lui => State {
                    x: written(state.x, rd, upper_immediate(imm)),
                    ..state
                },
                Rv32iOpcodeU::Auipc => State {
                    x: written(state.x, rd, state.pc.wrapping_add(upper_immediate(imm))),
                    ..state
                },
            },
            Instruction::TypeJ { opcode: Rv32iOpcodeJ::Jal, rd, imm } => State {
                pc: displaced(state.pc, imm, 21),
                x: written(state.x, rd, state.pc.wrapping_add(4)),
                ..state
            },
        }
    }

    fn accepts(
        instruction: &Rv32iInstruction,
        prv: &PrivilegeMode,
        pc: &ProgramCounter,
        x: &IntegerRegister,
        csr: &ControlAndStatusRegister,
        memory: &Memory,
    ) -> (yes: bool) {
        match instruction {
            Instruction::TypeR { opcode: _, rd, funct3: _, rs1, rs2, funct7: _ } => *rd
                < REGISTER_COUNT && *rs1 < REGISTER_COUNT && *rs2 < REGISTER_COUNT,
            Instruction::TypeI { opcode, rd, funct3: _, rs1, imm: _ } => match opcode {
                Rv32iOpcodeI::Slli | Rv32iOpcodeI::Addi => *rd < REGISTER_COUNT && *rs1
                    < REGISTER_COUNT,
                Rv32iOpcodeI::Fence | Rv32iOpcodeI::Ecall => true,
            },
            Instruction::TypeS { opcode: _, funct3: _, rs1, rs2, imm } => {
                if *rs1 < REGISTER_COUNT && *rs2 < REGISTER_COUNT {
                    let address: u64 = x.read(*rs1).wrapping_add(extend_sign(*imm, 12));
                    memory.contains_word(address)
                } else {
                    false
                }
            },
            Instruction::TypeB { opcode: _, funct3: _, rs1, rs2, imm: _ } => *rs1 < REGISTER_COUNT
                && *rs2 < REGISTER_COUNT,
            Instruction::TypeU { opcode: _, rd, imm: _ } => *rd < REGISTER_COUNT,
            Instruction::TypeJ { opcode: _, rd, imm: _ } => *rd < REGISTER_COUNT,
        }
    }

    fn execute(
        instruction: Rv32iInstruction,
        prv: &PrivilegeMode,
        pc: &mut ProgramCounter,
        x: &mut IntegerRegister,
        csr: &mut ControlAndStatusRegister,
        memory: &mut Memory,
    ) -> (result: Result<(), Cause>) {
        match instruction {
            Instruction::TypeR { opcode, rd, funct3: _, rs1, rs2, funct7: _ } => match opcode {
                Rv32iOpcodeR::Add => {
                    x.write(rd, x.read(rs1).wrapping_add(x.read(rs2)));
                    Ok(())
                },
            },
            Instruction::TypeI { opcode, rd, funct3: _, rs1, imm } => match opcode {
                Rv32iOpcodeI::Slli => {
                    let shamt: u64 = imm & MASK_6BIT;
                    assert(shamt < 64) by (bit_vector)
                        requires
                            shamt == imm & 0b111111,
                    ;
                    x.write(rd, x.read(rs1) << shamt);
                    Ok(())
                },
                Rv32iOpcodeI::Addi => {
                    x.write(rd, x.read(rs1).wrapping_add(extend_sign(imm, 12)));
                    Ok(())
                },
                Rv32iOpcodeI::Fence => Ok(()),
                Rv32iOpcodeI::Ecall => match prv {
                    PrivilegeMode::User => Err(
                        Cause::Exception(Exception::EnvironmentCallFromUserMode),
                    ),
                    PrivilegeMode::Supervisor => Err(
                        Cause::Exception(Exception::EnvironmentCallFromSupervisorMode),
                    ),
                    PrivilegeMode::Machine => Err(
                        Cause::Exception(Exception::EnvironmentCallFromMachineMode),
                    ),
                },
            },
            Instruction::TypeS { opcode, funct3: _, rs1, rs2, imm } => match opcode {
                Rv32iOpcodeS::Sw => {
                    let address: u64 = x.read(rs1).wrapping_add(extend_sign(imm, 12));
                    let value: u32 = #[verifier::truncate]
                    (x.read(rs2) as u32);
                    memory.store(address, value);
                    Ok(())
                },
            },
            Instruction::TypeB { opcode, funct3: _, rs1, rs2, imm } => {
                let a: u64 = x.read(rs1);
                let b: u64 = x.read(rs2);
                let taken: bool = match opcode {
                    Rv32iOpcodeB::Beq => a == b,
                    Rv32iOpcodeB::Bne => a != b,
                    Rv32iOpcodeB::Bge => (a as i64) >= (b as i64),
                };
                if taken {
                    pc.jumpr(extend_sign(imm, 13) as i64);
                }
                Ok(())
            },
            Instruction::TypeU { opcode, rd, imm } => match opcode {
                Rv32iOpcodeU::Lui => {
                    x.write(rd, (extend_sign(imm, 20) << 12) & 0xffff_ffff_ffff_f000);
                    Ok(())
                },
                Rv32iOpcodeU::Auipc => {
                    let upper: u64 = (extend_sign(imm, 20) << 12) & 0xffff_ffff_ffff_f000;
                    x.write(rd, pc.read().wrapping_add(upper));
                    Ok(())
                },
            },
            Instruction::TypeJ { opcode, rd, imm } => match opcode {
                Rv32iOpcodeJ::Jal => {
                    x.write(rd, pc.read().wrapping_add(4));
                    pc.jumpr(extend_sign(imm, 21) as i64);
                    Ok(())
                },
            },
        }
    }
}

} // verus!
