//! Opcode names of the base integer instruction set.

use vstd::prelude::*;

verus! {

#[derive(Copy, Clone, Debug, PartialEq, Eq, Structural)]
pub enum Rv32iOpcodeR {
    Add,
}

#[derive(Copy, Clone, Debug, PartialEq, Eq, Structural)]
pub enum Rv32iOpcodeI {
    Slli,
    Addi,
    Fence,
    Ecall,
}

#[derive(Copy, Clone, Debug, PartialEq, Eq, Structural)]
pub enum Rv32iOpcodeS {
    Sw,
}

#[derive(Copy, Clone, Debug, PartialEq, Eq, Structural)]
pub enum Rv32iOpcodeB {
    Beq,
    Bne,
    Bge,
}

#[derive(Copy, Clone, Debug, PartialEq, Eq, Structural)]
pub enum Rv32iOpcodeU {
    Lui,
    Auipc,
}

#[derive(Copy, Clone, Debug, PartialEq, Eq, Structural)]
pub enum Rv32iOpcodeJ {
    Jal,
}

} // verus!
