//! Opcode names of the 64-bit extension of the base integer instruction set.
//!
//! The module has instructions of one shape only. For each other shape the
//! opcode type holds the single value `Unassigned`, which no decoder
//! produces.

use vstd::prelude::*;

verus! {

#[derive(Copy, Clone, Debug, PartialEq, Eq, Structural)]
pub enum Rv64iOpcodeR {
    Unassigned,
}

#[derive(Copy, Clone, Debug, PartialEq, Eq, Structural)]
pub enum Rv64iOpcodeI {
    Addiw,
}

#[derive(Copy, Clone, Debug, PartialEq, Eq, Structural)]
pub enum Rv64iOpcodeS {
    Unassigned,
}

#[derive(Copy, Clone, Debug, PartialEq, Eq, Structural)]
pub enum Rv64iOpcodeB {
    Unassigned,
}

#[derive(Copy, Clone, Debug, PartialEq, Eq, Structural)]
pub enum Rv64iOpcodeU {
    Unassigned,
}

#[derive(Copy, Clone, Debug, PartialEq, Eq, Structural)]
pub enum Rv64iOpcodeJ {
    Unassigned,
}

} // verus!
