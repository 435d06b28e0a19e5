//! Opcode names of the privileged instructions.
//!
//! The module has instructions of one shape only. For each other shape the
//! opcode type holds the single value `Unassigned`, which no decoder
//! produces.

use vstd::prelude::*;

verus! {

#[derive(Copy, Clone, Debug, PartialEq, Eq, Structural)]
pub enum PrivilegedOpcodeR {
    Mret,
}

#[derive(Copy, Clone, Debug, PartialEq, Eq, Structural)]
pub enum PrivilegedOpcodeI {
    Unassigned,
}

#[derive(Copy, Clone, Debug, PartialEq, Eq, Structural)]
pub enum PrivilegedOpcodeS {
    Unassigned,
}

#[derive(Copy, Clone, Debug, PartialEq, Eq, Structural)]
pub enum PrivilegedOpcodeB {
    Unassigned,
}

#[derive(Copy, Clone, Debug, PartialEq, Eq, Structural)]
pub enum PrivilegedOpcodeU {
    Unassigned,
}

#[derive(Copy, Clone, Debug, PartialEq, Eq, Structural)]
pub enum PrivilegedOpcodeJ {
    Unassigned,
}

} // verus!
