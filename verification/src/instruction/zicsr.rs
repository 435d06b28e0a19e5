//! Opcode names of the control and status register instructions.
//!
//! The module has instructions of one shape only. For each other shape the
//! opcode type holds the single value `Unassigned`, which no decoder
//! produces.

use vstd::prelude::*;

verus! {

#[derive(Copy, Clone, Debug, PartialEq, Eq, Structural)]
pub enum ZicsrOpcodeR {
    Unassigned,
}

#[derive(Copy, Clone, Debug, PartialEq, Eq, Structural)]
pub enum ZicsrOpcodeI {
    Csrrw,
    Csrrs,
    Csrrwi,
}

#[derive(Copy, Clone, Debug, PartialEq, Eq, Structural)]
pub enum ZicsrOpcodeS {
    Unassigned,
}

#[derive(Copy, Clone, Debug, PartialEq, Eq, Structural)]
pub enum ZicsrOpcodeB {
    Unassigned,
}

#[derive(Copy, Clone, Debug, PartialEq, Eq, Structural)]
pub enum ZicsrOpcodeU {
    Unassigned,
}

#[derive(Copy, Clone, Debug, PartialEq, Eq, Structural)]
pub enum ZicsrOpcodeJ {
    Unassigned,
}

} // verus!
