//! The architectural state as mathematical values, over which the effect of
//! every instruction and of the trap controller is stated.

use vstd::prelude::*;
use crate::mode::PrivilegeMode;

verus! {

/// The architectural state of the core.
pub struct State {
    /// The current privilege level.
    pub prv: PrivilegeMode,
    /// The program counter.
    pub pc: u64,
    /// What each of the 32 integer registers reads as.
    pub x: Seq<u64>,
    /// The value held at each declared control and status register address.
    pub csr: Map<u64, u64>,
    /// The bytes of memory, the first being the one at the base address.
    pub memory: Seq<u8>,
}

/// The state made of the given parts.
pub open spec fn state_of(
    prv: PrivilegeMode,
    pc: u64,
    x: Seq<u64>,
    csr: Map<u64, u64>,
    memory: Seq<u8>,
) -> State {
    State { prv, pc, x, csr, memory }
}

} // verus!
