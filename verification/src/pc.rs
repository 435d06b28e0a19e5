//! The program counter.

use vstd::prelude::*;
use crate::memory::MEMORY_BASE_ADDRESS;

verus! {

/// The width of one instruction in bytes.
pub const INSTRUCTION_WIDTH: u64 = 4;

pub struct ProgramCounter {
    pc: u64,
}

impl View for ProgramCounter {
    type V = u64;

    /// The address that the counter holds.
    closed spec fn view(&self) -> u64 {
        self.pc
    }
}

impl ProgramCounter {
    pub fn read(&self) -> (address: u64)
        ensures
            address == self@,
    {
        self.pc
    }

    /// Moves on to the next instruction; addresses wrap at 64 bits.
    pub fn increment(&mut self)
        ensures
            final(self)@ == old(self)@.wrapping_add(INSTRUCTION_WIDTH),
    {
        self.pc = self.pc.wrapping_add(INSTRUCTION_WIDTH);
    }

    /// Jumps to an absolute address.
    pub fn jump(&mut self, address: u64)
        ensures
            final(self)@ == address,
    {
        self.pc = address;
    }

    /// Jumps by a signed displacement; addresses wrap at 64 bits.
    pub fn jumpr(&mut self, relative_address: i64)
        ensures
            final(self)@ == old(self)@.wrapping_add_signed(relative_address),
    {
        self.pc = self.pc.wrapping_add_signed(relative_address);
    }
}

impl Default for ProgramCounter {
    /// The counter after reset: the first address of memory.
    fn default() -> (counter: Self)
        ensures
            counter@ == MEMORY_BASE_ADDRESS,
    {
        ProgramCounter { pc: MEMORY_BASE_ADDRESS }
    }
}

} // verus!
