//! The integer register file: 32 registers, the first hard-wired to zero.

use vstd::prelude::*;

verus! {

/// The number of integer registers.
pub const REGISTER_COUNT: usize = 32;

pub struct IntegerRegister {
    x: [u64; 32],
}

impl View for IntegerRegister {
    type V = Seq<u64>;

    /// What each of the 32 registers reads as; register 0 reads as zero.
    closed spec fn view(&self) -> Seq<u64> {
        Seq::new(
            32,
            |i: int|
                if i == 0 {
                    0
                } else {
                    self.x@[i]
                },
        )
    }
}

impl IntegerRegister {
    /// The file has 32 registers and the first reads as zero, whatever was
    /// written.
    pub proof fn lemma_shape(&self)
        ensures
            self@.len() == REGISTER_COUNT,
            self@[0] == 0,
    {
    }

    pub fn read(&self, register: usize) -> (value: u64)
        requires
            register < REGISTER_COUNT,
        ensures
            value == self@[register as int],
            register == 0 ==> value == 0,
    {
        if register == 0 {
            0
        } else {
            self.x[register]
        }
    }

    /// Writes `value` to a register; a write to register 0 is discarded.
    pub fn write(&mut self, register: usize, value: u64)
        requires
            register < REGISTER_COUNT,
        ensures
            final(self)@ == written(old(self)@, register, value),
    {
        if register != 0 {
            self.x[register] = value;
        }
        assert(self@ =~= written(old(self)@, register, value));
    }
}

/// The register file `file` after a write of `value` to `register`.
pub open spec fn written(file: Seq<u64>, register: usize, value: u64) -> Seq<u64> {
    if register == 0 {
        file
    } else {
        file.update(register as int, value)
    }
}

impl Default for IntegerRegister {
    /// The file after reset: every register reads as zero.
    fn default() -> (file: Self)
        ensures
            file@ == Seq::new(REGISTER_COUNT as nat, |i: int| 0u64),
    {
        let file = IntegerRegister { x: [0; 32] };
        assert(file@ =~= Seq::new(REGISTER_COUNT as nat, |i: int| 0u64));
        file
    }
}

/// Register 0 is immutable: whatever the file held and whatever is written
/// to register 0, the file is unchanged and register 0 reads as zero.
pub proof fn lemma_register_zero_is_immutable(file: IntegerRegister, value: u64)
    ensures
        written(file@, 0, value) == file@,
        written(file@, 0, value)[0] == 0,
{
    file.lemma_shape();
}

} // verus!
