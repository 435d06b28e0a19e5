//! The control and status register file: a fixed set of 12-bit addresses,
//! each holding a 64-bit value, changed only by read-modify-write operations.

use vstd::prelude::*;

verus! {

/// A sub-field of a status register: an interrupt-enable bit, a previous
/// interrupt-enable bit, or a previous-privilege field.
#[derive(Copy, Clone, Debug, PartialEq, Eq, Structural)]
pub enum StatusField {
    Uie,
    Sie,
    Mie,
    Upie,
    Spie,
    Mpie,
    Spp,
    Mpp,
}

impl StatusField {
    /// The position of the field's lowest bit in the status register.
    pub open spec fn lsb(self) -> u32 {
        match self {
            StatusField::Uie => 0,
            StatusField::Sie => 1,
            StatusField::Mie => 3,
            StatusField::Upie => 4,
            StatusField::Spie => 5,
            StatusField::Mpie => 7,
            StatusField::Spp => 8,
            StatusField::Mpp => 11,
        }
    }

    /// The field's bits, before they are shifted into position: `0b11` for
    /// the two-bit field, `0b1` for the others.
    pub open spec fn low_bits(self) -> u64 {
        match self {
            StatusField::Mpp => 0b11,
            _ => 0b1,
        }
    }

    /// The bits of the status register that the field occupies.
    pub open spec fn mask(self) -> u64 {
        self.low_bits() << self.lsb()
    }

    pub fn start(&self) -> (position: u32)
        ensures
            position == self.lsb(),
            position < 12,
    {
        match self {
            StatusField::Uie => 0,
            StatusField::Sie => 1,
            StatusField::Mie => 3,
            StatusField::Upie => 4,
            StatusField::Spie => 5,
            StatusField::Mpie => 7,
            StatusField::Spp => 8,
            StatusField::Mpp => 11,
        }
    }

    pub fn unshifted_mask(&self) -> (bits: u64)
        ensures
            bits == self.low_bits(),
    {
        match self {
            StatusField::Mpp => 0b11,
            _ => 0b1,
        }
    }
}

/// Machine status register.
pub const MSTATUS: u64 = 0x300;

/// Machine exception delegation register.
pub const MEDELEG: u64 = 0x302;

/// Machine interrupt delegation register.
pub const MIDELEG: u64 = 0x303;

/// Machine trap-handler base address.
pub const MTVEC: u64 = 0x305;

/// Machine exception program counter.
pub const MEPC: u64 = 0x341;

/// Machine trap cause.
pub const MCAUSE: u64 = 0x342;

/// Machine bad address or instruction.
pub const MTVAL: u64 = 0x343;

/// Supervisor status register.
pub const SSTATUS: u64 = 0x100;

/// Supervisor exception delegation register.
pub const SEDELEG: u64 = 0x102;

/// Supervisor interrupt delegation register.
pub const SIDELEG: u64 = 0x103;

/// Supervisor trap-handler base address.
pub const STVEC: u64 = 0x105;

/// Supervisor exception program counter.
pub const SEPC: u64 = 0x141;

/// Supervisor trap cause.
pub const SCAUSE: u64 = 0x142;

/// Supervisor bad address or instruction.
pub const STVAL: u64 = 0x143;

/// User status register.
pub const USTATUS: u64 = 0x000;

/// User trap-handler base address.
pub const UTVEC: u64 = 0x005;

/// User exception program counter.
pub const UEPC: u64 = 0x041;

/// User trap cause.
pub const UCAUSE: u64 = 0x042;

/// User bad address or instruction.
pub const UTVAL: u64 = 0x043;

/// The number of registers in the file.
pub const CSR_COUNT: usize = 19;

/// The place of a register in the file, for each address that has one.
pub open spec fn slot(address: u64) -> Option<int> {
    if address == MSTATUS {
        Some(0)
    } else if address == MEDELEG {
        Some(1)
    } else if address == MIDELEG {
        Some(2)
    } else if address == MTVEC {
        Some(3)
    } else if address == MEPC {
        Some(4)
    } else if address == MCAUSE {
        Some(5)
    } else if address == MTVAL {
        Some(6)
    } else if address == SSTATUS {
        Some(7)
    } else if address == SEDELEG {
        Some(8)
    } else if address == SIDELEG {
        Some(9)
    } else if address == STVEC {
        Some(10)
    } else if address == SEPC {
        Some(11)
    } else if address == SCAUSE {
        Some(12)
    } else if address == STVAL {
        Some(13)
    } else if address == USTATUS {
        Some(14)
    } else if address == UTVEC {
        Some(15)
    } else if address == UEPC {
        Some(16)
    } else if address == UCAUSE {
        Some(17)
    } else if address == UTVAL {
        Some(18)
    } else {
        None
    }
}

/// Whether the file has a register at `address`.
pub open spec fn is_declared(address: u64) -> bool {
    slot(address) is Some
}

/// Whether `csr` holds a value at each declared address and at no other.
pub open spec fn is_file(csr: Map<u64, u64>) -> bool {
    forall|a: u64| #[trigger] csr.contains_key(a) <==> is_declared(a)
}

fn slot_of(address: u64) -> (place: Option<usize>)
    ensures
        place is Some <==> is_declared(address),
        place matches Some(i) ==> slot(address) == Some(i as int) && i < CSR_COUNT,
{
    if address == MSTATUS {
        Some(0)
    } else if address == MEDELEG {
        Some(1)
    } else if address == MIDELEG {
        Some(2)
    } else if address == MTVEC {
        Some(3)
    } else if address == MEPC {
        Some(4)
    } else if address == MCAUSE {
        Some(5)
    } else if address == MTVAL {
        Some(6)
    } else if address == SSTATUS {
        Some(7)
    } else if address == SEDELEG {
        Some(8)
    } else if address == SIDELEG {
        Some(9)
    } else if address == STVEC {
        Some(10)
    } else if address == SEPC {
        Some(11)
    } else if address == SCAUSE {
        Some(12)
    } else if address == STVAL {
        Some(13)
    } else if address == USTATUS {
        Some(14)
    } else if address == UTVEC {
        Some(15)
    } else if address == UEPC {
        Some(16)
    } else if address == UCAUSE {
        Some(17)
    } else if address == UTVAL {
        Some(18)
    } else {
        None
    }
}

pub struct ControlAndStatusRegister {
    csr: [u64; 19],
}

impl View for ControlAndStatusRegister {
    type V = Map<u64, u64>;

    /// The file as a map from each declared address to the value held there.
    closed spec fn view(&self) -> Map<u64, u64> {
        Map::new(|a: u64| is_declared(a), |a: u64| self.csr@[slot(a).unwrap()])
    }
}

impl ControlAndStatusRegister {
    /// The addresses of the file are the declared ones, whatever it holds.
    pub proof fn lemma_addresses(&self)
        ensures
            is_file(self@),
            self@.dom().finite(),
    {
        let declared = set![
            MSTATUS, MEDELEG, MIDELEG, MTVEC, MEPC, MCAUSE, MTVAL, SSTATUS, SEDELEG, SIDELEG,
            STVEC, SEPC, SCAUSE, STVAL, USTATUS, UTVEC, UEPC, UCAUSE, UTVAL
        ];
        assert(self@.dom() =~= declared);
    }

    pub fn contains(&self, address: u64) -> (yes: bool)
        ensures
            yes == self@.contains_key(address),
            yes == is_declared(address),
    {
        slot_of(address).is_some()
    }

    /// The value held at a declared address.
    pub fn read(&self, address: u64) -> (value: u64)
        requires
            is_declared(address),
        ensures
            value == self@[address],
    {
        match slot_of(address) {
            Some(i) => self.csr[i],
            None => 0,
        }
    }

    /// Replaces the value held at a declared address.
    pub fn write(&mut self, address: u64, value: u64)
        requires
            is_declared(address),
        ensures
            final(self)@ == old(self)@.insert(address, value),
    {
        match slot_of(address) {
            Some(i) => {
                self.csr[i] = value;
            },
            None => {},
        }
        assert(self@ =~= old(self)@.insert(address, value));
    }

    /// Atomic read and write: stores `value` and returns what was held.
    pub fn csrrw(&mut self, address: u64, value: u64) -> (previous: u64)
        requires
            is_declared(address),
        ensures
            previous == old(self)@[address],
            final(self)@ == old(self)@.insert(address, value),
    {
        let t = self.read(address);
        self.write(address, value);
        t
    }

    /// Atomic read and set: turns on the bits of `value` and returns what
    /// was held.
    pub fn csrrs(&mut self, address: u64, value: u64) -> (previous: u64)
        requires
            is_declared(address),
        ensures
            previous == old(self)@[address],
            final(self)@ == old(self)@.insert(address, previous | value),
    {
        let t = self.read(address);
        self.write(address, t | value);
        t
    }

    /// Atomic read and clear: turns off the bits of `value` and returns what
    /// was held.
    pub fn csrrc(&mut self, address: u64, value: u64) -> (previous: u64)
        requires
            is_declared(address),
        ensures
            previous == old(self)@[address],
            final(self)@ == old(self)@.insert(address, previous & !value),
    {
        let t = self.read(address);
        self.write(address, t & !value);
        t
    }
}

/// The file in which every register holds zero.
pub open spec fn zeroed_file() -> Map<u64, u64> {
    Map::new(|a: u64| is_declared(a), |a: u64| 0u64)
}

impl Default for ControlAndStatusRegister {
    /// The file after reset: every register holds zero.
    fn default() -> (file: Self)
        ensures
            file@ == zeroed_file(),
    {
        let file = ControlAndStatusRegister { csr: [0; 19] };
        assert(file@ =~= zeroed_file());
        file
    }
}

/// Atomic set only turns bits on: after `csrrs` with `mask` on a file
/// `before`, the register at `address` holds its earlier value with the bits
/// of `mask` set, and every bit outside `mask` is as it was.
pub proof fn lemma_set_only_turns_bits_on(before: Map<u64, u64>, address: u64, mask: u64)
    requires
        is_file(before),
        is_declared(address),
    ensures
        ({
            let after = before.insert(address, before[address] | mask);
            &&& after[address] == before[address] | mask
            &&& after[address] & mask == mask
            &&& after[address] & !mask == before[address] & !mask
        }),
{
    let held = before[address];
    assert((held | mask) & mask == mask && (held | mask) & !mask == held & !mask) by (bit_vector);
}

/// Atomic clear only turns bits off: after `csrrc` with `mask` on a file
/// `before`, the register at `address` holds its earlier value with the bits
/// of `mask` cleared, and every bit outside `mask` is as it was.
pub proof fn lemma_clear_only_turns_bits_off(before: Map<u64, u64>, address: u64, mask: u64)
    requires
        is_file(before),
        is_declared(address),
    ensures
        ({
            let after = before.insert(address, before[address] & !mask);
            &&& after[address] == before[address] & !mask
            &&& after[address] & mask == 0
            &&& after[address] & !mask == before[address] & !mask
        }),
{
    let held = before[address];
    assert((held & !mask) & mask == 0 && (held & !mask) & !mask == held & !mask) by (bit_vector);
}

} // verus!
