//! Trap causes: interrupts, synchronous exceptions, and the control-transfer
//! signal raised by a trap-return instruction.

use vstd::prelude::*;

verus! {

/// The bit that marks a cause register value as an interrupt.
pub const INTERRUPT_BIT: u64 = 0x8000_0000_0000_0000;

#[derive(Copy, Clone, Debug, PartialEq, Eq, Structural)]
pub enum Interrupt {
    UserSoftware,
    SupervisorSoftware,
    MachineSoftware,
    UserTimer,
    SupervisorTimer,
    MachineTimer,
    UserExternal,
    SupervisorExternal,
    MachineExternal,
}

#[derive(Copy, Clone, Debug, PartialEq, Eq, Structural)]
pub enum Exception {
    InstructionAddressMisaligned,
    InstructionAccessFault,
    IllegalInstruction,
    Breakpoint,
    LoadAddressMisaligned,
    LoadAccessFault,
    StoreAddressMisaligned,
    StoreAccessFault,
    EnvironmentCallFromUserMode,
    EnvironmentCallFromSupervisorMode,
    EnvironmentCallFromMachineMode,
    InstructionPageFault,
    LoadPageFault,
    StorePageFault,
}

/// The privilege level whose trap-return instruction was executed.
#[derive(Copy, Clone, Debug, PartialEq, Eq, Structural)]
pub enum ExceptionReturn {
    User,
    Supervisor,
    Machine,
}

/// What an executor reports instead of success. `ExceptionReturn` is a
/// request to leave a trap handler, not a fault: it has no numeric form.
#[derive(Copy, Clone, Debug, PartialEq, Eq, Structural)]
pub enum Cause {
    Interrupt(Interrupt),
    Exception(Exception),
    ExceptionReturn(ExceptionReturn),
}

impl Interrupt {
    /// The interrupt's code, a number below 16.
    pub open spec fn code(self) -> u64 {
        match self {
            Interrupt::UserSoftware => 0,
            Interrupt::SupervisorSoftware => 1,
            Interrupt::MachineSoftware => 3,
            Interrupt::UserTimer => 4,
            Interrupt::SupervisorTimer => 5,
            Interrupt::MachineTimer => 7,
            Interrupt::UserExternal => 8,
            Interrupt::SupervisorExternal => 9,
            Interrupt::MachineExternal => 11,
        }
    }

    /// The value written to a cause register: the code with bit 63 set.
    pub open spec fn primitive(self) -> u64 {
        (INTERRUPT_BIT + self.code()) as u64
    }

    pub fn to_primitive(&self) -> (value: u64)
        ensures
            value == self.primitive(),
            value >> 63 == 1,
            value & 0b1111 == self.code(),
    {
        let value: u64 = match self {
            Interrupt::UserSoftware => 0x8000_0000_0000_0000,
            Interrupt::SupervisorSoftware => 0x8000_0000_0000_0001,
            Interrupt::MachineSoftware => 0x8000_0000_0000_0003,
            Interrupt::UserTimer => 0x8000_0000_0000_0004,
            Interrupt::SupervisorTimer => 0x8000_0000_0000_0005,
            Interrupt::MachineTimer => 0x8000_0000_0000_0007,
            Interrupt::UserExternal => 0x8000_0000_0000_0008,
            Interrupt::SupervisorExternal => 0x8000_0000_0000_0009,
            Interrupt::MachineExternal => 0x8000_0000_0000_000b,
        };
        proof {
            lemma_interrupt_bits(self.code());
        }
        value
    }

    /// Always `true`: bit 63 of the numeric form is set.
    pub fn is_interrupt(&self) -> (yes: bool)
        ensures
            yes,
    {
        self.to_primitive() >> 63 == 1
    }

    pub fn exception_code(&self) -> (code: u64)
        ensures
            code == self.code(),
    {
        self.to_primitive() & 0b1111
    }
}

impl Exception {
    /// The exception's code, a number below 16.
    pub open spec fn code(self) -> u64 {
        match self {
            Exception::InstructionAddressMisaligned => 0,
            Exception::InstructionAccessFault => 1,
            Exception::IllegalInstruction => 2,
            Exception::Breakpoint => 3,
            Exception::LoadAddressMisaligned => 4,
            Exception::LoadAccessFault => 5,
            Exception::StoreAddressMisaligned => 6,
            Exception::StoreAccessFault => 7,
            Exception::EnvironmentCallFromUserMode => 8,
            Exception::EnvironmentCallFromSupervisorMode => 9,
            Exception::EnvironmentCallFromMachineMode => 11,
            Exception::InstructionPageFault => 12,
            Exception::LoadPageFault => 13,
            Exception::StorePageFault => 15,
        }
    }

    /// The value written to a cause register: the code itself.
    pub fn to_primitive(&self) -> (value: u64)
        ensures
            value == self.code(),
            value >> 63 == 0,
            value & 0b1111 == value,
    {
        let value: u64 = match self {
            Exception::InstructionAddressMisaligned => 0,
            Exception::InstructionAccessFault => 1,
            Exception::IllegalInstruction => 2,
            Exception::Breakpoint => 3,
            Exception::LoadAddressMisaligned => 4,
            Exception::LoadAccessFault => 5,
            Exception::StoreAddressMisaligned => 6,
            Exception::StoreAccessFault => 7,
            Exception::EnvironmentCallFromUserMode => 8,
            Exception::EnvironmentCallFromSupervisorMode => 9,
            Exception::EnvironmentCallFromMachineMode => 11,
            Exception::InstructionPageFault => 12,
            Exception::LoadPageFault => 13,
            Exception::StorePageFault => 15,
        };
        proof {
            lemma_exception_bits(value);
        }
        value
    }

    /// Always `false`: bit 63 of the numeric form is clear.
    pub fn is_interrupt(&self) -> (yes: bool)
        ensures
            !yes,
    {
        self.to_primitive() >> 63 == 1
    }

    pub fn exception_code(&self) -> (code: u64)
        ensures
            code == self.code(),
    {
        self.to_primitive() & 0b1111
    }
}

impl Cause {
    /// Whether the cause is a fault, that is, has a numeric form.
    pub open spec fn is_trap(self) -> bool {
        !(self is ExceptionReturn)
    }

    /// The code that selects the cause's bit in a delegation register.
    pub open spec fn code(self) -> u64
        recommends
            self.is_trap(),
    {
        match self {
            Cause::Interrupt(interrupt) => interrupt.code(),
            Cause::Exception(exception) => exception.code(),
            Cause::ExceptionReturn(_) => 0,
        }
    }

    /// The value written to a cause register.
    pub open spec fn primitive(self) -> u64
        recommends
            self.is_trap(),
    {
        match self {
            Cause::Interrupt(interrupt) => interrupt.primitive(),
            Cause::Exception(exception) => exception.code(),
            Cause::ExceptionReturn(_) => 0,
        }
    }

    pub fn to_primitive(&self) -> (value: u64)
        requires
            self.is_trap(),
        ensures
            value == self.primitive(),
            (value >> 63 == 1) <==> (*self is Interrupt),
            value & 0b1111 == self.code(),
    {
        match self {
            Cause::Interrupt(interrupt) => interrupt.to_primitive(),
            Cause::Exception(exception) => exception.to_primitive(),
            Cause::ExceptionReturn(_) => 0,
        }
    }

    pub fn is_interrupt(&self) -> (yes: bool)
        ensures
            yes <==> (*self is Interrupt),
    {
        match self {
            Cause::Interrupt(_) => true,
            _ => false,
        }
    }

    pub fn exception_code(&self) -> (code: u64)
        requires
            self.is_trap(),
        ensures
            code == self.code(),
            code < 16,
    {
        match self {
            Cause::Interrupt(interrupt) => interrupt.to_primitive() & 0b1111,
            Cause::Exception(exception) => exception.to_primitive(),
            Cause::ExceptionReturn(_) => 0,
        }
    }
}

proof fn lemma_interrupt_bits(code: u64)
    by (bit_vector)
    requires
        code < 16,
    ensures
        ((0x8000_0000_0000_0000u64 + code) as u64) >> 63 == 1,
        ((0x8000_0000_0000_0000u64 + code) as u64) & 0b1111 == code,
{
}

proof fn lemma_exception_bits(code: u64)
    by (bit_vector)
    requires
        code < 16,
    ensures
        code >> 63 == 0,
        code & 0b1111 == code,
{
}

} // verus!
