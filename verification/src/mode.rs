//! Privilege levels of the core.

use vstd::prelude::*;

verus! {

/// A privilege level. The numeric form of each level is the value that the
/// hardware stores in the previous-privilege fields of the status registers.
#[derive(Copy, Clone, Debug, PartialEq, Eq, Structural)]
pub enum PrivilegeMode {
    User,
    Supervisor,
    Machine,
}

impl PrivilegeMode {
    /// The hardware encoding of the level: 0, 1 or 3.
    pub open spec fn encoding(self) -> u64 {
        match self {
            PrivilegeMode::User => 0,
            PrivilegeMode::Supervisor => 1,
            PrivilegeMode::Machine => 3,
        }
    }

    /// Whether `mode` is the encoding of some privilege level.
    pub open spec fn is_encoding(mode: u64) -> bool {
        mode == 0 || mode == 1 || mode == 3
    }

    /// The level that `mode` encodes, where it encodes one.
    pub open spec fn of_encoding(mode: u64) -> PrivilegeMode
        recommends
            Self::is_encoding(mode),
    {
        if mode == 0 {
            PrivilegeMode::User
        } else if mode == 1 {
            PrivilegeMode::Supervisor
        } else {
            PrivilegeMode::Machine
        }
    }

    /// The level that `mode` encodes.
    pub fn from_primitive(mode: u64) -> (level: Self)
        requires
            Self::is_encoding(mode),
        ensures
            level == Self::of_encoding(mode),
            level.encoding() == mode,
    {
        if mode == 0 {
            PrivilegeMode::User
        } else if mode == 1 {
            PrivilegeMode::Supervisor
        } else {
            PrivilegeMode::Machine
        }
    }

    /// The hardware encoding of the level.
    pub fn to_primitive(&self) -> (mode: u64)
        ensures
            mode == self.encoding(),
            Self::is_encoding(mode),
    {
        match self {
            PrivilegeMode::User => 0,
            PrivilegeMode::Supervisor => 1,
            PrivilegeMode::Machine => 3,
        }
    }
}

impl Default for PrivilegeMode {
    fn default() -> (level: Self)
        ensures
            level == PrivilegeMode::Machine,
    {
        PrivilegeMode::Machine
    }
}

/// Every privilege level is recovered from its own encoding.
pub proof fn lemma_encoding_round_trip(level: PrivilegeMode)
    ensures
        PrivilegeMode::is_encoding(level.encoding()),
        PrivilegeMode::of_encoding(level.encoding()) == level,
{
}

} // verus!
