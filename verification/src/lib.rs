//! A functional simulator for a small RISC-V core: instruction decoding,
//! execution against an architectural state, and trap delegation between
//! privilege levels.

pub mod bitops;
pub mod cause;
pub mod csr;
pub mod decoder;
pub mod executor;
pub mod instruction;
pub mod memory;
pub mod mode;
pub mod pc;
pub mod simulator;
pub mod state;
pub mod trap_handler;
pub mod x;
