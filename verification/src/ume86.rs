//! User mode emulator for x86.

pub mod alu;
pub mod cpu;
pub mod flags;
pub mod gpr;
pub mod lazy;
pub mod state;
pub mod types;
pub mod ume;
