//! An x86 user-mode emulator, its instruction decoder, the TEK decompressor and
//! the logic of a small Haribote OS task runner.

pub mod bits;
pub mod haribote;
pub mod hrb;
pub mod ir86;
pub mod tek;
pub mod ume86;
