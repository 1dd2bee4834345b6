//! Intermediate representation for x86 instructions.
//!
//! This part decodes x86 instructions and converts them into an intermediate
//! representation. The IR is normalized, so the encoding an instruction had cannot always
//! be reconstructed from it.

pub mod decoder;
pub mod encoding;
pub mod fetch;
pub mod ir;
pub mod sib;
pub mod types;
