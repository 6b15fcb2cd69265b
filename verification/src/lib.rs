//! A minimal virtual CPU: four byte-wide registers, a 16-bit instruction
//! pointer, 64 KiB of memory shared by code and data, a sticky condition
//! flag, and a monotonic halt flag. Every byte decodes to an instruction,
//! all arithmetic wraps, and programs may overwrite their own instruction
//! stream.

pub mod machine;
pub mod opcode;
pub mod runtime;
