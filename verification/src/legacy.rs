//! The earlier, simpler CPU generation: an 8-bit data path over a 16-bit
//! address space, one flat memory device with a read-only tail, and a
//! small probe-style instruction set.  It is superseded by the 64-bit,
//! 128-bit-instruction core at the crate root, which keeps its stack
//! protocol, but it remains a complete, verified reference of its own.

pub mod cpu;
pub mod error;
pub mod memory;
