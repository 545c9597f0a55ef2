pub mod bau;
pub mod error;
pub mod instruction;
pub mod legacy;
pub mod cpu;
pub mod memory;
