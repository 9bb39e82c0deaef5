//! An interpreter for the NES variant of the 6502 processor, over an address-decoded memory bus.
//!
//! `bus` decodes the 16-bit address space, `opcodes` describes each official opcode, `semantics`
//! states what every instruction does to the architectural state, and `cpu` runs programs and is
//! proved to follow those statements.
pub mod bus;
pub mod cpu;
pub mod flags;
pub mod opcodes;
pub mod semantics;
