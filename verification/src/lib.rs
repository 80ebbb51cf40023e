//! Emulation core for a small two-level teaching computer: a macro
//! instruction set executed by software, built on a microcode control
//! store that carries out each macro instruction as a sequence of
//! register-transfer micro-operations.
//!
//! The crate covers the register file and its status-flag algebra, the
//! addressable memory banks, the macro instruction codec (disassembler
//! and assembler), the microcode stepping engine, and the machine
//! orchestrator that exposes the stepping contract.

pub mod registers;
pub mod memory;
pub mod text;
pub mod parse;
pub mod general;
pub mod micro;
pub mod machine;
pub mod dump;
