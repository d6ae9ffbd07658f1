//! The instruction-set registry of a 6502-family CPU core.
//!
//! Given an opcode byte, the registry says which mnemonic it selects, how many
//! bytes the instruction is recorded with, and how its operand is addressed. It
//! only classifies opcodes: it executes nothing, models no memory and counts no
//! cycles.
//!
//! A [`Registry`] is an ordinary value. Whoever assembles the emulator builds it
//! once with [`Registry::new`] and hands a shared reference to the stage that
//! fetches and decodes; nothing in it can be changed afterwards.

pub mod addressing_mode;
pub mod instruction;
pub mod lemmas;
pub mod registry;
pub mod table;

pub use addressing_mode::AddressingMode;
pub use instruction::Instruction;
pub use registry::{Registry, TableError};
