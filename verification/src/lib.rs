//! A fetch-decode-execute core for an 8-bit processor with a 16-bit address
//! space.
//!
//! [`CPU`] is the processor state. Its contracts are stated over
//! [`Machine`], the mathematical model of the registers and the memory
//! image: each executable function says which `Machine` it leaves behind.
//! [`OpcodeTable`] maps operation codes to descriptors and routines, and
//! `CPU::run` drives the processor with a budget of cycles, so that every
//! call returns. The module `laws` holds what is proved of the model.

pub mod addressing;
pub mod execute;
pub mod instructions;
pub mod laws;
pub mod machine;
pub mod opcodes;

pub use addressing::AddressingMode;
pub use execute::{CpuError, Status, PROGRAM_SPACE, PROGRAM_START, RESET_VECTOR};
pub use machine::{Machine, CPU, MEMORY_SIZE};
pub use opcodes::{Entry, Handler, Opcode, OpcodeTable};
