//! An interpreter for the CHIP-8 virtual machine: machine state, instruction
//! decoding and a verified fetch-decode-execute step.

pub mod engine;
pub mod instruction;
pub mod laws;
pub mod machine;
pub mod pacing;
pub mod semantics;

pub use engine::{coord, execute, execute_with, fetch};
pub use instruction::{decode, Instruction};
pub use machine::{Cpu, LoadError, Machine};
pub use pacing::sleep_millis;
