//! A CHIP-8 virtual machine whose instruction semantics are stated as
//! contracts over a mathematical model of the machine and proved by Verus.

pub mod chip8;
pub mod clock;
pub mod display;
pub mod error;
pub mod instruction;
pub mod keypad;
pub mod laws;
pub mod machine;
pub mod memory;
pub mod opcodes;
pub mod roms;
pub mod stack;
