//! A CHIP-8 interpreter whose instruction semantics are proved against a
//! mathematical model of the machine.
use vstd::prelude::*;

pub mod instruction;
pub mod machine;
pub mod chip8;
pub mod laws;
mod rng;

pub use chip8::Chip8;
pub use instruction::{Instruction, decode};
pub use machine::Fault;

verus! {

/// Number of addressable bytes of memory.
pub const MEMORY_SIZE: usize = 4096;

/// Number of general-purpose registers.
pub const NUM_REGISTERS: usize = 16;

/// Capacity of the call stack.
pub const STACK_SIZE: usize = 16;

/// Number of keys on the keypad.
pub const NUM_KEYS: usize = 16;

/// Width of the display in pixels.
pub const DISPLAY_WIDTH: usize = 64;

/// Height of the display in pixels.
pub const DISPLAY_HEIGHT: usize = 32;

/// Side of the square block of host pixels that shows one display pixel.
pub const SCALE_FACTOR: usize = 10;

/// Address at which programs are loaded and execution starts.
pub const PROGRAM_START: u16 = 0x200;

} // verus!
