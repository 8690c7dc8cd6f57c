//! A CHIP-8 virtual machine: memory, registers, call stack, framebuffer,
//! keypad and timers, advanced one instruction or one timer step at a time.
pub mod emu;
pub mod laws;
pub mod machine;

pub use emu::Emu;
pub use machine::{Fault, Outcome, DISPLAY_SIZE, SCREEN_HEIGHT, SCREEN_WIDTH};
