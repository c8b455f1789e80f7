//! A small virtual machine: 4096 bytes of memory, sixteen 8-bit registers,
//! an index register, a program counter and a 64x32 monochrome framebuffer
//! that lives in the top 256 bytes of memory.
//!
//! `machine` holds the mathematical model of the machine and of one
//! execution step, `interpreter` the executable machine, `theorems` the laws
//! that hold of every step, `display` the framebuffer as a picture and
//! `disassembly` the instruction words as mnemonics.

pub mod disassembly;
pub mod display;
pub mod interpreter;
pub mod machine;
pub mod theorems;

pub use interpreter::{CapacityExceeded, Interpreter};
pub use machine::{Fault, Machine};
