//! A CHIP-8 virtual machine: instruction decoder, register file, memory,
//! monochrome display and the interpreter that ties them together.

pub mod chip8;
pub mod utils;
