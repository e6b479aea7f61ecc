//! A CHIP-8 virtual machine: opcode decoder, register file, framebuffer,
//! keypad and the execution engine that ties them together.

pub mod bcd;
pub mod display;
pub mod instructions;
pub mod keypad;
pub mod processor;
pub mod registers;
pub mod types;
