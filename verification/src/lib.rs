//! An 8-bit register machine: an arithmetic-logic unit with carry, zero and
//! negative flags, a control unit that interprets one decoded instruction at
//! a time against registers, memory and a program counter, a driver loop, and
//! a loader for the textual program format.

pub mod alu;
pub mod driver;
pub mod reader;
pub mod yolorisc;
