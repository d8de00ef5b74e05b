//! A virtual machine for the CHIP-8 instruction set: sixteen registers of
//! one byte, 4096 bytes of memory, a display of 64 by 32 pixels, sixteen
//! keys and two timers.
//!
//! [`emulator::Emulator`] is the machine. Its `cycle` performs one
//! instruction, and is proved to do what [`machine::Machine::step`] says.
//! Around it a program has to keep time, read keys, show the display and
//! sound the tone; the machine does none of that itself.

pub mod alu;
pub mod components;
pub mod computerparts;
pub mod display;
pub mod emulator;
pub mod error;
pub mod font;
pub mod input;
pub mod instructions;
pub mod machine;
pub mod pace;
pub mod quirks;
pub mod text;
