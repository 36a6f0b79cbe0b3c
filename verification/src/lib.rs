//! A virtual machine for an 8-bit instruction set with a 64x32 monochrome
//! display and a sixteen-key keypad.

pub mod cpu;
pub mod display;
pub mod instruction;
pub mod keypad;
pub mod laws;
pub mod machine;
pub mod memory;
pub mod registers;
pub mod timing;
