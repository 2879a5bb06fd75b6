//! A verified core for a small 8-bit virtual machine with 4 KiB of memory,
//! sixteen byte registers, a 64x32 monochrome display and a hexadecimal keypad.
pub mod display;
pub mod keyboard;
pub mod ram;
pub mod fault;
pub mod bus;
pub mod instruction;
pub mod cpu;
