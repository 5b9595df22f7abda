//! An emulator core for an 8-bit microprocessor and the port-mapped
//! peripherals of a 1970s arcade cabinet: memory, register file, the
//! instruction set, interrupt pacing and the I/O port bank.

pub mod bits;
pub mod cpu;
pub mod engine;
pub mod instructions;
pub mod laws;
pub mod opcode;
pub mod ram;
pub mod timing;
pub mod video;
