//! An 8-bit (6502-family) virtual computer: a CPU that executes one
//! micro-step of the in-flight instruction per tick, a shared bus, and a
//! memory manager that routes addresses to pluggable devices (RAM, ROM and
//! fixed-size I/O peripherals).

pub mod addressing;
pub mod bus;
pub mod cpu;
pub mod device;
pub mod factory;
pub mod flags;
pub mod iface;
pub mod mem;
pub mod opcode;
pub mod operations;
pub mod registers;
pub mod system;
