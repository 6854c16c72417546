use vstd::prelude::*;

verus! {

/// CPU-local state: accumulator, index registers, stack pointer, status
/// flags, program counter, and two scratch latches (the instruction-data
/// latch `itr` and the latest ALU result `alu`).
#[derive(Clone, Copy, PartialEq, Eq, Structural, Debug)]
pub struct Registers {
    /// Accumulator.
    pub a: u8,
    /// X index register.
    pub x: u8,
    /// Y index register.
    pub y: u8,
    /// Stack pointer.
    pub s: u8,
    /// Status flags: bit 0 carry, bit 1 zero, bit 2 interrupt-disable,
    /// bit 3 decimal, bit 4 break, bit 5 unused, bit 6 overflow,
    /// bit 7 negative. Bit 5 is never read as meaningful.
    pub p: u8,
    /// Program counter.
    pub pc: u16,
    /// Instruction-data latch: holds an operand byte between micro-steps.
    pub itr: u8,
    /// Latest ALU result.
    pub alu: u8,
}

impl Registers {
    pub open spec fn all_zero(self) -> bool {
        self == (Registers { a: 0u8, x: 0u8, y: 0u8, s: 0u8, p: 0u8, pc: 0u16, itr: 0u8, alu: 0u8 })
    }

    pub fn new() -> (r: Registers)
        ensures
            r.all_zero(),
    {
        Registers { a: 0, x: 0, y: 0, s: 0, p: 0, pc: 0, itr: 0, alu: 0 }
    }

    /// Zero every register, aborting whatever the CPU was doing.
    pub fn reset(&mut self)
        ensures
            final(self).all_zero(),
    {
        *self = Registers::new();
    }
}

} // verus!
