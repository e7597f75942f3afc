//! The program counter and the fault value shared by the whole machine.
use vstd::prelude::*;

verus! {

/// The single fault that aborts an instruction: an out-of-bounds memory access,
/// a bad register or frame-slot index, a missing frame, an unknown opcode, a
/// write to an immediate or a division by zero.
#[derive(Debug, Clone, Copy, PartialEq, Eq)]
pub struct CpuPanic {}

impl CpuPanic {
    pub fn new() -> (r: CpuPanic)
        ensures
            r == (CpuPanic {}),
    {
        CpuPanic {}
    }
}

pub type CpuResult<T> = Result<T, CpuPanic>;

/// The value carried by a successful result, if any.
pub open spec fn ok_value<T>(r: CpuResult<T>) -> Option<T> {
    match r {
        Ok(v) => Some(v),
        Err(_) => None,
    }
}

/// Sequential fetch cursor into memory. It only moves forward, and never past
/// `u32::MAX`: the decoders fault instead of moving it there.
#[derive(Debug, Clone, Copy, PartialEq, Eq)]
pub struct ProgramCounter {
    pub address: u32,
}

impl ProgramCounter {
    pub fn new(address: u32) -> (r: ProgramCounter)
        ensures
            r.address == address,
    {
        ProgramCounter { address }
    }

    /// Moves forward one byte and returns the address before the move.
    pub fn advance(&mut self) -> (r: u32)
        requires
            old(self).address < u32::MAX,
        ensures
            r == old(self).address,
            final(self).address == old(self).address + 1,
    {
        let before = self.address;
        self.address = self.address + 1;
        before
    }

    /// Moves forward `amount` bytes and returns the address before the move.
    pub fn advance_n(&mut self, amount: u32) -> (r: u32)
        requires
            old(self).address + amount <= u32::MAX,
        ensures
            r == old(self).address,
            final(self).address == old(self).address + amount,
    {
        let before = self.address;
        self.address = self.address + amount;
        before
    }
}

} // verus!
