//! Operand descriptors and their decoding from the instruction stream.
//!
//! The first byte of an operand selects its addressing mode:
//! - `0xxx_xxxx`: an immediate held in the low seven bits;
//! - `1100_xxxx`: a register, its index in the low four bits;
//! - `1000_00ww`: an immediate of width `ww`, whose bytes follow;
//! - `1000_01ww`: a frame slot, whose index of width `ww` follows;
//! - `1000_1kww`: indirect through a direct operand;
//! - `1001_0kww`: the same, incrementing the direct operand after the access;
//! - `1001_1kww`: the same, decrementing the direct operand before the access.
//!
//! For the indirect forms `k` picks the direct operand that follows: 0 for a
//! register (one index byte), 1 for a frame slot (a four-byte index).
use crate::memory::{DataWidth, Memory, fits, read_result};
use crate::utils::{CpuPanic, CpuResult, ProgramCounter, ok_value};
use vstd::prelude::*;

verus! {

/// A register or frame-local slot of the current frame.
#[derive(Debug, Clone, Copy, PartialEq, Eq)]
pub enum DirectAddress {
    Register(usize),
    Frame(usize),
}

/// A decoded operand.
#[derive(Debug, Clone, Copy, PartialEq, Eq)]
pub enum Location {
    Immediate(u32),
    Direct(DirectAddress),
    Indirect(DirectAddress, DataWidth),
    IndirectPostIncrement(DirectAddress, DataWidth),
    IndirectPreDecrement(DirectAddress, DataWidth),
}

impl Location {
    /// The width of a value written to this operand: a register or frame slot
    /// holds a word, an indirect operand names its own width.
    pub open spec fn spec_width(self) -> DataWidth {
        match self {
            Location::Indirect(_, w) => w,
            Location::IndirectPostIncrement(_, w) => w,
            Location::IndirectPreDecrement(_, w) => w,
            _ => DataWidth::Word,
        }
    }

    pub fn width(&self) -> (r: DataWidth)
        ensures
            r == self.spec_width(),
    {
        match self {
            Location::Indirect(_, w) => *w,
            Location::IndirectPostIncrement(_, w) => *w,
            Location::IndirectPreDecrement(_, w) => *w,
            _ => DataWidth::Word,
        }
    }
}

/// The width selected by the two low bits of an opcode byte.
pub open spec fn width_field(opcode: u8) -> DataWidth {
    if opcode & 3 == 0 {
        DataWidth::Byte
    } else if opcode & 3 == 1 {
        DataWidth::Short
    } else {
        DataWidth::Word
    }
}

impl DataWidth {
    /// Gets the data width from the last two bits of the passed byte.
    pub fn decode(opcode: u8) -> (r: DataWidth)
        ensures
            r == width_field(opcode),
    {
        let field = opcode & 3;
        if field == 0 {
            DataWidth::Byte
        } else if field == 1 {
            DataWidth::Short
        } else {
            DataWidth::Word
        }
    }
}

/// The byte at `address`, if it lies inside memory.
pub open spec fn byte_at(mem: Seq<u8>, address: u32) -> Option<u8> {
    if fits(mem, DataWidth::Byte, address) {
        Some(mem[address as int])
    } else {
        None
    }
}

/// Taking the next byte of the stream at `pc`: the byte, and the program
/// counter after it. Where the program counter cannot move past the byte
/// without passing `u32::MAX`, this is a fault and it stays where it was.
pub open spec fn fetched_byte(mem: Seq<u8>, pc: u32) -> (Option<u8>, u32) {
    if pc + 1 <= u32::MAX {
        (byte_at(mem, pc), (pc + 1) as u32)
    } else {
        (None, pc)
    }
}

/// Taking the next big-endian value of `width` from the stream at `pc`, in the
/// same way as `fetched_byte`.
pub open spec fn fetched(mem: Seq<u8>, pc: u32, width: DataWidth) -> (Option<u32>, u32) {
    if pc + width.spec_size() <= u32::MAX {
        (read_result(mem, width, pc), (pc + width.spec_size()) as u32)
    } else {
        (None, pc)
    }
}

/// Decoding the direct operand of an indirect form: the operand and the
/// program counter after it.
pub open spec fn decode_direct(mem: Seq<u8>, pc: u32, opcode: u8) -> (Option<DirectAddress>, u32) {
    if opcode & 4 == 0 {
        match fetched_byte(mem, pc) {
            (Some(index), after) => (Some(DirectAddress::Register(index as usize)), after),
            (None, after) => (None, after),
        }
    } else {
        match fetched(mem, pc, DataWidth::Word) {
            (Some(index), after) => (Some(DirectAddress::Frame(index as usize)), after),
            (None, after) => (None, after),
        }
    }
}

/// Decoding an operand at `pc`: the operand, or `None` on a fault, and the
/// program counter after the bytes consumed. Patterns are tried in order.
#[verifier::opaque]
pub open spec fn decode_location(mem: Seq<u8>, pc: u32) -> (Option<Location>, u32) {
    let (first, next) = fetched_byte(mem, pc);
    match first {
        None => (None, next),
        Some(op) => {
            let width = width_field(op);
            let (literal, after_literal) = fetched(mem, next, width);
            let (direct, after_direct) = decode_direct(mem, next, op);
            if op & 0x80 == 0 {
                (Some(Location::Immediate((op & 0x7f) as u32)), next)
            } else if op & 0xf0 == 0xc0 {
                (Some(Location::Direct(DirectAddress::Register((op & 0x0f) as usize))), next)
            } else if op & 0xfc == 0x80 {
                match literal {
                    Some(v) => (Some(Location::Immediate(v)), after_literal),
                    None => (None, after_literal),
                }
            } else if op & 0xfc == 0x84 {
                match literal {
                    Some(v) => (
                        Some(Location::Direct(DirectAddress::Frame(v as usize))),
                        after_literal,
                    ),
                    None => (None, after_literal),
                }
            } else if op & 0xf8 == 0x88 {
                match direct {
                    Some(d) => (Some(Location::Indirect(d, width)), after_direct),
                    None => (None, after_direct),
                }
            } else if op & 0xf8 == 0x90 {
                match direct {
                    Some(d) => (Some(Location::IndirectPostIncrement(d, width)), after_direct),
                    None => (None, after_direct),
                }
            } else if op & 0xf8 == 0x98 {
                match direct {
                    Some(d) => (Some(Location::IndirectPreDecrement(d, width)), after_direct),
                    None => (None, after_direct),
                }
            } else {
                (None, next)
            }
        },
    }
}

/// Number of bytes an operand whose first byte is `op` occupies.
pub open spec fn operand_length(op: u8) -> nat {
    if op & 0x80 == 0 || op & 0xf0 == 0xc0 {
        1
    } else if op & 0xf8 == 0x80 {
        1 + width_field(op).spec_size()
    } else if op & 0x04 == 0 {
        2
    } else {
        5
    }
}

/// Takes the next byte of the stream through the program counter.
pub fn fetch_byte(memory: &Memory, pc: &mut ProgramCounter) -> (r: CpuResult<u8>)
    ensures
        (ok_value(r), final(pc).address) == fetched_byte(memory@, old(pc).address),
{
    if pc.address == u32::MAX {
        return Err(CpuPanic::new());
    }
    memory.read_byte(pc.advance())
}

/// Takes the next big-endian value of `width` through the program counter.
pub fn fetch(memory: &Memory, pc: &mut ProgramCounter, width: DataWidth) -> (r: CpuResult<u32>)
    ensures
        (ok_value(r), final(pc).address) == fetched(memory@, old(pc).address, width),
{
    let size = width.size() as u32;
    if pc.address > u32::MAX - size {
        return Err(CpuPanic::new());
    }
    memory.read_width(width, pc.advance_n(size))
}

fn read_direct(memory: &Memory, pc: &mut ProgramCounter, opcode: u8) -> (r: CpuResult<
    DirectAddress,
>)
    ensures
        (ok_value(r), final(pc).address) == decode_direct(memory@, old(pc).address, opcode),
{
    if opcode & 4 == 0 {
        let index = fetch_byte(memory, pc)?;
        Ok(DirectAddress::Register(index as usize))
    } else {
        let index = fetch(memory, pc, DataWidth::Word)?;
        Ok(DirectAddress::Frame(index as usize))
    }
}

impl Location {
    /// Decodes one operand, consuming its bytes through the program counter.
    pub fn decode(memory: &Memory, pc: &mut ProgramCounter) -> (r: CpuResult<Location>)
        ensures
            (ok_value(r), final(pc).address) == decode_location(memory@, old(pc).address),
    {
        proof {
            reveal(decode_location);
        }
        let op = fetch_byte(memory, pc)?;
        let width = DataWidth::decode(op);
        if op & 0x80 == 0 {
            Ok(Location::Immediate((op & 0x7f) as u32))
        } else if op & 0xf0 == 0xc0 {
            Ok(Location::Direct(DirectAddress::Register((op & 0x0f) as usize)))
        } else if op & 0xfc == 0x80 {
            let v = fetch(memory, pc, width)?;
            Ok(Location::Immediate(v))
        } else if op & 0xfc == 0x84 {
            let v = fetch(memory, pc, width)?;
            Ok(Location::Direct(DirectAddress::Frame(v as usize)))
        } else if op & 0xf8 == 0x88 {
            let d = read_direct(memory, pc, op)?;
            Ok(Location::Indirect(d, width))
        } else if op & 0xf8 == 0x90 {
            let d = read_direct(memory, pc, op)?;
            Ok(Location::IndirectPostIncrement(d, width))
        } else if op & 0xf8 == 0x98 {
            let d = read_direct(memory, pc, op)?;
            Ok(Location::IndirectPreDecrement(d, width))
        } else {
            Err(CpuPanic::new())
        }
    }
}

} // verus!

verus! {

/// A successfully decoded operand consumes exactly `operand_length` of its
/// first byte, all of them inside memory; the program counter never wraps.
/// An operand whose announced bytes run past memory or past `u32::MAX` thus
/// fails to decode.
pub proof fn lemma_decode_location_length(mem: Seq<u8>, pc: u32)
    requires
        decode_location(mem, pc).0 is Some,
    ensures
        decode_location(mem, pc).1 == pc + operand_length(mem[pc as int]),
        pc + operand_length(mem[pc as int]) <= mem.len(),
{
    reveal(decode_location);
    let op = mem[pc as int];
    assert((op & 0xfc == 0x80 || op & 0xfc == 0x84) <==> op & 0xf8 == 0x80) by (bit_vector);
    assert(op & 0xf8 == 0x88 || op & 0xf8 == 0x90 || op & 0xf8 == 0x98 ==> op & 0x80 != 0 && op
        & 0xf0 != 0xc0 && op & 0xf8 != 0x80) by (bit_vector);
}

} // verus!
