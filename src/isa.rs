//! The register instruction set: arithmetic, comparisons, and decoding of
//! whole instructions from the stream.
//!
//! Opcode families, tried in this order (the first that matches wins):
//! - `0000_0000`: no-op;
//! - `0000_0001`: move, source then destination operand;
//! - `0000_1ooo`: arithmetic `ooo` (add, sub, mul, div, rem), two sources
//!   then a destination;
//! - `0001_0000`: unconditional jump to the big-endian word that follows;
//! - `0001_0ccc`: conditional jump on comparison `ccc` (==, !=, <, <=, >=, >),
//!   two operands then the big-endian target word.
//!
//! A family member with an undefined operator or comparison is an unknown
//! opcode, as is every byte that no family matches.
//!
//! Arithmetic works at the width of its destination operand: a word for a
//! register or frame slot, the operand's own width for an indirect one.
use crate::location::{Location, decode_location, fetch, fetch_byte, fetched, fetched_byte};
use crate::memory::{DataWidth, Memory, lemma_bitmask_is_mod};
use crate::utils::{CpuPanic, CpuResult, ProgramCounter, ok_value};
use vstd::prelude::*;

verus! {

/// An unsigned arithmetic operation.
#[derive(Debug, Clone, Copy, PartialEq, Eq)]
pub enum ArithOp {
    Add,
    Sub,
    Mul,
    Div,
    Rem,
}

impl ArithOp {
    /// The result of the operation at `width`: the exact result on the full
    /// operands, reduced modulo the width's modulus; division or remainder by
    /// zero has no result.
    pub open spec fn spec_apply(self, width: DataWidth, a: u32, b: u32) -> Option<u32> {
        let m = width.modulus();
        match self {
            ArithOp::Add => Some(((a + b) % m) as u32),
            ArithOp::Sub => Some(((a - b) % m) as u32),
            ArithOp::Mul => Some(((a * b) % m) as u32),
            ArithOp::Div => if b == 0 {
                None
            } else {
                Some(((a / b) as int % m) as u32)
            },
            ArithOp::Rem => if b == 0 {
                None
            } else {
                Some(((a % b) as int % m) as u32)
            },
        }
    }

    pub fn apply(&self, width: DataWidth, a: u32, b: u32) -> (r: Option<u32>)
        ensures
            r == self.spec_apply(width, a, b),
    {
        let mask = width.bitmask();
        match self {
            ArithOp::Add => {
                let t = a.wrapping_add(b);
                proof {
                    lemma_wrapped(a + b, t);
                    lemma_wrap_then_mask(width, a + b, t);
                }
                Some(t & mask)
            },
            ArithOp::Sub => {
                let t = a.wrapping_sub(b);
                proof {
                    lemma_wrapped(a - b, t);
                    lemma_wrap_then_mask(width, a - b, t);
                }
                Some(t & mask)
            },
            ArithOp::Mul => {
                let t = a.wrapping_mul(b);
                proof {
                    lemma_wrap_then_mask(width, a * b, t);
                }
                Some(t & mask)
            },
            ArithOp::Div => if b == 0 {
                None
            } else {
                let t = a / b;
                proof {
                    lemma_bitmask_is_mod(width, t);
                }
                Some(t & mask)
            },
            ArithOp::Rem => if b == 0 {
                None
            } else {
                let t = a % b;
                proof {
                    lemma_bitmask_is_mod(width, t);
                }
                Some(t & mask)
            },
        }
    }
}

/// A wrapped 32-bit result within one wrap of the exact one is the exact
/// result modulo 2^32.
proof fn lemma_wrapped(t: int, r: u32)
    requires
        -0x1_0000_0000 < t < 0x2_0000_0000,
        r == t || r == t - 0x1_0000_0000 || r == t + 0x1_0000_0000,
    ensures
        r == t % 0x1_0000_0000,
{
    let m = 0x1_0000_0000int;
    if r == t - m {
        vstd::arithmetic::div_mod::lemma_mod_sub_multiples_vanish(t, m);
    } else if r == t + m {
        vstd::arithmetic::div_mod::lemma_mod_add_multiples_vanish(t, m);
    }
    vstd::arithmetic::div_mod::lemma_small_mod(r as nat, m as nat);
}

/// Masking a result that is exact modulo 2^32 gives the exact result modulo
/// the width's modulus.
proof fn lemma_wrap_then_mask(width: DataWidth, t: int, r: u32)
    requires
        r == t % 0x1_0000_0000,
    ensures
        (r & width.spec_bitmask()) as int == t % width.modulus(),
{
    let m = width.modulus();
    lemma_bitmask_is_mod(width, r);
    let k = 0x1_0000_0000int / m;
    assert(m * k == 0x1_0000_0000);
    vstd::arithmetic::div_mod::lemma_mod_mod(t, m, k);
}

/// A comparison of two unsigned values.
#[derive(Debug, Clone, Copy, PartialEq, Eq)]
pub enum Comparison {
    Equal,
    NotEqual,
    Less,
    LessOrEqual,
    GreaterOrEqual,
    Greater,
}

impl Comparison {
    pub open spec fn spec_holds(self, a: u32, b: u32) -> bool {
        match self {
            Comparison::Equal => a == b,
            Comparison::NotEqual => a != b,
            Comparison::Less => a < b,
            Comparison::LessOrEqual => a <= b,
            Comparison::GreaterOrEqual => a >= b,
            Comparison::Greater => a > b,
        }
    }

    pub fn holds(&self, a: u32, b: u32) -> (r: bool)
        ensures
            r == self.spec_holds(a, b),
    {
        match self {
            Comparison::Equal => a == b,
            Comparison::NotEqual => a != b,
            Comparison::Less => a < b,
            Comparison::LessOrEqual => a <= b,
            Comparison::GreaterOrEqual => a >= b,
            Comparison::Greater => a > b,
        }
    }
}

} // verus!

verus! {

/// A fully decoded instruction of the register instruction set.
#[derive(Debug, Clone, Copy, PartialEq, Eq)]
pub enum Instruction {
    Nop,
    Move { source: Location, dest: Location },
    Arith { op: ArithOp, a: Location, b: Location, dest: Location },
    Jump { target: u32 },
    Branch { cond: Comparison, a: Location, b: Location, target: u32 },
}

/// The arithmetic operation selected by the low three bits of an opcode.
pub open spec fn arith_op(opcode: u8) -> Option<ArithOp> {
    let sel = opcode & 7;
    if sel == 0 {
        Some(ArithOp::Add)
    } else if sel == 1 {
        Some(ArithOp::Sub)
    } else if sel == 2 {
        Some(ArithOp::Mul)
    } else if sel == 3 {
        Some(ArithOp::Div)
    } else if sel == 4 {
        Some(ArithOp::Rem)
    } else {
        None
    }
}

/// The comparison selected by the low three bits of an opcode.
pub open spec fn comparison(opcode: u8) -> Option<Comparison> {
    let sel = opcode & 7;
    if sel == 1 {
        Some(Comparison::Equal)
    } else if sel == 2 {
        Some(Comparison::NotEqual)
    } else if sel == 3 {
        Some(Comparison::Less)
    } else if sel == 4 {
        Some(Comparison::LessOrEqual)
    } else if sel == 5 {
        Some(Comparison::GreaterOrEqual)
    } else if sel == 6 {
        Some(Comparison::Greater)
    } else {
        None
    }
}

/// Decoding two operands in a row.
pub open spec fn decode_pair(mem: Seq<u8>, pc: u32) -> (Option<(Location, Location)>, u32) {
    let (first, pc1) = decode_location(mem, pc);
    match first {
        None => (None, pc1),
        Some(x) => {
            let (second, pc2) = decode_location(mem, pc1);
            match second {
                None => (None, pc2),
                Some(y) => (Some((x, y)), pc2),
            }
        },
    }
}

/// Decoding the instruction at `pc`: the instruction, or `None` on a fault, and
/// the program counter after the bytes consumed.
pub open spec fn decode_instruction(mem: Seq<u8>, pc: u32) -> (Option<Instruction>, u32) {
    let (first, next) = fetched_byte(mem, pc);
    match first {
        None => (None, next),
        Some(op) => {
            let (pair, after_pair) = decode_pair(mem, next);
            if op == 0 {
                (Some(Instruction::Nop), next)
            } else if op == 1 {
                match pair {
                    None => (None, after_pair),
                    Some((source, dest)) => (Some(Instruction::Move { source, dest }), after_pair),
                }
            } else if op & 0xf8 == 0x08 && arith_op(op) is Some {
                match pair {
                    None => (None, after_pair),
                    Some((a, b)) => {
                        let (third, after) = decode_location(mem, after_pair);
                        match third {
                            None => (None, after),
                            Some(dest) => (
                                Some(Instruction::Arith { op: arith_op(op).unwrap(), a, b, dest }),
                                after,
                            ),
                        }
                    },
                }
            } else if op == 0x10 {
                match fetched(mem, next, DataWidth::Word) {
                    (None, after) => (None, after),
                    (Some(target), after) => (Some(Instruction::Jump { target }), after),
                }
            } else if op & 0xf8 == 0x10 && comparison(op) is Some {
                match pair {
                    None => (None, after_pair),
                    Some((a, b)) => {
                        match fetched(mem, after_pair, DataWidth::Word) {
                            (None, after) => (None, after),
                            (Some(target), after) => (
                                Some(
                                    Instruction::Branch {
                                        cond: comparison(op).unwrap(),
                                        a,
                                        b,
                                        target,
                                    },
                                ),
                                after,
                            ),
                        }
                    },
                }
            } else {
                (None, next)
            }
        },
    }
}

fn decode_arith_op(opcode: u8) -> (r: Option<ArithOp>)
    ensures
        r == arith_op(opcode),
{
    let sel = opcode & 7;
    if sel == 0 {
        Some(ArithOp::Add)
    } else if sel == 1 {
        Some(ArithOp::Sub)
    } else if sel == 2 {
        Some(ArithOp::Mul)
    } else if sel == 3 {
        Some(ArithOp::Div)
    } else if sel == 4 {
        Some(ArithOp::Rem)
    } else {
        None
    }
}

fn decode_comparison(opcode: u8) -> (r: Option<Comparison>)
    ensures
        r == comparison(opcode),
{
    let sel = opcode & 7;
    if sel == 1 {
        Some(Comparison::Equal)
    } else if sel == 2 {
        Some(Comparison::NotEqual)
    } else if sel == 3 {
        Some(Comparison::Less)
    } else if sel == 4 {
        Some(Comparison::LessOrEqual)
    } else if sel == 5 {
        Some(Comparison::GreaterOrEqual)
    } else if sel == 6 {
        Some(Comparison::Greater)
    } else {
        None
    }
}

impl Instruction {
    /// Decodes one instruction, consuming its bytes through the program counter.
    pub fn decode(memory: &Memory, pc: &mut ProgramCounter) -> (r: CpuResult<Instruction>)
        ensures
            (ok_value(r), final(pc).address) == decode_instruction(memory@, old(pc).address),
    {
        let op = fetch_byte(memory, pc)?;
        let arith = decode_arith_op(op);
        let cond = decode_comparison(op);
        if op == 0 {
            Ok(Instruction::Nop)
        } else if op == 1 {
            let source = Location::decode(memory, pc)?;
            let dest = Location::decode(memory, pc)?;
            Ok(Instruction::Move { source, dest })
        } else if op & 0xf8 == 0x08 && arith.is_some() {
            let a = Location::decode(memory, pc)?;
            let b = Location::decode(memory, pc)?;
            let dest = Location::decode(memory, pc)?;
            Ok(Instruction::Arith { op: arith.unwrap(), a, b, dest })
        } else if op == 0x10 {
            let target = fetch(memory, pc, DataWidth::Word)?;
            Ok(Instruction::Jump { target })
        } else if op & 0xf8 == 0x10 && cond.is_some() {
            let a = Location::decode(memory, pc)?;
            let b = Location::decode(memory, pc)?;
            let target = fetch(memory, pc, DataWidth::Word)?;
            Ok(Instruction::Branch { cond: cond.unwrap(), a, b, target })
        } else {
            Err(CpuPanic::new())
        }
    }
}

} // verus!
