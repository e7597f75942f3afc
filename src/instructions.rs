//! A reduced stack-machine profile of the instruction set, decoded over the
//! same memory and program counter as the register instruction set.
//!
//! Encoding: an opcode byte; families that take a sub-operation read it from
//! the following byte; immediates are big-endian words.
//! - `0`: no-op; `1`: stack operation; `4`: unsigned arithmetic;
//! - `5`: signed arithmetic; `6`: floating-point arithmetic;
//! - `7`: jump; `8`: jump on an unsigned comparison;
//! - `9`: jump on a signed comparison; `10`: jump on a floating-point comparison.
use crate::location::{fetch, fetch_byte, fetched, fetched_byte};
use crate::memory::{DataWidth, Memory};
use crate::utils::{CpuPanic, CpuResult, ProgramCounter, ok_value};
use vstd::prelude::*;

verus! {

#[derive(Debug, Clone, Copy, PartialEq, Eq)]
pub enum Insn {
    Nop,
    /// manipulate the stack (pop, dup, swap, etc.)
    Stack(StackOp),
    /// perform unsigned integer math
    UMath(UMathOp),
    /// perform signed integer math
    IMath,
    /// perform floating point math
    FMath,
    /// unconditional jump
    Jump(u32),
    /// jump based on an unsigned integer comparison
    UJump(UJumpOp, u32),
    /// jump based on a signed integer comparison
    IJump(u32),
    /// jump based on a floating point comparison
    FJump(u32),
}

#[derive(Debug, Clone, Copy, PartialEq, Eq)]
pub enum StackOp {
    Pop,
    Dup,
    Swap,
    PushValue(u32),
    PushFrame(u32),
    PopFrame,
    Store(u32),
    Load(u32),
}

#[derive(Debug, Clone, Copy, PartialEq, Eq)]
pub enum UMathOp {
    Add,
    Sub,
    Mul,
    Div,
    Rem,
    LeftShift,
    RightShift,
    BitNot,
    BitAnd,
    BitOr,
    BitXor,
}

#[derive(Debug, Clone, Copy, PartialEq, Eq)]
pub enum UJumpOp {
    Zero,
    NotZero,
    Equal,
    NotEqual,
    LessThan,
    GreaterThan,
    LessThanOrEqual,
    GreaterThanOrEqual,
}

/// Whether stack sub-operation `k` carries a word operand.
pub open spec fn stack_takes_word(k: u8) -> bool {
    k == 3 || k == 4 || k == 6 || k == 7
}

/// Stack sub-operation `k` (at most 7) with word operand `v` where it takes one.
pub open spec fn stack_op(k: u8, v: u32) -> StackOp {
    if k == 0 {
        StackOp::Pop
    } else if k == 1 {
        StackOp::Dup
    } else if k == 2 {
        StackOp::Swap
    } else if k == 3 {
        StackOp::PushValue(v)
    } else if k == 4 {
        StackOp::PushFrame(v)
    } else if k == 5 {
        StackOp::PopFrame
    } else if k == 6 {
        StackOp::Store(v)
    } else {
        StackOp::Load(v)
    }
}

pub open spec fn umath_op(k: u8) -> Option<UMathOp> {
    if k == 0 {
        Some(UMathOp::Add)
    } else if k == 1 {
        Some(UMathOp::Sub)
    } else if k == 2 {
        Some(UMathOp::Mul)
    } else if k == 3 {
        Some(UMathOp::Div)
    } else if k == 4 {
        Some(UMathOp::Rem)
    } else if k == 5 {
        Some(UMathOp::LeftShift)
    } else if k == 6 {
        Some(UMathOp::RightShift)
    } else if k == 7 {
        Some(UMathOp::BitNot)
    } else if k == 8 {
        Some(UMathOp::BitAnd)
    } else if k == 9 {
        Some(UMathOp::BitOr)
    } else if k == 10 {
        Some(UMathOp::BitXor)
    } else {
        None
    }
}

pub open spec fn ujump_op(k: u8) -> Option<UJumpOp> {
    if k == 0 {
        Some(UJumpOp::Zero)
    } else if k == 1 {
        Some(UJumpOp::NotZero)
    } else if k == 2 {
        Some(UJumpOp::Equal)
    } else if k == 3 {
        Some(UJumpOp::NotEqual)
    } else if k == 4 {
        Some(UJumpOp::LessThan)
    } else if k == 5 {
        Some(UJumpOp::GreaterThan)
    } else if k == 6 {
        Some(UJumpOp::LessThanOrEqual)
    } else if k == 7 {
        Some(UJumpOp::GreaterThanOrEqual)
    } else {
        None
    }
}

/// Wraps a decoded word into an instruction, keeping the program counter.
pub open spec fn with_word(w: (Option<u32>, u32), f: spec_fn(u32) -> Insn) -> (Option<Insn>, u32) {
    match w.0 {
        Some(v) => (Some(f(v)), w.1),
        None => (None, w.1),
    }
}

/// Decoding the stack-profile instruction at `pc`: the instruction, or `None`
/// on a fault, and the program counter after the bytes consumed.
pub open spec fn decode_insn(mem: Seq<u8>, pc: u32) -> (Option<Insn>, u32) {
    let (first, after_op) = fetched_byte(mem, pc);
    let (sub, after_sub) = fetched_byte(mem, after_op);
    match first {
        None => (None, after_op),
        Some(op) => if op == 0 {
            (Some(Insn::Nop), after_op)
        } else if op == 1 || op == 4 || op == 8 {
            match sub {
                None => (None, after_sub),
                Some(k) => if op == 1 {
                    if k > 7 {
                        (None, after_sub)
                    } else if stack_takes_word(k) {
                        with_word(fetched(mem, after_sub, DataWidth::Word), |v: u32| Insn::Stack(stack_op(k, v)))
                    } else {
                        (Some(Insn::Stack(stack_op(k, 0))), after_sub)
                    }
                } else if op == 4 {
                    match umath_op(k) {
                        Some(m) => (Some(Insn::UMath(m)), after_sub),
                        None => (None, after_sub),
                    }
                } else {
                    match ujump_op(k) {
                        Some(j) => with_word(fetched(mem, after_sub, DataWidth::Word), |v: u32| Insn::UJump(j, v)),
                        None => (None, after_sub),
                    }
                },
            }
        } else if op == 5 {
            (Some(Insn::IMath), after_op)
        } else if op == 6 {
            (Some(Insn::FMath), after_op)
        } else if op == 7 {
            with_word(fetched(mem, after_op, DataWidth::Word), |v: u32| Insn::Jump(v))
        } else if op == 9 {
            with_word(fetched(mem, after_op, DataWidth::Word), |v: u32| Insn::IJump(v))
        } else if op == 10 {
            with_word(fetched(mem, after_op, DataWidth::Word), |v: u32| Insn::FJump(v))
        } else {
            (None, after_op)
        },
    }
}

fn decode_umath_op(k: u8) -> (r: Option<UMathOp>)
    ensures
        r == umath_op(k),
{
    if k == 0 {
        Some(UMathOp::Add)
    } else if k == 1 {
        Some(UMathOp::Sub)
    } else if k == 2 {
        Some(UMathOp::Mul)
    } else if k == 3 {
        Some(UMathOp::Div)
    } else if k == 4 {
        Some(UMathOp::Rem)
    } else if k == 5 {
        Some(UMathOp::LeftShift)
    } else if k == 6 {
        Some(UMathOp::RightShift)
    } else if k == 7 {
        Some(UMathOp::BitNot)
    } else if k == 8 {
        Some(UMathOp::BitAnd)
    } else if k == 9 {
        Some(UMathOp::BitOr)
    } else if k == 10 {
        Some(UMathOp::BitXor)
    } else {
        None
    }
}

fn decode_ujump_op(k: u8) -> (r: Option<UJumpOp>)
    ensures
        r == ujump_op(k),
{
    if k == 0 {
        Some(UJumpOp::Zero)
    } else if k == 1 {
        Some(UJumpOp::NotZero)
    } else if k == 2 {
        Some(UJumpOp::Equal)
    } else if k == 3 {
        Some(UJumpOp::NotEqual)
    } else if k == 4 {
        Some(UJumpOp::LessThan)
    } else if k == 5 {
        Some(UJumpOp::GreaterThan)
    } else if k == 6 {
        Some(UJumpOp::LessThanOrEqual)
    } else if k == 7 {
        Some(UJumpOp::GreaterThanOrEqual)
    } else {
        None
    }
}

impl Insn {
    /// Decodes one stack-profile instruction, consuming its bytes through the
    /// program counter.
    pub fn decode(memory: &Memory, pc: &mut ProgramCounter) -> (r: CpuResult<Insn>)
        ensures
            (ok_value(r), final(pc).address) == decode_insn(memory@, old(pc).address),
    {
        let op = fetch_byte(memory, pc)?;
        if op == 0 {
            Ok(Insn::Nop)
        } else if op == 1 {
            let k = fetch_byte(memory, pc)?;
            if k == 0 {
                Ok(Insn::Stack(StackOp::Pop))
            } else if k == 1 {
                Ok(Insn::Stack(StackOp::Dup))
            } else if k == 2 {
                Ok(Insn::Stack(StackOp::Swap))
            } else if k == 3 {
                Ok(Insn::Stack(StackOp::PushValue(fetch(memory, pc, DataWidth::Word)?)))
            } else if k == 4 {
                Ok(Insn::Stack(StackOp::PushFrame(fetch(memory, pc, DataWidth::Word)?)))
            } else if k == 5 {
                Ok(Insn::Stack(StackOp::PopFrame))
            } else if k == 6 {
                Ok(Insn::Stack(StackOp::Store(fetch(memory, pc, DataWidth::Word)?)))
            } else if k == 7 {
                Ok(Insn::Stack(StackOp::Load(fetch(memory, pc, DataWidth::Word)?)))
            } else {
                Err(CpuPanic::new())
            }
        } else if op == 4 {
            let k = fetch_byte(memory, pc)?;
            match decode_umath_op(k) {
                Some(m) => Ok(Insn::UMath(m)),
                None => Err(CpuPanic::new()),
            }
        } else if op == 5 {
            Ok(Insn::IMath)
        } else if op == 6 {
            Ok(Insn::FMath)
        } else if op == 7 {
            Ok(Insn::Jump(fetch(memory, pc, DataWidth::Word)?))
        } else if op == 8 {
            let k = fetch_byte(memory, pc)?;
            match decode_ujump_op(k) {
                Some(j) => Ok(Insn::UJump(j, fetch(memory, pc, DataWidth::Word)?)),
                None => Err(CpuPanic::new()),
            }
        } else if op == 9 {
            Ok(Insn::IJump(fetch(memory, pc, DataWidth::Word)?))
        } else if op == 10 {
            Ok(Insn::FJump(fetch(memory, pc, DataWidth::Word)?))
        } else {
            Err(CpuPanic::new())
        }
    }
}

} // verus!
