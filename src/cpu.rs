//! Register and frame state, and the resolution of operands against it.
//!
//! An operand resolution is all or nothing: when it faults, neither the frame
//! stack nor memory has changed. The auto-increment and auto-decrement of the
//! indirect forms are stored only once the memory access has succeeded, and
//! an address that would step past `u32::MAX` or below 0 is a fault: it
//! never wraps.
use crate::isa::{Comparison, Instruction, decode_instruction};
use crate::location::{
    DirectAddress,
    Location,
    fetched_byte,
    lemma_decode_location_length,
    operand_length,
};
use crate::memory::{DataWidth, Memory, fits, load, read_result, write_result};
use crate::utils::{CpuPanic, CpuResult, ProgramCounter, ok_value};
use vstd::prelude::*;

verus! {

/// The abstract contents of one activation record.
pub struct FrameState {
    pub registers: Seq<u32>,
    pub vars: Seq<u32>,
}

/// The abstract state of the processor: frames, the last one current, and the
/// program counter.
pub struct CpuState {
    pub frames: Seq<FrameState>,
    pub pc: u32,
}

impl CpuState {
    /// Every frame has its sixteen registers.
    pub open spec fn wf(self) -> bool {
        forall|i: int| 0 <= i < self.frames.len() ==> #[trigger] self.frames[i].registers.len() == 16
    }
}

/// One activation record: sixteen general registers and the frame-local slots.
pub struct StackFrame {
    pub registers: [u32; 16],
    pub vars: Vec<u32>,
}

impl View for StackFrame {
    type V = FrameState;

    open spec fn view(&self) -> FrameState {
        FrameState { registers: self.registers@, vars: self.vars@ }
    }
}

impl StackFrame {
    pub fn new(size: u32) -> (r: StackFrame)
        ensures
            r@.registers == Seq::new(16, |i: int| 0u32),
            r@.vars == Seq::new(size as nat, |i: int| 0u32),
    {
        let r = StackFrame { registers: [0u32; 16], vars: vec![0u32; size as usize] };
        assert(r@.registers =~= Seq::new(16, |i: int| 0u32));
        assert(r@.vars =~= Seq::new(size as nat, |i: int| 0u32));
        r
    }

    pub fn store(&mut self, var: u32, value: u32)
        requires
            var < old(self)@.vars.len(),
        ensures
            final(self)@ == (FrameState {
                vars: old(self)@.vars.update(var as int, value),
                ..old(self)@
            }),
    {
        self.vars[var as usize] = value;
    }

    pub fn load(&self, var: u32) -> (r: u32)
        requires
            var < self@.vars.len(),
        ensures
            r == self@.vars[var as int],
    {
        self.vars[var as usize]
    }
}

pub struct Cpu {
    pub frames: Vec<StackFrame>,
    pub program_counter: ProgramCounter,
}

impl View for Cpu {
    type V = CpuState;

    open spec fn view(&self) -> CpuState {
        CpuState {
            frames: self.frames@.map_values(|f: StackFrame| f@),
            pc: self.program_counter.address,
        }
    }
}

/// Whether `d` names an existing register or slot of the current frame.
pub open spec fn direct_valid(s: CpuState, d: DirectAddress) -> bool {
    s.frames.len() > 0 && match d {
        DirectAddress::Register(i) => i < 16,
        DirectAddress::Frame(i) => i < s.frames.last().vars.len(),
    }
}

/// The value of a direct operand, if it names something.
pub open spec fn direct_get(s: CpuState, d: DirectAddress) -> Option<u32> {
    if direct_valid(s, d) {
        match d {
            DirectAddress::Register(i) => Some(s.frames.last().registers[i as int]),
            DirectAddress::Frame(i) => Some(s.frames.last().vars[i as int]),
        }
    } else {
        None
    }
}

/// The state after storing `v` into a direct operand; unchanged if it names nothing.
pub open spec fn direct_store(s: CpuState, d: DirectAddress, v: u32) -> CpuState {
    if direct_valid(s, d) {
        let top = s.frames.len() - 1;
        let f = s.frames.last();
        let g = match d {
            DirectAddress::Register(i) => FrameState {
                registers: f.registers.update(i as int, v),
                ..f
            },
            DirectAddress::Frame(i) => FrameState { vars: f.vars.update(i as int, v), ..f },
        };
        CpuState { frames: s.frames.update(top, g), ..s }
    } else {
        s
    }
}

/// The address an auto-incrementing access of `width` leaves behind, or `None`
/// when it would pass the end of the 32-bit address space.
pub open spec fn incremented(a: u32, width: DataWidth) -> Option<u32> {
    if a + width.spec_size() <= u32::MAX {
        Some((a + width.spec_size()) as u32)
    } else {
        None
    }
}

/// The address an auto-decrementing access of `width` touches, or `None` when
/// it would fall below address 0.
pub open spec fn decremented(b: u32, width: DataWidth) -> Option<u32> {
    if b >= width.spec_size() {
        Some((b - width.spec_size()) as u32)
    } else {
        None
    }
}

/// Reading an operand: its value and the state after the read, or `None` on a
/// fault (the state is then unchanged).
pub open spec fn operand_read(s: CpuState, mem: Seq<u8>, loc: Location) -> Option<(u32, CpuState)> {
    match loc {
        Location::Immediate(v) => Some((v, s)),
        Location::Direct(d) => match direct_get(s, d) {
            Some(v) => Some((v, s)),
            None => None,
        },
        Location::Indirect(d, w) => match direct_get(s, d) {
            Some(a) => match read_result(mem, w, a) {
                Some(v) => Some((v, s)),
                None => None,
            },
            None => None,
        },
        Location::IndirectPostIncrement(d, w) => match direct_get(s, d) {
            Some(a) => match (read_result(mem, w, a), incremented(a, w)) {
                (Some(v), Some(next)) => Some((v, direct_store(s, d, next))),
                _ => None,
            },
            None => None,
        },
        Location::IndirectPreDecrement(d, w) => match direct_get(s, d) {
            Some(b) => match decremented(b, w) {
                Some(a) => match read_result(mem, w, a) {
                    Some(v) => Some((v, direct_store(s, d, a))),
                    None => None,
                },
                None => None,
            },
            None => None,
        },
    }
}

/// Writing `v` to an operand: the state and memory after the write, or `None`
/// on a fault (both are then unchanged).
pub open spec fn operand_write(s: CpuState, mem: Seq<u8>, loc: Location, v: u32) -> Option<
    (CpuState, Seq<u8>),
> {
    match loc {
        Location::Immediate(_) => None,
        Location::Direct(d) => if direct_valid(s, d) {
            Some((direct_store(s, d, v), mem))
        } else {
            None
        },
        Location::Indirect(d, w) => match direct_get(s, d) {
            Some(a) => if fits(mem, w, a) {
                Some((s, write_result(mem, w, a, v)))
            } else {
                None
            },
            None => None,
        },
        Location::IndirectPostIncrement(d, w) => match direct_get(s, d) {
            Some(a) => match incremented(a, w) {
                Some(next) => if fits(mem, w, a) {
                    Some((direct_store(s, d, next), write_result(mem, w, a, v)))
                } else {
                    None
                },
                None => None,
            },
            None => None,
        },
        Location::IndirectPreDecrement(d, w) => match direct_get(s, d) {
            Some(b) => match decremented(b, w) {
                Some(a) => if fits(mem, w, a) {
                    Some((direct_store(s, d, a), write_result(mem, w, a, v)))
                } else {
                    None
                },
                None => None,
            },
            None => None,
        },
    }
}

fn increment(address: u32, width: DataWidth) -> (r: CpuResult<u32>)
    ensures
        ok_value(r) == incremented(address, width),
{
    let size = width.size() as u32;
    if address > u32::MAX - size {
        Err(CpuPanic::new())
    } else {
        Ok(address + size)
    }
}

fn decrement(address: u32, width: DataWidth) -> (r: CpuResult<u32>)
    ensures
        ok_value(r) == decremented(address, width),
{
    let size = width.size() as u32;
    if address < size {
        Err(CpuPanic::new())
    } else {
        Ok(address - size)
    }
}

impl Cpu {
    /// A processor with one empty base frame and the program counter at 0.
    pub fn new() -> (r: Cpu)
        ensures
            r@.pc == 0,
            r@.frames.len() == 1,
            r@.frames[0].registers == Seq::new(16, |i: int| 0u32),
            r@.frames[0].vars.len() == 0,
    {
        let mut frames: Vec<StackFrame> = Vec::new();
        frames.push(StackFrame::new(0));
        Cpu { frames, program_counter: ProgramCounter::new(0) }
    }

    /// The current frame.
    pub fn frame(&self) -> (r: Result<&StackFrame, CpuPanic>)
        ensures
            r is Ok == (self.frames@.len() > 0),
            r matches Ok(f) ==> *f == self.frames@.last(),
    {
        let n = self.frames.len();
        if n == 0 {
            Err(CpuPanic::new())
        } else {
            Ok(&self.frames[n - 1])
        }
    }

    /// The current frame, for modification.
    pub fn frame_mut(&mut self) -> (r: Result<&mut StackFrame, CpuPanic>)
        ensures
            r is Ok == (old(self).frames@.len() > 0),
            r is Err ==> *final(self) == *old(self),
            r matches Ok(f) ==> *f == old(self).frames@.last() && final(self).frames@ == old(
                self,
            ).frames@.update(old(self).frames@.len() - 1, *final(f))
                && final(self).program_counter == old(self).program_counter,
    {
        let n = self.frames.len();
        if n == 0 {
            Err(CpuPanic::new())
        } else {
            Ok(&mut self.frames[n - 1])
        }
    }

    pub fn get_direct(&self, location: DirectAddress) -> (r: CpuResult<u32>)
        ensures
            ok_value(r) == direct_get(self@, location),
    {
        let frame = self.frame()?;
        match location {
            DirectAddress::Register(index) => if index < 16 {
                Ok(frame.registers[index])
            } else {
                Err(CpuPanic::new())
            },
            DirectAddress::Frame(index) => if index < frame.vars.len() {
                Ok(frame.vars[index])
            } else {
                Err(CpuPanic::new())
            },
        }
    }

    /// Reads an operand. Auto-increment and auto-decrement operands update
    /// their direct operand; a fault changes nothing.
    pub fn get_value(&mut self, memory: &Memory, location: Location) -> (r: CpuResult<u32>)
        ensures
            match operand_read(old(self)@, memory@, location) {
                Some((v, s)) => r == Ok::<u32, CpuPanic>(v) && final(self)@ == s,
                None => r is Err && final(self)@ == old(self)@,
            },
    {
        match location {
            Location::Immediate(value) => Ok(value),
            Location::Direct(direct) => self.get_direct(direct),
            Location::Indirect(direct, width) => {
                let address = self.get_direct(direct)?;
                memory.read_width(width, address)
            },
            Location::IndirectPostIncrement(direct, width) => {
                let address = self.get_direct(direct)?;
                let next = increment(address, width)?;
                let value = memory.read_width(width, address)?;
                self.set_direct(direct, next)?;
                Ok(value)
            },
            Location::IndirectPreDecrement(direct, width) => {
                let address = decrement(self.get_direct(direct)?, width)?;
                let value = memory.read_width(width, address)?;
                self.set_direct(direct, address)?;
                Ok(value)
            },
        }
    }

    /// Writes an operand. Immediates cannot be written; a fault changes nothing.
    pub fn set_value(&mut self, memory: &mut Memory, location: Location, value: u32) -> (r:
        CpuResult<()>)
        ensures
            match operand_write(old(self)@, old(memory)@, location, value) {
                Some((s, m)) => r is Ok && final(self)@ == s && final(memory)@ == m,
                None => r is Err && final(self)@ == old(self)@ && final(memory)@ == old(memory)@,
            },
    {
        match location {
            Location::Immediate(_) => Err(CpuPanic::new()),
            Location::Direct(direct) => self.set_direct(direct, value),
            Location::Indirect(direct, width) => {
                let address = self.get_direct(direct)?;
                memory.write_width(width, address, value)
            },
            Location::IndirectPostIncrement(direct, width) => {
                let address = self.get_direct(direct)?;
                let next = increment(address, width)?;
                memory.write_width(width, address, value)?;
                self.set_direct(direct, next)
            },
            Location::IndirectPreDecrement(direct, width) => {
                let address = decrement(self.get_direct(direct)?, width)?;
                memory.write_width(width, address, value)?;
                self.set_direct(direct, address)
            },
        }
    }

    pub fn set_direct(&mut self, location: DirectAddress, value: u32) -> (r: CpuResult<()>)
        ensures
            r is Ok == direct_valid(old(self)@, location),
            final(self)@ == direct_store(old(self)@, location, value),
    {
        let n = self.frames.len();
        if n == 0 {
            return Err(CpuPanic::new());
        }
        let top = n - 1;
        match location {
            DirectAddress::Register(index) => if index < 16 {
                self.frames[top].registers[index] = value;
            } else {
                return Err(CpuPanic::new());
            },
            DirectAddress::Frame(index) => if index < self.frames[top].vars.len() {
                self.frames[top].vars[index] = value;
            } else {
                return Err(CpuPanic::new());
            },
        }
        assert(self@.frames =~= direct_store(old(self)@, location, value).frames);
        Ok(())
    }
}

} // verus!

verus! {

/// The abstract state of a processor is well formed.
pub proof fn lemma_cpu_view_wf(cpu: &Cpu)
    ensures
        cpu@.wf(),
{
    assert forall|i: int| 0 <= i < cpu@.frames.len() implies #[trigger] cpu@.frames[i].registers.len()
        == 16 by {
        assert(cpu@.frames[i] == cpu.frames@[i]@);
    }
}

/// A stored direct operand reads back the value stored, and storing keeps the
/// state well formed.
pub proof fn lemma_direct_store_get(s: CpuState, d: DirectAddress, v: u32)
    requires
        s.wf(),
        direct_valid(s, d),
    ensures
        direct_get(direct_store(s, d, v), d) == Some(v),
        direct_store(s, d, v).wf(),
{
    let t = direct_store(s, d, v);
    assert(t.frames.last() == t.frames[s.frames.len() - 1]);
    assert forall|i: int| 0 <= i < t.frames.len() implies #[trigger] t.frames[i].registers.len()
        == 16 by {
        if i != s.frames.len() - 1 {
            assert(t.frames[i] == s.frames[i]);
        }
    }
}

/// Writing a register through a direct operand and reading it back yields the
/// value written, leaving memory alone; a register index of sixteen or more
/// makes both the write and the read fail.
pub proof fn lemma_register_round_trip(s: CpuState, mem: Seq<u8>, r: usize, v: u32)
    requires
        s.wf(),
        s.frames.len() > 0,
    ensures
        r < 16 ==> (operand_write(s, mem, Location::Direct(DirectAddress::Register(r)), v) matches Some(
            (t, m),
        ) && m == mem && operand_read(t, m, Location::Direct(DirectAddress::Register(r))) == Some(
            (v, t),
        )),
        r >= 16 ==> operand_write(s, mem, Location::Direct(DirectAddress::Register(r)), v) is None
            && operand_read(s, mem, Location::Direct(DirectAddress::Register(r))) is None,
{
    if r < 16 {
        lemma_direct_store_get(s, DirectAddress::Register(r), v);
    }
}

/// A read through an auto-incrementing operand whose direct operand holds
/// address `a` returns the value that was at `a`, and leaves the direct operand
/// holding `a` plus the width's size. (Where that sum passes `u32::MAX` the
/// read fails instead.)
pub proof fn lemma_post_increment_read(
    s: CpuState,
    mem: Seq<u8>,
    d: DirectAddress,
    w: DataWidth,
    a: u32,
)
    requires
        s.wf(),
        direct_get(s, d) == Some(a),
        fits(mem, w, a),
        a + w.spec_size() <= u32::MAX,
    ensures
        operand_read(s, mem, Location::IndirectPostIncrement(d, w)) matches Some((v, t)) && v
            == load(mem, w, a as int) && direct_get(t, d) == Some((a + w.spec_size()) as u32),
{
    lemma_direct_store_get(s, d, (a + w.spec_size()) as u32);
}

/// An auto-incrementing access whose new address would pass `u32::MAX`, or an
/// auto-decrementing one whose new address would fall below 0, fails, for a
/// read and for a write; it never wraps around the address space.
pub proof fn lemma_auto_step_never_wraps(
    s: CpuState,
    mem: Seq<u8>,
    d: DirectAddress,
    w: DataWidth,
    a: u32,
    v: u32,
)
    requires
        direct_get(s, d) == Some(a),
    ensures
        a + w.spec_size() > u32::MAX ==> operand_read(s, mem, Location::IndirectPostIncrement(d, w))
            is None && operand_write(s, mem, Location::IndirectPostIncrement(d, w), v) is None,
        a < w.spec_size() ==> operand_read(s, mem, Location::IndirectPreDecrement(d, w)) is None
            && operand_write(s, mem, Location::IndirectPreDecrement(d, w), v) is None,
{
}

/// A read through an auto-decrementing operand whose direct operand holds
/// address `a` first moves the direct operand to `a` minus the width's size,
/// then returns the value found at that new address.
pub proof fn lemma_pre_decrement_read(
    s: CpuState,
    mem: Seq<u8>,
    d: DirectAddress,
    w: DataWidth,
    a: u32,
)
    requires
        s.wf(),
        direct_get(s, d) == Some(a),
        a >= w.spec_size(),
        fits(mem, w, (a - w.spec_size()) as u32),
    ensures
        operand_read(s, mem, Location::IndirectPreDecrement(d, w)) matches Some((v, t)) && v
            == load(mem, w, a - w.spec_size()) && direct_get(t, d) == Some(
            (a - w.spec_size()) as u32,
        ),
{
    lemma_direct_store_get(s, d, (a - w.spec_size()) as u32);
}

} // verus!

verus! {

/// Executing a decoded instruction on a state whose program counter is already
/// past it: whether it succeeded, the state after it and memory after it.
/// Operands are read in order; when a later step faults, the effects of the
/// operand reads completed before it stay.
pub open spec fn execute_result(s: CpuState, mem: Seq<u8>, insn: Instruction) -> (
    bool,
    CpuState,
    Seq<u8>,
) {
    match insn {
        Instruction::Nop => (true, s, mem),
        Instruction::Move { source, dest } => match operand_read(s, mem, source) {
            None => (false, s, mem),
            Some((v, s1)) => match operand_write(s1, mem, dest, v) {
                None => (false, s1, mem),
                Some((s2, m2)) => (true, s2, m2),
            },
        },
        Instruction::Arith { op, a, b, dest } => match operand_read(s, mem, a) {
            None => (false, s, mem),
            Some((x, s1)) => match operand_read(s1, mem, b) {
                None => (false, s1, mem),
                Some((y, s2)) => match op.spec_apply(dest.spec_width(), x, y) {
                    None => (false, s2, mem),
                    Some(v) => match operand_write(s2, mem, dest, v) {
                        None => (false, s2, mem),
                        Some((s3, m3)) => (true, s3, m3),
                    },
                },
            },
        },
        Instruction::Jump { target } => (true, CpuState { pc: target, ..s }, mem),
        Instruction::Branch { cond, a, b, target } => match operand_read(s, mem, a) {
            None => (false, s, mem),
            Some((x, s1)) => match operand_read(s1, mem, b) {
                None => (false, s1, mem),
                Some((y, s2)) => if cond.spec_holds(x, y) {
                    (true, CpuState { pc: target, ..s2 }, mem)
                } else {
                    (true, s2, mem)
                },
            },
        },
    }
}

/// One step of the machine: decode at the program counter, then execute.
/// Whether it succeeded, the state after it and memory after it.
pub open spec fn tick_result(s: CpuState, mem: Seq<u8>) -> (bool, CpuState, Seq<u8>) {
    let (decoded, pc) = decode_instruction(mem, s.pc);
    let s1 = CpuState { pc, ..s };
    match decoded {
        None => (false, s1, mem),
        Some(insn) => execute_result(s1, mem, insn),
    }
}

impl Cpu {
    /// Executes a decoded instruction whose bytes have been consumed.
    pub fn execute(&mut self, memory: &mut Memory, insn: Instruction) -> (r: CpuResult<()>)
        ensures
            r is Ok == execute_result(old(self)@, old(memory)@, insn).0,
            final(self)@ == execute_result(old(self)@, old(memory)@, insn).1,
            final(memory)@ == execute_result(old(self)@, old(memory)@, insn).2,
    {
        match insn {
            Instruction::Nop => Ok(()),
            Instruction::Move { source, dest } => {
                let value = self.get_value(memory, source)?;
                self.set_value(memory, dest, value)
            },
            Instruction::Arith { op, a, b, dest } => {
                let x = self.get_value(memory, a)?;
                let y = self.get_value(memory, b)?;
                match op.apply(dest.width(), x, y) {
                    Some(value) => self.set_value(memory, dest, value),
                    None => Err(CpuPanic::new()),
                }
            },
            Instruction::Jump { target } => {
                self.program_counter.address = target;
                Ok(())
            },
            Instruction::Branch { cond, a, b, target } => {
                let x = self.get_value(memory, a)?;
                let y = self.get_value(memory, b)?;
                if cond.holds(x, y) {
                    self.program_counter.address = target;
                }
                Ok(())
            },
        }
    }

    /// Decodes and executes the instruction at the program counter.
    pub fn tick(&mut self, memory: &mut Memory) -> (r: CpuResult<()>)
        ensures
            r is Ok == tick_result(old(self)@, old(memory)@).0,
            final(self)@ == tick_result(old(self)@, old(memory)@).1,
            final(memory)@ == tick_result(old(self)@, old(memory)@).2,
    {
        let insn = Instruction::decode(memory, &mut self.program_counter)?;
        self.execute(memory, insn)
    }
}

} // verus!

verus! {

/// A conditional jump consumes exactly its opcode byte, both operands and the
/// four target bytes, and the program counter does not wrap. When both
/// operands read without fault, it succeeds and changes only the program
/// counter and what the operand reads change: the program counter becomes the
/// target when the comparison holds, and otherwise stands just past the
/// instruction. A faulting operand read fails the step.
pub proof fn lemma_branch_step(
    s: CpuState,
    mem: Seq<u8>,
    cond: Comparison,
    a: Location,
    b: Location,
    target: u32,
)
    requires
        decode_instruction(mem, s.pc).0 == Some(Instruction::Branch { cond, a, b, target }),
    ensures
        ({
            let pa = s.pc + 1;
            let pb = pa + operand_length(mem[pa]);
            let end = pb + operand_length(mem[pb]) + 4;
            let s0 = CpuState { pc: end as u32, ..s };
            &&& end <= u32::MAX
            &&& match operand_read(s0, mem, a) {
                Some((x, s1)) => match operand_read(s1, mem, b) {
                    Some((y, s2)) => tick_result(s, mem) == (
                        true,
                        CpuState {
                            pc: if cond.spec_holds(x, y) {
                                target
                            } else {
                                end as u32
                            },
                            ..s2
                        },
                        mem,
                    ),
                    None => tick_result(s, mem) == (false, s1, mem),
                },
                None => tick_result(s, mem) == (false, s0, mem),
            }
        }),
{
    let pa = (s.pc + 1) as u32;
    lemma_decode_location_length(mem, pa);
    let pb = (pa + operand_length(mem[pa as int])) as u32;
    lemma_decode_location_length(mem, pb);
}

/// Opcode `0001_0000` matches both the unconditional-jump pattern `0001_0000`
/// and the conditional-jump pattern `0001_0xxx`; the earlier one wins, so it
/// never decodes as a conditional jump.
pub proof fn lemma_jump_before_branch(mem: Seq<u8>, pc: u32)
    requires
        fetched_byte(mem, pc).0 == Some(0x10u8),
    ensures
        0x10u8 & 0xff == 0x10 && 0x10u8 & 0xf8 == 0x10,
        decode_instruction(mem, pc).0 matches Some(insn) ==> insn is Jump,
{
    assert(0x10u8 & 0xff == 0x10 && 0x10u8 & 0xf8 == 0x10 && 0x10u8 & 0xf8 != 0x08) by (bit_vector);
}

} // verus!
