//! A whole machine, and the snapshot of it that observers read.
use crate::cpu::{Cpu, CpuState, tick_result};
use crate::memory::Memory;
use std::sync::Arc;
use vstd::prelude::*;

verus! {

/// A processor together with the memory it runs on.
pub struct Computer {
    pub memory: Memory,
    pub cpu: Cpu,
}

impl Computer {
    /// A fresh processor on `memory_size` zeroed bytes.
    pub fn new(memory_size: usize) -> (r: Computer)
        ensures
            r.memory@ == Seq::new(memory_size as nat, |i: int| 0u8),
            r.cpu@.pc == 0,
            r.cpu@.frames.len() == 1,
            r.cpu@.frames[0].registers == Seq::new(16, |i: int| 0u32),
            r.cpu@.frames[0].vars.len() == 0,
    {
        Computer { memory: Memory::new(memory_size), cpu: Cpu::new() }
    }

    /// Runs one instruction. A fault is not reported; the machine is left as
    /// the fault left it.
    pub fn tick(&mut self)
        ensures
            final(self).cpu@ == tick_result(old(self).cpu@, old(self).memory@).1,
            final(self).memory@ == tick_result(old(self).cpu@, old(self).memory@).2,
    {
        let _ = self.cpu.tick(&mut self.memory);
    }
}

/// The machine as shared between the thread that runs it and its observers.
pub struct SimulatorState {
    pub computer: Computer,
}

/// What an observer shows of the processor between two ticks: the program
/// counter and the current frame's registers, numbered, and slots.
#[derive(Clone)]
pub struct UiCpuState {
    pub program_counter: u32,
    pub registers: Arc<Vec<(usize, u32)>>,
    pub vars: Arc<Vec<u32>>,
}

/// The numbered registers an observer lists for a state: those of the
/// current frame, none without a frame.
pub open spec fn listed_registers(s: CpuState) -> Seq<(usize, u32)> {
    if s.frames.len() == 0 {
        Seq::empty()
    } else {
        Seq::new(16, |i: int| (i as usize, s.frames.last().registers[i]))
    }
}

/// The slots an observer lists for a state: those of the current frame, none
/// without a frame.
pub open spec fn listed_vars(s: CpuState) -> Seq<u32> {
    if s.frames.len() == 0 {
        Seq::empty()
    } else {
        s.frames.last().vars
    }
}

impl UiCpuState {
    /// Takes a snapshot of `cpu`.
    pub fn capture(cpu: &Cpu) -> (r: UiCpuState)
        ensures
            r.program_counter == cpu@.pc,
            r.registers@ == listed_registers(cpu@),
            r.vars@ == listed_vars(cpu@),
    {
        let mut registers: Vec<(usize, u32)> = Vec::new();
        let mut vars: Vec<u32> = Vec::new();
        match cpu.frame() {
            Ok(frame) => {
                let mut i: usize = 0;
                while i < 16
                    invariant
                        0 <= i <= 16,
                        cpu.frames@.len() > 0,
                        *frame == cpu.frames@.last(),
                        registers@ == Seq::new(i as nat, |j: int| (j as usize, frame.registers@[j])),
                    decreases 16 - i,
                {
                    registers.push((i, frame.registers[i]));
                    proof {
                        assert(registers@ =~= Seq::new(
                            (i + 1) as nat,
                            |j: int| (j as usize, frame.registers@[j]),
                        ));
                    }
                    i = i + 1;
                }
                vars = frame.vars.clone();
                proof {
                    assert(cpu@.frames.last() == cpu.frames@.last()@);
                    assert(registers@ =~= listed_registers(cpu@));
                }
            },
            Err(_) => {
                assert(registers@ =~= listed_registers(cpu@));
                assert(vars@ =~= listed_vars(cpu@));
            },
        }
        UiCpuState {
            program_counter: cpu.program_counter.address,
            registers: Arc::new(registers),
            vars: Arc::new(vars),
        }
    }
}

} // verus!
