//! A software CPU: a byte-encoded instruction stream interpreted against a flat,
//! bounds-checked memory, one instruction per `tick`.
pub mod computer;
pub mod cpu;
pub mod instructions;
pub mod isa;
pub mod location;
pub mod memory;
pub mod pattern;
pub mod utils;

pub use computer::{Computer, SimulatorState, UiCpuState};
pub use cpu::{Cpu, StackFrame};
pub use instructions::{Insn, StackOp, UJumpOp, UMathOp};
pub use isa::{ArithOp, Comparison, Instruction};
pub use location::{DirectAddress, Location};
pub use memory::{DataWidth, Memory};
pub use pattern::{BitPattern, bits};
pub use utils::{CpuPanic, CpuResult, ProgramCounter};
