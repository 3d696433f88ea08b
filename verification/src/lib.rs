//! A CHIP-8 interpreter core: decoder, executor, loader and clock, with the
//! behaviour of every operation stated as a contract over a mathematical
//! model of the machine.

pub mod alu;
pub mod clock;
pub mod cpu;
pub mod display;
pub mod error;
pub mod font;
pub mod instruction;
pub mod laws;
pub mod state;

pub use clock::{Clock, Due, Timing};
pub use cpu::{Cpu, Run};
pub use error::{CpuError, LoadError};
pub use instruction::{decode, Instruction};
pub use state::{Outcome, Policy, State, Step, Tone, Trace};
