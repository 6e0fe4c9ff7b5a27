//! The SH-4 CPU and its on-chip peripherals.
use vstd::prelude::*;

pub mod alu;
pub mod bsc;
pub mod bus;
pub mod ccn;
pub mod cpu;
pub mod cpu_bus;
pub mod decoder;
pub mod execute;
pub mod dmac;
pub mod intc;
pub mod memory;
pub mod opcodes;
pub mod tmu;

verus! {

/// Events that the scheduler delivers to the SH-4 side.
#[derive(Copy, Clone, Debug, PartialEq, Eq, Structural)]
pub enum SH4EventData {
    RaiseIRL { irl_number: usize },
}

} // verus!
