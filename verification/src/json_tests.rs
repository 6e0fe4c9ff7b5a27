//! The records of the SH-4 single-instruction test vectors.
use vstd::prelude::*;

verus! {

/// One bus cycle of a test vector: what was fetched, written and read.
#[derive(Copy, Clone, Debug, PartialEq, Eq, Structural)]
pub struct Cycle {
    pub actions: u8,
    pub fetch_addr: u64,
    pub fetch_val: u64,
    pub write_addr: u64,
    pub write_val: u64,
    pub read_addr: u64,
    pub read_val: u64,
}

} // verus!
