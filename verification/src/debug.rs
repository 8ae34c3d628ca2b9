//! An observability snapshot for a driver that surfaces machine state
//! between ticks.

use vstd::prelude::*;

use crate::arch::Arch;
use crate::instructions::Instruction;

verus! {

/// A snapshot a driver may fill while stepping the machine: the addresses
/// it watches, the words last read from them, and the instruction about
/// to execute.
pub struct CpuState<T: Arch> {
    pub subscriber: Vec<u64>,
    pub subscriber_results: Vec<u64>,
    pub upcoming: Option<Instruction<T>>,
}

} // verus!
