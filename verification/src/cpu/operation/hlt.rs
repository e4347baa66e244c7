use crate::cpu::{Cpu, CpuView, Error, OpResult};
use vstd::prelude::*;

verus! {

/// The byte that stands for the instruction in a program.
pub const CODE: u8 = 0xff;

/// The instruction's mnemonic.
pub const NAME: &'static str = "HLT";

/// The number of bytes that the instruction takes in a program, its own byte
/// included.
pub const SIZE: u8 = 1;

/// Halt: the processor stops, and nothing changes.
pub open spec fn effect(state: CpuView) -> (OpResult, CpuView) {
    (Err(Error::Halt), state)
}

/// Carries the instruction out on a processor whose program counter stands
/// behind the instruction's own byte.
pub fn run(_cpu: &mut Cpu) -> (res: OpResult)
    ensures
        *final(_cpu) == *old(_cpu),
        (res, final(_cpu)@) == effect(old(_cpu)@),
{
    Err(Error::Halt)
}

/// The instruction takes `SIZE` bytes of the program, its own byte included.
pub proof fn lemma_size(state: CpuView)
    ensures
        effect(state).1 == state.advanced((SIZE - 1) as u16),
{
}

} // verus!
