use crate::cpu::{Cpu, CpuView, OpResult};
use vstd::prelude::*;

verus! {

/// The byte that stands for the instruction in a program.
pub const CODE: u8 = 0x00;

/// The instruction's mnemonic.
pub const NAME: &'static str = "NOP";

/// The number of bytes that the instruction takes in a program, its own byte
/// included.
pub const SIZE: u8 = 1;

/// No operation: nothing changes.
pub open spec fn effect(state: CpuView) -> (OpResult, CpuView) {
    (Ok(()), state)
}

/// Carries the instruction out on a processor whose program counter stands
/// behind the instruction's own byte.
pub fn run(_cpu: &mut Cpu) -> (res: OpResult)
    ensures
        *final(_cpu) == *old(_cpu),
        (res, final(_cpu)@) == effect(old(_cpu)@),
{
    Ok(())
}

/// The instruction takes `SIZE` bytes of the program, its own byte included.
pub proof fn lemma_size(state: CpuView)
    ensures
        effect(state).1 == state.advanced((SIZE - 1) as u16),
{
}

} // verus!
