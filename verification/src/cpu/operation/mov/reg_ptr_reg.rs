use super::{load_effect, mov_mem_reg};
use crate::cpu::{Cpu, CpuView, OpResult};
use vstd::prelude::*;

verus! {

/// The byte that stands for the instruction in a program.
pub const CODE: u8 = 0x17;

/// The instruction's mnemonic.
pub const NAME: &'static str = "MOV_REG_PTR_REG";

/// The number of bytes that the instruction takes in a program, its own byte
/// included.
pub const SIZE: u8 = 3;

/// Move memory at the address that a wide register holds to a register.
/// Operands: the wide register that holds the address, then the target
/// register, of either width.
pub open spec fn effect(state: CpuView) -> (OpResult, CpuView) {
    let (from, next) = state.fetch_register_wide();
    match from {
        Err(err) => (Err(err), next),
        Ok(from) => load_effect(next, next.registers.wide(from)),
    }
}

/// Carries the instruction out on a processor whose program counter stands
/// behind the instruction's own byte.
pub fn run(cpu: &mut Cpu) -> (res: OpResult)
    ensures
        old(cpu).wf() ==> final(cpu).wf(),
        (res, final(cpu)@) == effect(old(cpu)@),
{
    let from = cpu.fetch_register_wide()?;
    let addr = cpu.registers.get_wide(from);
    mov_mem_reg(cpu, addr)
}

/// Where the instruction succeeds it has taken `SIZE` bytes of the program,
/// its own byte included, and has written one register.
pub proof fn lemma_size(state: CpuView)
    ensures
        effect(state).0 is Ok ==> effect(state).1.moved_on_with_register(
            state,
            (SIZE - 1) as u16,
        ),
{
    let (from, next) = state.fetch_register_wide();
    if from is Ok {
        super::lemma_load_effect(next, next.registers.wide(from->Ok_0));
        assert(next.advanced(1) == state.advanced(2));
    }
}

} // verus!
