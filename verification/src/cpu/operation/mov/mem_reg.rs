use super::{load_effect, mov_mem_reg};
use crate::cpu::{Cpu, CpuView, OpResult};
use vstd::prelude::*;

verus! {

/// The byte that stands for the instruction in a program.
pub const CODE: u8 = 0x14;

/// The instruction's mnemonic.
pub const NAME: &'static str = "MOV_MEM_REG";

/// The number of bytes that the instruction takes in a program, its own byte
/// included.
pub const SIZE: u8 = 4;

/// Move memory to a register. Operands: the address, then the register, of
/// either width.
pub open spec fn effect(state: CpuView) -> (OpResult, CpuView) {
    let (addr, next) = state.fetch_wide();
    match addr {
        Err(err) => (Err(err), next),
        Ok(addr) => load_effect(next, addr),
    }
}

/// Carries the instruction out on a processor whose program counter stands
/// behind the instruction's own byte.
pub fn run(cpu: &mut Cpu) -> (res: OpResult)
    ensures
        old(cpu).wf() ==> final(cpu).wf(),
        (res, final(cpu)@) == effect(old(cpu)@),
{
    let addr = cpu.fetch_wide()?;
    mov_mem_reg(cpu, addr)
}

/// Where the instruction succeeds it has taken `SIZE` bytes of the program,
/// its own byte included, and has written one register.
pub proof fn lemma_size(state: CpuView)
    ensures
        effect(state).0 is Ok ==> effect(state).1.moved_on_with_register(
            state,
            (SIZE - 1) as u16,
        ),
{
    let (addr, next) = state.fetch_wide();
    if addr is Ok {
        super::lemma_load_effect(next, addr->Ok_0);
        assert(next.advanced(1) == state.advanced(3));
    }
}

} // verus!
