use crate::cpu::{Cpu, CpuView, Error, OpResult};
use crate::memory::mapper::{mapped_store, mapped_store_result};
use vstd::prelude::*;

verus! {

/// The byte that stands for the instruction in a program.
pub const CODE: u8 = 0x15;

/// The instruction's mnemonic.
pub const NAME: &'static str = "MOV_LIT_MEM";

/// The number of bytes that the instruction takes in a program, its own byte
/// included.
pub const SIZE: u8 = 4;

/// Move a literal byte to memory. Operands: the literal, then the address.
pub open spec fn effect(state: CpuView) -> (OpResult, CpuView) {
    let (value, after_value) = state.fetch();
    match value {
        Err(err) => (Err(err), after_value),
        Ok(value) => {
            let (addr, next) = after_value.fetch_wide();
            match addr {
                Err(err) => (Err(err), next),
                Ok(addr) => (
                    Error::raised(mapped_store_result(next.memory, addr)),
                    next.with_memory(mapped_store(next.memory, addr, value)),
                ),
            }
        },
    }
}

/// Carries the instruction out on a processor whose program counter stands
/// behind the instruction's own byte.
pub fn run(cpu: &mut Cpu) -> (res: OpResult)
    ensures
        old(cpu).wf() ==> final(cpu).wf(),
        (res, final(cpu)@) == effect(old(cpu)@),
{
    let value = cpu.fetch()?;
    let addr = cpu.fetch_wide()?;
    if let Err(dev_err) = cpu.memory.set(addr, value) {
        return Err(Error::from(dev_err));
    }
    Ok(())
}

/// Where the instruction succeeds it has taken `SIZE` bytes of the program,
/// its own byte included, and has written to memory only.
pub proof fn lemma_size(state: CpuView)
    ensures
        effect(state).0 is Ok ==> effect(state).1.moved_on_with_memory(state, (SIZE - 1) as u16),
{
}

} // verus!
