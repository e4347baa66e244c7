use crate::cpu::{AnyRegister, Cpu, CpuView, Error, OpResult};
use crate::memory::mapper::{
    mapped_store, mapped_store_result, mapped_store_wide, mapped_store_wide_result,
};
use vstd::prelude::*;

verus! {

/// The byte that stands for the instruction in a program.
pub const CODE: u8 = 0x13;

/// The instruction's mnemonic.
pub const NAME: &'static str = "MOV_REG_MEM";

/// The number of bytes that the instruction takes in a program, its own byte
/// included.
pub const SIZE: u8 = 4;

/// Move a register to memory: one byte from a byte register, one word from a
/// wide register. Operands: the register, of either width, then the address.
pub open spec fn effect(state: CpuView) -> (OpResult, CpuView) {
    let (from, after_from) = state.fetch_any_register();
    match from {
        Err(err) => (Err(err), after_from),
        Ok(from) => {
            let (addr, next) = after_from.fetch_wide();
            match (addr, from) {
                (Err(err), _) => (Err(err), next),
                (Ok(addr), AnyRegister::Std(reg)) => (
                    Error::raised(mapped_store_result(next.memory, addr)),
                    next.with_memory(mapped_store(next.memory, addr, next.registers.byte(reg))),
                ),
                (Ok(addr), AnyRegister::Wide(reg)) => (
                    Error::raised(mapped_store_wide_result(next.memory, addr)),
                    next.with_memory(
                        mapped_store_wide(next.memory, addr, next.registers.wide(reg)),
                    ),
                ),
            }
        },
    }
}

/// Carries the instruction out on a processor whose program counter stands
/// behind the instruction's own byte.
pub fn run(cpu: &mut Cpu) -> (res: OpResult)
    ensures
        old(cpu).wf() ==> final(cpu).wf(),
        (res, final(cpu)@) == effect(old(cpu)@),
{
    match cpu.fetch_any_register()? {
        AnyRegister::Std(reg) => {
            let addr = cpu.fetch_wide()?;
            let value = cpu.registers.get(reg);
            if let Err(dev_err) = cpu.memory.set(addr, value) {
                return Err(Error::from(dev_err));
            }
        },
        AnyRegister::Wide(reg) => {
            let addr = cpu.fetch_wide()?;
            let value = cpu.registers.get_wide(reg);
            if let Err(dev_err) = cpu.memory.set_wide(addr, value) {
                return Err(Error::from(dev_err));
            }
        },
    }
    Ok(())
}

/// Where the instruction succeeds it has taken `SIZE` bytes of the program,
/// its own byte included, and has written to memory only.
pub proof fn lemma_size(state: CpuView)
    ensures
        effect(state).0 is Ok ==> effect(state).1.moved_on_with_memory(state, (SIZE - 1) as u16),
{
}

} // verus!
