use crate::cpu::{AnyRegister, Cpu, CpuView, Error, OpResult};
use crate::memory::mapper::{mapped_load, mapped_load_wide};
use vstd::prelude::*;

pub mod lit_reg;
pub mod lit_reg_wide;

pub mod reg_reg;

pub mod reg_mem;

pub mod mem_reg;

pub mod lit_mem;
pub mod lit_mem_wide;

pub mod reg_ptr_reg;

pub mod lit_off_reg;

verus! {

/// Moving what the bus holds at `addr` into the register that the next
/// operand names: one byte into a byte register, one word into a wide
/// register. The operand is fetched before the bus is read.
pub open spec fn load_effect(state: CpuView, addr: u16) -> (OpResult, CpuView) {
    let (target, next) = state.fetch_any_register();
    match target {
        Err(err) => (Err(err), next),
        Ok(AnyRegister::Std(reg)) => match mapped_load(next.memory, addr) {
            Err(dev_err) => (Err(Error::of_device(dev_err)), next),
            Ok(value) => (Ok(()), next.with_registers(next.registers.with_byte(reg, value))),
        },
        Ok(AnyRegister::Wide(reg)) => match mapped_load_wide(next.memory, addr) {
            Err(dev_err) => (Err(Error::of_device(dev_err)), next),
            Ok(value) => (Ok(()), next.with_registers(next.registers.with_wide(reg, value))),
        },
    }
}

/// Where the move succeeds it has taken one byte of the program and has
/// written one register.
pub proof fn lemma_load_effect(state: CpuView, addr: u16)
    ensures
        load_effect(state, addr).0 is Ok ==> load_effect(state, addr).1.moved_on_with_register(
            state,
            1,
        ),
{
    let (target, next) = state.fetch_any_register();
    match target {
        Ok(AnyRegister::Std(reg)) => {
            let value = mapped_load(next.memory, addr);
            if value is Ok {
                assert(load_effect(state, addr).1.registers == state.advanced(
                    1,
                ).registers.with_byte(reg, value->Ok_0));
            }
        },
        Ok(AnyRegister::Wide(reg)) => {
            let value = mapped_load_wide(next.memory, addr);
            if value is Ok {
                assert(load_effect(state, addr).1.registers == state.advanced(
                    1,
                ).registers.with_wide(reg, value->Ok_0));
            }
        },
        Err(_) => {},
    }
}

/// Moves what the bus holds at `addr` into the register that the next operand
/// names.
pub fn mov_mem_reg(cpu: &mut Cpu, addr: u16) -> (res: OpResult)
    ensures
        old(cpu).wf() ==> final(cpu).wf(),
        (res, final(cpu)@) == load_effect(old(cpu)@, addr),
{
    match cpu.fetch_any_register()? {
        AnyRegister::Std(reg) => {
            let value = match cpu.memory.get(addr) {
                Ok(value) => value,
                Err(dev_err) => {
                    return Err(Error::from(dev_err));
                },
            };
            cpu.registers.set(reg, value);
        },
        AnyRegister::Wide(reg) => {
            let value = match cpu.memory.get_wide(addr) {
                Ok(value) => value,
                Err(dev_err) => {
                    return Err(Error::from(dev_err));
                },
            };
            cpu.registers.set_wide(reg, value);
        },
    }
    Ok(())
}

} // verus!
