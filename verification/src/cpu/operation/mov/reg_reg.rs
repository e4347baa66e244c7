use crate::cpu::{AnyRegister, Cpu, CpuView, OpResult};
use vstd::prelude::*;

verus! {

/// The byte that stands for the instruction in a program.
pub const CODE: u8 = 0x12;

/// The instruction's mnemonic.
pub const NAME: &'static str = "MOV_REG_REG";

/// The number of bytes that the instruction takes in a program, its own byte
/// included.
pub const SIZE: u8 = 3;

/// Move a register to a register of the same width. Operands: the source, of
/// either width, then the target, which must name a register of the source's
/// width.
pub open spec fn effect(state: CpuView) -> (OpResult, CpuView) {
    let (from, after_from) = state.fetch_any_register();
    match from {
        Err(err) => (Err(err), after_from),
        Ok(AnyRegister::Std(from)) => {
            let (to, next) = after_from.fetch_register();
            match to {
                Err(err) => (Err(err), next),
                Ok(to) => (
                    Ok(()),
                    next.with_registers(next.registers.with_byte(to, next.registers.byte(from))),
                ),
            }
        },
        Ok(AnyRegister::Wide(from)) => {
            let (to, next) = after_from.fetch_register_wide();
            match to {
                Err(err) => (Err(err), next),
                Ok(to) => (
                    Ok(()),
                    next.with_registers(next.registers.with_wide(to, next.registers.wide(from))),
                ),
            }
        },
    }
}

/// Carries the instruction out on a processor whose program counter stands
/// behind the instruction's own byte.
pub fn run(cpu: &mut Cpu) -> (res: OpResult)
    ensures
        old(cpu).wf() ==> final(cpu).wf(),
        (res, final(cpu)@) == effect(old(cpu)@),
{
    match cpu.fetch_any_register()? {
        AnyRegister::Std(from) => {
            let to = cpu.fetch_register()?;
            let value = cpu.registers.get(from);
            cpu.registers.set(to, value);
        },
        AnyRegister::Wide(from) => {
            let to = cpu.fetch_register_wide()?;
            let value = cpu.registers.get_wide(from);
            cpu.registers.set_wide(to, value);
        },
    }
    Ok(())
}

/// Where the instruction succeeds it has taken `SIZE` bytes of the program,
/// its own byte included, and has written one register.
pub proof fn lemma_size(state: CpuView)
    ensures
        effect(state).0 is Ok ==> effect(state).1.moved_on_with_register(
            state,
            (SIZE - 1) as u16,
        ),
{
    let (from, after_from) = state.fetch_any_register();
    match from {
        Ok(AnyRegister::Std(from)) => {
            let (to, next) = after_from.fetch_register();
            if to is Ok {
                assert(next == state.advanced(2));
                assert(effect(state).1.registers == state.advanced(2).registers.with_byte(
                    to->Ok_0,
                    next.registers.byte(from),
                ));
            }
        },
        Ok(AnyRegister::Wide(from)) => {
            let (to, next) = after_from.fetch_register_wide();
            if to is Ok {
                assert(next == state.advanced(2));
                assert(effect(state).1.registers == state.advanced(2).registers.with_wide(
                    to->Ok_0,
                    next.registers.wide(from),
                ));
            }
        },
        Err(_) => {},
    }
}

} // verus!
