use crate::cpu::{Cpu, CpuView, OpResult};
use vstd::prelude::*;

verus! {

/// The byte that stands for the instruction in a program.
pub const CODE: u8 = 0x11;

/// The instruction's mnemonic.
pub const NAME: &'static str = "MOV_LIT_REG_WIDE";

/// The number of bytes that the instruction takes in a program, its own byte
/// included.
pub const SIZE: u8 = 4;

/// Move a literal word to a wide register. Operands: the literal, then the
/// register.
pub open spec fn effect(state: CpuView) -> (OpResult, CpuView) {
    let (literal, after_literal) = state.fetch_wide();
    match literal {
        Err(err) => (Err(err), after_literal),
        Ok(literal) => {
            let (reg, next) = after_literal.fetch_register_wide();
            match reg {
                Err(err) => (Err(err), next),
                Ok(reg) => (Ok(()), next.with_registers(next.registers.with_wide(reg, literal))),
            }
        },
    }
}

/// Carries the instruction out on a processor whose program counter stands
/// behind the instruction's own byte.
pub fn run(cpu: &mut Cpu) -> (res: OpResult)
    ensures
        old(cpu).wf() ==> final(cpu).wf(),
        (res, final(cpu)@) == effect(old(cpu)@),
{
    let literal = cpu.fetch_wide()?;
    let reg = cpu.fetch_register_wide()?;
    cpu.registers.set_wide(reg, literal);
    Ok(())
}

/// Where the instruction succeeds it has taken `SIZE` bytes of the program,
/// its own byte included, and has written one register.
pub proof fn lemma_size(state: CpuView)
    ensures
        effect(state).0 is Ok ==> effect(state).1.moved_on_with_register(
            state,
            (SIZE - 1) as u16,
        ),
{
    let (literal, after_literal) = state.fetch_wide();
    let (reg, next) = after_literal.fetch_register_wide();
    if literal is Ok && reg is Ok {
        assert(next == state.advanced(3));
        assert(effect(state).1.registers == state.advanced(3).registers.with_wide(
            reg->Ok_0,
            literal->Ok_0,
        ));
    }
}

} // verus!
