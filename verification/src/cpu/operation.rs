use super::{Cpu, CpuView, OpResult};
use vstd::prelude::*;
use vstd::std_specs::convert::FromSpecImpl;

pub mod hlt;
pub mod mov;
pub mod nop;

verus! {

/// The instructions.
#[derive(Debug, PartialEq, Eq, Copy, Clone, Structural)]
pub enum Operation {
    /// No operation
    Nop,
    /// Halt
    Hlt,
    /// Move literal to register
    MovLitReg,
    /// Move wide literal to wide register
    MovLitRegWide,
    /// Move register to register
    MovRegReg,
    /// Move register to memory
    MovRegMem,
    /// Move memory to register
    MovMemReg,
    /// Move literal to memory
    MovLitMem,
    /// Move wide literal to memory
    MovLitMemWide,
    /// Move value at memory[wide register] to register
    MovRegPtrReg,
    /// Move value at memory[wide literal + wide register] to register
    MovLitOffReg,
}

impl Operation {
    /// The byte that stands for the instruction in a program.
    pub open spec fn opcode(self) -> u8 {
        match self {
            Operation::Nop => nop::CODE,
            Operation::Hlt => hlt::CODE,
            Operation::MovLitReg => mov::lit_reg::CODE,
            Operation::MovLitRegWide => mov::lit_reg_wide::CODE,
            Operation::MovRegReg => mov::reg_reg::CODE,
            Operation::MovRegMem => mov::reg_mem::CODE,
            Operation::MovMemReg => mov::mem_reg::CODE,
            Operation::MovLitMem => mov::lit_mem::CODE,
            Operation::MovLitMemWide => mov::lit_mem_wide::CODE,
            Operation::MovRegPtrReg => mov::reg_ptr_reg::CODE,
            Operation::MovLitOffReg => mov::lit_off_reg::CODE,
        }
    }

    /// The instruction's name.
    pub open spec fn name(self) -> Seq<char> {
        match self {
            Operation::Nop => "Nop"@,
            Operation::Hlt => "Hlt"@,
            Operation::MovLitReg => "MovLitReg"@,
            Operation::MovLitRegWide => "MovLitRegWide"@,
            Operation::MovRegReg => "MovRegReg"@,
            Operation::MovRegMem => "MovRegMem"@,
            Operation::MovMemReg => "MovMemReg"@,
            Operation::MovLitMem => "MovLitMem"@,
            Operation::MovLitMemWide => "MovLitMemWide"@,
            Operation::MovRegPtrReg => "MovRegPtrReg"@,
            Operation::MovLitOffReg => "MovLitOffReg"@,
        }
    }

    /// The instruction that `code` stands for. A byte that stands for no
    /// instruction is read as no operation.
    pub open spec fn decode(code: u8) -> Operation {
        if exists|op: Operation| op.opcode() == code {
            choose|op: Operation| op.opcode() == code
        } else {
            Operation::Nop
        }
    }

    /// No two instructions share a byte, so `decode` undoes `opcode`.
    pub proof fn lemma_decode_opcode(self)
        ensures
            Operation::decode(self.opcode()) == self,
    {
        let found = choose|op: Operation| op.opcode() == self.opcode();
        assert(found.opcode() == self.opcode());
    }

    /// What the instruction does to a state whose program counter stands
    /// behind the instruction's own byte.
    pub open spec fn effect(self, state: CpuView) -> (OpResult, CpuView) {
        match self {
            Operation::Nop => nop::effect(state),
            Operation::Hlt => hlt::effect(state),
            Operation::MovLitReg => mov::lit_reg::effect(state),
            Operation::MovLitRegWide => mov::lit_reg_wide::effect(state),
            Operation::MovRegReg => mov::reg_reg::effect(state),
            Operation::MovRegMem => mov::reg_mem::effect(state),
            Operation::MovMemReg => mov::mem_reg::effect(state),
            Operation::MovLitMem => mov::lit_mem::effect(state),
            Operation::MovLitMemWide => mov::lit_mem_wide::effect(state),
            Operation::MovRegPtrReg => mov::reg_ptr_reg::effect(state),
            Operation::MovLitOffReg => mov::lit_off_reg::effect(state),
        }
    }

    /// Carries the instruction out: fetches its operands and changes
    /// registers and memory.
    pub fn execute(&self, cpu: &mut Cpu) -> (res: OpResult)
        ensures
            old(cpu).wf() ==> final(cpu).wf(),
            (res, final(cpu)@) == self.effect(old(cpu)@),
    {
        match self {
            Operation::Nop => nop::run(cpu),
            Operation::Hlt => hlt::run(cpu),
            Operation::MovLitReg => mov::lit_reg::run(cpu),
            Operation::MovLitRegWide => mov::lit_reg_wide::run(cpu),
            Operation::MovRegReg => mov::reg_reg::run(cpu),
            Operation::MovRegMem => mov::reg_mem::run(cpu),
            Operation::MovMemReg => mov::mem_reg::run(cpu),
            Operation::MovLitMem => mov::lit_mem::run(cpu),
            Operation::MovLitMemWide => mov::lit_mem_wide::run(cpu),
            Operation::MovRegPtrReg => mov::reg_ptr_reg::run(cpu),
            Operation::MovLitOffReg => mov::lit_off_reg::run(cpu),
        }
    }

    /// The instruction's name.
    pub fn as_str(&self) -> (name: &'static str)
        ensures
            name@ == self.name(),
    {
        match self {
            Operation::Nop => "Nop",
            Operation::Hlt => "Hlt",
            Operation::MovLitReg => "MovLitReg",
            Operation::MovLitRegWide => "MovLitRegWide",
            Operation::MovRegReg => "MovRegReg",
            Operation::MovRegMem => "MovRegMem",
            Operation::MovMemReg => "MovMemReg",
            Operation::MovLitMem => "MovLitMem",
            Operation::MovLitMemWide => "MovLitMemWide",
            Operation::MovRegPtrReg => "MovRegPtrReg",
            Operation::MovLitOffReg => "MovLitOffReg",
        }
    }

    /// The name as an owned string.
    pub fn to_string(&self) -> (name: String)
        ensures
            name@ == self.name(),
    {
        self.as_str().to_owned()
    }

    /// The byte that stands for the instruction in a program.
    pub fn addr(&self) -> (code: u8)
        ensures
            code == self.opcode(),
    {
        match self {
            Operation::Nop => nop::CODE,
            Operation::Hlt => hlt::CODE,
            Operation::MovLitReg => mov::lit_reg::CODE,
            Operation::MovLitRegWide => mov::lit_reg_wide::CODE,
            Operation::MovRegReg => mov::reg_reg::CODE,
            Operation::MovRegMem => mov::reg_mem::CODE,
            Operation::MovMemReg => mov::mem_reg::CODE,
            Operation::MovLitMem => mov::lit_mem::CODE,
            Operation::MovLitMemWide => mov::lit_mem_wide::CODE,
            Operation::MovRegPtrReg => mov::reg_ptr_reg::CODE,
            Operation::MovLitOffReg => mov::lit_off_reg::CODE,
        }
    }
}

impl From<u8> for Operation {
    fn from(code: u8) -> (op: Self) {
        let op = if code == hlt::CODE {
            Operation::Hlt
        } else if code == mov::lit_reg::CODE {
            Operation::MovLitReg
        } else if code == mov::lit_reg_wide::CODE {
            Operation::MovLitRegWide
        } else if code == mov::reg_reg::CODE {
            Operation::MovRegReg
        } else if code == mov::reg_mem::CODE {
            Operation::MovRegMem
        } else if code == mov::mem_reg::CODE {
            Operation::MovMemReg
        } else if code == mov::lit_mem::CODE {
            Operation::MovLitMem
        } else if code == mov::lit_mem_wide::CODE {
            Operation::MovLitMemWide
        } else if code == mov::reg_ptr_reg::CODE {
            Operation::MovRegPtrReg
        } else if code == mov::lit_off_reg::CODE {
            Operation::MovLitOffReg
        } else {
            Operation::Nop
        };
        proof {
            if op.opcode() == code {
                op.lemma_decode_opcode();
            }
        }
        op
    }
}

impl FromSpecImpl<u8> for Operation {
    open spec fn obeys_from_spec() -> bool {
        true
    }

    open spec fn from_spec(code: u8) -> Operation {
        Operation::decode(code)
    }
}

impl From<Operation> for u8 {
    fn from(op: Operation) -> (code: u8) {
        op.addr()
    }
}

impl FromSpecImpl<Operation> for u8 {
    open spec fn obeys_from_spec() -> bool {
        true
    }

    open spec fn from_spec(op: Operation) -> u8 {
        op.opcode()
    }
}

} // verus!
