use crate::memory::mapper::{
    is_highest_end, is_lowest_start, mapped_load, mapped_load_wide, same_ranges, RegionView,
};
use crate::memory::{DeviceError, MemoryMapper};
use crate::util::forward;
use operation::{hlt, mov, Operation};
use vstd::prelude::*;
use vstd::std_specs::convert::FromSpecImpl;

pub use register::{AnyRegister, InvalidRegister, Register, RegisterState, WideRegister};

pub mod operation;
pub mod register;

verus! {

/// The processor: its registers and the bus that it owns.
pub struct Cpu {
    pub registers: RegisterState,
    pub memory: MemoryMapper,
}

/// What an instruction can see and change: the registers and, region by
/// region, the bytes on the bus.
pub struct CpuView {
    pub registers: RegisterState,
    pub memory: Seq<RegionView>,
}

/// The number of steps after which a run is given up.
pub const RUN_LIMIT: u64 = 0xffff_ffff_ffff_ffff;

/// How an instruction ends.
pub type OpResult = Result<(), Error>;

/// Why the processor stops.
#[derive(Debug)]
pub enum Error {
    /// A halt instruction was reached.
    Halt,
    /// A device failed in a way of its own.
    Device(DeviceError),
    /// An address is backed by no device.
    OutOfBounds(u16),
    /// An operand byte names no register.
    InvalidRegister(InvalidRegister),
    /// The bus has no region.
    NoMemory,
}

impl Error {
    /// The processor's word for a device's refusal.
    pub open spec fn of_device(dev_err: DeviceError) -> Error {
        match dev_err {
            DeviceError::OutOfBounds(addr) => Error::OutOfBounds(addr),
            err => Error::Device(err),
        }
    }

    /// The result of a bus access as the processor reports it.
    pub open spec fn raised<T>(res: Result<T, DeviceError>) -> Result<T, Error> {
        match res {
            Ok(value) => Ok(value),
            Err(dev_err) => Err(Error::of_device(dev_err)),
        }
    }
}

impl From<DeviceError> for Error {
    fn from(dev_err: DeviceError) -> (err: Self) {
        match dev_err {
            DeviceError::OutOfBounds(addr) => Self::OutOfBounds(addr),
            err => Self::Device(err),
        }
    }
}

impl FromSpecImpl<DeviceError> for Error {
    open spec fn obeys_from_spec() -> bool {
        true
    }

    open spec fn from_spec(dev_err: DeviceError) -> Error {
        Error::of_device(dev_err)
    }
}

impl From<InvalidRegister> for Error {
    fn from(invalid: InvalidRegister) -> (err: Self) {
        Self::InvalidRegister(invalid)
    }
}

impl FromSpecImpl<InvalidRegister> for Error {
    open spec fn obeys_from_spec() -> bool {
        true
    }

    open spec fn from_spec(invalid: InvalidRegister) -> Error {
        Error::InvalidRegister(invalid)
    }
}

impl CpuView {
    /// The state with the program counter `count` bytes further on.
    pub open spec fn advanced(self, count: u16) -> CpuView {
        CpuView {
            registers: RegisterState { pc: forward(self.registers.pc, count), ..self.registers },
            memory: self.memory,
        }
    }

    /// The state with other registers.
    pub open spec fn with_registers(self, registers: RegisterState) -> CpuView {
        CpuView { registers, memory: self.memory }
    }

    /// The state with other bytes on the bus.
    pub open spec fn with_memory(self, memory: Seq<RegionView>) -> CpuView {
        CpuView { registers: self.registers, memory }
    }

    /// Whether `self` is `before` with the program counter `count` bytes
    /// further on and then one register written.
    pub open spec fn moved_on_with_register(self, before: CpuView, count: u16) -> bool {
        let base = before.advanced(count);
        &&& self.memory == base.memory
        &&& {
            ||| exists|reg: Register, value: u8|
                self.registers == #[trigger] base.registers.with_byte(reg, value)
            ||| exists|reg: WideRegister, value: u16|
                self.registers == #[trigger] base.registers.with_wide(reg, value)
        }
    }

    /// Whether `self` is `before` with the program counter `count` bytes
    /// further on and then memory written: the registers are otherwise the
    /// same, and so are the ranges of the regions.
    pub open spec fn moved_on_with_memory(self, before: CpuView, count: u16) -> bool {
        &&& self.registers == before.advanced(count).registers
        &&& same_ranges(before.memory, self.memory)
    }

    /// Fetching one byte: the byte on the bus at the program counter, and the
    /// program counter one further on whether or not the bus gave a byte.
    pub open spec fn fetch(self) -> (Result<u8, Error>, CpuView) {
        (Error::raised(mapped_load(self.memory, self.registers.pc)), self.advanced(1))
    }

    /// Fetching one word, upper byte first: the word on the bus at the
    /// program counter, and the program counter two further on whether or not
    /// the bus gave a word.
    pub open spec fn fetch_wide(self) -> (Result<u16, Error>, CpuView) {
        (Error::raised(mapped_load_wide(self.memory, self.registers.pc)), self.advanced(2))
    }

    /// Fetching an operand that names a byte register.
    pub open spec fn fetch_register(self) -> (Result<Register, Error>, CpuView) {
        let (fetched, next) = self.fetch();
        match fetched {
            Err(err) => (Err(err), next),
            Ok(addr) => match Register::at(addr) {
                Some(reg) => (Ok(reg), next),
                None => (Err(Error::InvalidRegister(InvalidRegister(addr))), next),
            },
        }
    }

    /// Fetching an operand that names a wide register.
    pub open spec fn fetch_register_wide(self) -> (Result<WideRegister, Error>, CpuView) {
        let (fetched, next) = self.fetch();
        match fetched {
            Err(err) => (Err(err), next),
            Ok(addr) => match WideRegister::at(addr) {
                Some(reg) => (Ok(reg), next),
                None => (Err(Error::InvalidRegister(InvalidRegister(addr))), next),
            },
        }
    }

    /// Fetching an operand that names a register of either width.
    pub open spec fn fetch_any_register(self) -> (Result<AnyRegister, Error>, CpuView) {
        let (fetched, next) = self.fetch();
        match fetched {
            Err(err) => (Err(err), next),
            Ok(addr) => match AnyRegister::at(addr) {
                Some(reg) => (Ok(reg), next),
                None => (Err(Error::InvalidRegister(InvalidRegister(addr))), next),
            },
        }
    }
}

impl CpuView {
    /// One step: the byte at the program counter is fetched and read as an
    /// instruction, and the instruction is carried out.
    pub open spec fn step(self) -> (OpResult, CpuView) {
        let (opcode, next) = self.fetch();
        match opcode {
            Err(err) => (Err(err), next),
            Ok(code) => Operation::decode(code).effect(next),
        }
    }

    /// Steps until one fails, but no more than `limit` steps: whether a step
    /// failed, and the state that the last step left.
    pub open spec fn run(self, limit: nat) -> (bool, CpuView)
        decreases limit,
    {
        if limit == 0 {
            (false, self)
        } else {
            let (res, next) = self.step();
            if res is Err {
                (true, next)
            } else {
                next.run((limit - 1) as nat)
            }
        }
    }
}

impl CpuView {
    /// Where the bus gives no byte at the program counter, the step fails
    /// with the bus's refusal, and the program counter is one further on.
    pub proof fn lemma_step_without_opcode(self, dev_err: DeviceError)
        requires
            mapped_load(self.memory, self.registers.pc) == Err::<u8, DeviceError>(dev_err),
        ensures
            self.step() == (Err::<(), Error>(Error::of_device(dev_err)), self.advanced(1)),
    {
    }

    /// Where the byte at the program counter stands for no instruction, the
    /// step succeeds and changes nothing but the program counter, which is one
    /// further on.
    pub proof fn lemma_step_unknown_opcode(self, code: u8)
        requires
            mapped_load(self.memory, self.registers.pc) == Ok::<u8, DeviceError>(code),
            forall|op: Operation| op.opcode() != code,
        ensures
            self.step() == (Ok::<(), Error>(()), self.advanced(1)),
    {
    }

    /// A halt instruction fails the step with `Halt`; its own byte is
    /// consumed all the same, so the program counter is one further on.
    pub proof fn lemma_step_halt(self)
        requires
            mapped_load(self.memory, self.registers.pc) == Ok::<u8, DeviceError>(hlt::CODE),
        ensures
            self.step() == (Err::<(), Error>(Error::Halt), self.advanced(1)),
    {
        Operation::Hlt.lemma_decode_opcode();
    }

    /// The three bytes of a move of `literal` to the byte register `reg`,
    /// stepped over, leave `literal` in `reg` and the program counter three
    /// further on.
    pub proof fn lemma_step_mov_lit_reg(self, literal: u8, reg: Register)
        requires
            mapped_load(self.memory, self.registers.pc) == Ok::<u8, DeviceError>(
                mov::lit_reg::CODE,
            ),
            mapped_load(self.memory, forward(self.registers.pc, 1)) == Ok::<u8, DeviceError>(
                literal,
            ),
            mapped_load(self.memory, forward(self.registers.pc, 2)) == Ok::<u8, DeviceError>(
                reg.code(),
            ),
        ensures
            self.step() == (
                Ok::<(), Error>(()),
                self.advanced(3).with_registers(
                    self.advanced(3).registers.with_byte(reg, literal),
                ),
            ),
    {
        Operation::MovLitReg.lemma_decode_opcode();
        reg.lemma_at_code();
    }

    /// The five bytes of a move to the byte register `to` of the byte in
    /// memory at `literal` plus what the wide register `from` holds, stepped
    /// over, leave that byte in `to` and the program counter five further on.
    pub proof fn lemma_step_mov_lit_off_reg(
        self,
        literal: u16,
        from: WideRegister,
        to: Register,
        value: u8,
    )
        requires
            mapped_load(self.memory, self.registers.pc) == Ok::<u8, DeviceError>(
                mov::lit_off_reg::CODE,
            ),
            mapped_load_wide(self.memory, forward(self.registers.pc, 1)) == Ok::<
                u16,
                DeviceError,
            >(literal),
            mapped_load(self.memory, forward(self.registers.pc, 3)) == Ok::<u8, DeviceError>(
                from.code(),
            ),
            mapped_load(self.memory, forward(self.registers.pc, 4)) == Ok::<u8, DeviceError>(
                to.code(),
            ),
            mapped_load(self.memory, forward(literal, self.advanced(4).registers.wide(from)))
                == Ok::<u8, DeviceError>(value),
        ensures
            self.step() == (
                Ok::<(), Error>(()),
                self.advanced(5).with_registers(self.advanced(5).registers.with_byte(to, value)),
            ),
    {
        Operation::MovLitOffReg.lemma_decode_opcode();
        from.lemma_at_code();
        AnyRegister::Std(to).lemma_at_code();
    }
}

impl View for Cpu {
    type V = CpuView;

    open spec fn view(&self) -> CpuView {
        CpuView { registers: self.registers, memory: self.memory@ }
    }
}

impl Cpu {
    /// The processor's bus is well formed.
    pub open spec fn wf(&self) -> bool {
        self.memory.wf()
    }

    /// A processor over `mem_map`, with all byte registers at zero, the
    /// program counter at the lowest address that any region starts at and the
    /// stack pointer at the highest address that any region ends at. A bus
    /// without regions is refused.
    pub fn new(mem_map: MemoryMapper) -> (res: Result<Self, Error>)
        requires
            mem_map.wf(),
        ensures
            res is Err <==> mem_map@.len() == 0,
            res matches Err(err) ==> err == Error::NoMemory,
            res matches Ok(cpu) ==> {
                &&& cpu.wf()
                &&& cpu.memory == mem_map
                &&& is_lowest_start(mem_map@, cpu.registers.pc)
                &&& is_highest_end(mem_map@, cpu.registers.sp)
                &&& cpu.registers == RegisterState {
                    pc: cpu.registers.pc,
                    sp: cpu.registers.sp,
                    ..RegisterState::zeroed()
                }
            },
    {
        let pc = match mem_map.start() {
            Some(start) => start,
            None => {
                return Err(Error::NoMemory);
            },
        };
        let sp = match mem_map.end() {
            Some(end) => end,
            None => {
                return Err(Error::NoMemory);
            },
        };
        let mut cpu = Self { registers: RegisterState::new(), memory: mem_map };
        cpu.registers.set_wide(WideRegister::PC, pc);
        cpu.registers.set_wide(WideRegister::SP, sp);
        Ok(cpu)
    }

    /// Reads the byte at the program counter and moves the program counter
    /// one on.
    pub fn fetch(&mut self) -> (res: Result<u8, Error>)
        ensures
            old(self).wf() ==> final(self).wf(),
            (res, final(self)@) == old(self)@.fetch(),
    {
        let addr = self.registers.get_wide(WideRegister::PC);
        self.registers.set_wide(WideRegister::PC, addr.wrapping_add(1));
        match self.memory.get(addr) {
            Ok(value) => Ok(value),
            Err(dev_err) => Err(Error::from(dev_err)),
        }
    }

    /// Reads the word at the program counter and moves the program counter
    /// two on.
    pub fn fetch_wide(&mut self) -> (res: Result<u16, Error>)
        ensures
            old(self).wf() ==> final(self).wf(),
            (res, final(self)@) == old(self)@.fetch_wide(),
    {
        let addr = self.registers.get_wide(WideRegister::PC);
        self.registers.set_wide(WideRegister::PC, addr.wrapping_add(2));
        match self.memory.get_wide(addr) {
            Ok(value) => Ok(value),
            Err(dev_err) => Err(Error::from(dev_err)),
        }
    }

    /// Fetches one byte and reads it as the name of a byte register.
    pub fn fetch_register(&mut self) -> (res: Result<Register, Error>)
        ensures
            old(self).wf() ==> final(self).wf(),
            (res, final(self)@) == old(self)@.fetch_register(),
    {
        match Register::try_from(self.fetch()?) {
            Ok(reg) => Ok(reg),
            Err(invalid) => Err(Error::from(invalid)),
        }
    }

    /// Fetches one byte and reads it as the name of a wide register.
    pub fn fetch_register_wide(&mut self) -> (res: Result<WideRegister, Error>)
        ensures
            old(self).wf() ==> final(self).wf(),
            (res, final(self)@) == old(self)@.fetch_register_wide(),
    {
        match WideRegister::try_from(self.fetch()?) {
            Ok(reg) => Ok(reg),
            Err(invalid) => Err(Error::from(invalid)),
        }
    }

    /// Fetches one byte and reads it as the name of a register of either
    /// width.
    pub fn fetch_any_register(&mut self) -> (res: Result<AnyRegister, Error>)
        ensures
            old(self).wf() ==> final(self).wf(),
            (res, final(self)@) == old(self)@.fetch_any_register(),
    {
        match AnyRegister::try_from(self.fetch()?) {
            Ok(reg) => Ok(reg),
            Err(invalid) => Err(Error::from(invalid)),
        }
    }

    /// Steps until a step fails. Every failure stops the run, a halt as any
    /// other, and the caller sees only the state that the failing step left.
    /// A program that never fails is given up after `RUN_LIMIT` steps.
    pub fn run(&mut self)
        ensures
            old(self).wf() ==> final(self).wf(),
            final(self)@ == old(self)@.run(RUN_LIMIT as nat).1,
    {
        let mut left = RUN_LIMIT;
        while left > 0
            invariant
                old(self).wf() ==> self.wf(),
                old(self)@.run(RUN_LIMIT as nat) == self@.run(left as nat),
            decreases left,
        {
            if let Err(_err) = self.step() {
                return ;
            }
            left -= 1;
        }
    }

    /// Fetches the byte at the program counter, reads it as an instruction
    /// and carries the instruction out.
    pub fn step(&mut self) -> (res: OpResult)
        ensures
            old(self).wf() ==> final(self).wf(),
            (res, final(self)@) == old(self)@.step(),
    {
        let opcode = self.fetch()?;
        let operation = Operation::from(opcode);
        operation.execute(self)
    }
}

} // verus!
