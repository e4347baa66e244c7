use h8bit_vm::cpu::operation::{hlt, mov, nop, Operation};
use h8bit_vm::cpu::register::{InvalidRegister, RegisterState};
use h8bit_vm::cpu::{Cpu, Error, OpResult, Register, WideRegister, RUN_LIMIT};
use h8bit_vm::memory::{Device, DeviceError, MemoryMapper};
use h8bit_vm::util::high_and_low_value;
use std::collections::BTreeMap;

const PC: WideRegister = WideRegister::PC;
const SP: WideRegister = WideRegister::SP;

#[derive(Debug, Clone)]
pub struct TestDevice(Vec<u8>);

impl TestDevice {
    pub fn new(size: u16) -> Self {
        Self(vec![0; size as usize])
    }

    pub fn resize(&mut self, size: u16) {
        let mut new = Self::new(size);
        let data = match size {
            n if n > self.size() => &self.0,
            n => &self.0[0..n as usize],
        };
        new.write_slice(data);
    }

    pub fn size(&self) -> u16 {
        self.0.len() as u16
    }

    pub fn write_slice(&mut self, data: &[u8]) {
        self.0[0..data.len()].copy_from_slice(data);
    }

    pub fn get_slice(&self, start: usize, len: usize) -> &[u8] {
        &self.0[start..len + start]
    }

    pub fn end(&self) -> u16 {
        match self.size() {
            0 => 0,
            x => x - 1,
        }
    }
}

impl Device for TestDevice {
    fn set(&mut self, addr: u16, data: u8) -> Result<(), DeviceError> {
        let size = self.0.len();
        match addr {
            a if a as usize >= size => Err(DeviceError::OutOfBounds(a)),
            _ => Ok(self.0[addr as usize] = data),
        }
    }

    fn get(&self, addr: u16) -> Result<u8, DeviceError> {
        let size = self.0.len();
        match addr {
            a if a as usize >= size => Err(DeviceError::OutOfBounds(a)),
            _ => Ok(self.0[addr as usize]),
        }
    }
}

/// A device whose every access fails in a way of its own.
pub struct BrokenDevice;

impl Device for BrokenDevice {
    fn set(&mut self, _addr: u16, _data: u8) -> Result<(), DeviceError> {
        Err(DeviceError::Other)
    }

    fn get(&self, _addr: u16) -> Result<u8, DeviceError> {
        Err(DeviceError::Other)
    }
}

// the processor

#[test]
fn new_cpu_error() {
    let mapper = MemoryMapper::new();
    let err = match Cpu::new(mapper) {
        Err(err) => err,
        Ok(_) => panic!("invalid cpu"),
    };
    assert!(matches!(err, Error::NoMemory));
}

#[test]
fn step_halt_program() {
    let program = [0xFF];
    let mut cpu = create_cpu_with_boot(&program);
    let err = cpu.step().expect_err("halting error");
    assert!(matches!(err, Error::Halt));
}

#[test]
fn step_nop_halt_program() {
    let program = [0x00, 0xFF];
    let mut cpu = create_cpu_with_boot(&program);
    cpu.step().expect("NOP doesn't error");
    let err = cpu.step().expect_err("halting error");
    assert!(matches!(err, Error::Halt));
}

#[test]
fn fetch_no_mem() {
    let mut cpu = create_cpu_with_boot_only(&[]);
    let err = cpu.fetch().expect_err("out of bounds error");
    assert_cpu_error_is_out_of_bounds(err, 0);
}

#[test]
fn fetch_wide_no_mem() {
    let mut cpu = create_cpu_with_boot_only(&[]);
    let err = cpu.fetch_wide().expect_err("out of bounds error");
    assert_cpu_error_is_out_of_bounds(err, 0);
}

#[test]
fn run_no_program() {
    let mut cpu = create_cpu_with_boot(&[]);
    cpu.run();
}

#[test]
fn run_no_program_stops_behind_the_memory() {
    let mut cpu = create_cpu_with_boot(&[]);
    cpu.run();
    // 0xfffe steps of no operation, then a fetch at the first address without memory
    assert_eq!(0xffff, cpu.registers.get_wide(PC));
    let expected = RegisterState { pc: 0xffff, sp: 0xfffd, ..RegisterState::new() };
    assert_eq!(expected, cpu.registers);
}

#[test]
fn run_limit_is_out_of_reach() {
    assert_eq!(u64::MAX, RUN_LIMIT);
}

#[test]
fn new_cpu_starts_at_the_bounds_of_the_bus() {
    let mut mapper = MemoryMapper::new();
    mapper.add_device(Box::new(TestDevice::new(8)), 0x20, 0x27);
    mapper.add_device(Box::new(TestDevice::new(8)), 0x10, 0x17);
    mapper.add_device(Box::new(TestDevice::new(8)), 0x30, 0x37);
    let cpu = Cpu::new(mapper).expect("valid CPU");
    let expected = RegisterState { pc: 0x10, sp: 0x37, ..RegisterState::new() };
    assert_eq!(expected, cpu.registers);
    assert_eq!(Some(0x10), cpu.memory.start());
    assert_eq!(Some(0x37), cpu.memory.end());
}

#[test]
fn fetch_reads_at_the_program_counter_and_moves_on() {
    let mut cpu = create_cpu_with_boot(&[0x11, 0x22, 0x33]);
    assert_eq!(0x11, cpu.fetch().expect("first byte"));
    assert_eq!(1, cpu.registers.get_wide(PC));
    assert_eq!(0x22, cpu.fetch().expect("second byte"));
    assert_eq!(0x33, cpu.fetch().expect("third byte"));
    assert_eq!(3, cpu.registers.get_wide(PC));
}

#[test]
fn fetch_wide_reads_the_upper_byte_first() {
    let mut cpu = create_cpu_with_boot(&[0xab, 0x12, 0x34, 0x56]);
    assert_eq!(0xab12, cpu.fetch_wide().expect("first word"));
    assert_eq!(2, cpu.registers.get_wide(PC));
    assert_eq!(0x3456, cpu.fetch_wide().expect("second word"));
    assert_eq!(4, cpu.registers.get_wide(PC));
}

#[test]
fn fetch_moves_on_though_it_fails() {
    let mut cpu = create_cpu_with_boot_only(&[0x11]);
    assert_eq!(0x11, cpu.fetch().expect("only byte"));
    let err = cpu.fetch().expect_err("out of bounds error");
    assert_cpu_error_is_out_of_bounds(err, 1);
    assert_eq!(2, cpu.registers.get_wide(PC));
}

#[test]
fn fetch_wide_moves_on_by_two_though_the_second_byte_fails() {
    let mut cpu = create_cpu_with_boot_only(&[0x11, 0x22, 0x33]);
    assert_eq!(0x11, cpu.fetch().expect("first byte"));
    assert_eq!(0x22, cpu.fetch().expect("second byte"));
    let err = cpu.fetch_wide().expect_err("out of bounds error");
    assert_cpu_error_is_out_of_bounds(err, 3);
    assert_eq!(4, cpu.registers.get_wide(PC));
}

#[test]
fn fetch_wide_moves_on_by_two_though_the_first_byte_fails() {
    let mut cpu = create_cpu_with_boot_only(&[0x11]);
    cpu.registers.set_wide(PC, 5);
    let err = cpu.fetch_wide().expect_err("out of bounds error");
    assert_cpu_error_is_out_of_bounds(err, 5);
    assert_eq!(7, cpu.registers.get_wide(PC));
}

#[test]
fn program_counter_goes_round_the_address_space() {
    let mut mapper = MemoryMapper::new();
    let mut device = TestDevice::new(4);
    device.write_slice(&[0x0a, 0x0b, 0x0c, 0x0d]);
    mapper.add_device(Box::new(device), 0xfffc, 0xffff);
    let mut cpu = Cpu::new(mapper).expect("valid CPU");
    assert_eq!(0xfffc, cpu.registers.get_wide(PC));
    assert_eq!(0xffff, cpu.registers.get_wide(SP));
    cpu.registers.set_wide(PC, 0xffff);
    assert_eq!(0x0d, cpu.fetch().expect("last address"));
    assert_eq!(0, cpu.registers.get_wide(PC));
    cpu.registers.set_wide(PC, 0xffff);
    let err = cpu.fetch_wide().expect_err("out of bounds error");
    // the device is asked for the byte behind its fourth
    assert_cpu_error_is_out_of_bounds(err, 4);
    assert_eq!(1, cpu.registers.get_wide(PC));
}

#[test]
fn fetch_register_reads_names() {
    let mut cpu = create_cpu_with_boot(&[0x03, 0x34, 0x09, 0xf1, 0x00, 0x0a, 0x01]);
    assert_eq!(Register::C, cpu.fetch_register().expect("byte register"));
    assert_eq!(WideRegister::CD, cpu.fetch_register_wide().expect("wide register"));
    assert!(matches!(
        cpu.fetch_any_register().expect("any register"),
        h8bit_vm::cpu::AnyRegister::Std(Register::MB)
    ));
    assert!(matches!(
        cpu.fetch_any_register().expect("any register"),
        h8bit_vm::cpu::AnyRegister::Wide(WideRegister::SP)
    ));
    assert_cpu_error_is_invalid_register(cpu.fetch_any_register().expect_err("no register"), 0x00);
    assert_cpu_error_is_invalid_register(cpu.fetch_register().expect_err("no register"), 0x0a);
    assert_cpu_error_is_invalid_register(
        cpu.fetch_register_wide().expect_err("no wide register"),
        0x01,
    );
    assert_eq!(7, cpu.registers.get_wide(PC));
}

#[test]
fn device_errors_as_the_cpu_reports_them() {
    assert_cpu_error_is_out_of_bounds(Error::from(DeviceError::OutOfBounds(0x1234)), 0x1234);
    assert!(matches!(Error::from(DeviceError::Other), Error::Device(DeviceError::Other)));
}

#[test]
fn step_reports_a_device_failure_of_its_own_kind() {
    let mut mapper = MemoryMapper::new();
    mapper.add_device(Box::new(BrokenDevice), 0, 0xff);
    let mut cpu = Cpu::new(mapper).expect("valid CPU");
    let err = cpu.step().expect_err("device error");
    assert!(matches!(err, Error::Device(DeviceError::Other)));
    assert_eq!(1, cpu.registers.get_wide(PC));
}

// scenarios over whole steps

#[test]
fn step_mov_lit_reg_program() {
    let program = [0x10, 0xAB, Register::C.into()];
    let mut cpu = create_cpu_with_boot(&program);
    cpu.step().expect("success");
    let expected = RegisterState { c: 0xAB, pc: 3, sp: 0xfffd, ..RegisterState::new() };
    assert_eq!(expected, cpu.registers);
}

#[test]
fn step_halt_program_consumes_the_opcode() {
    let program = [0xFF];
    let mut cpu = create_cpu_with_boot(&program);
    let err = cpu.step().expect_err("halting error");
    assert!(matches!(err, Error::Halt));
    let expected = RegisterState { pc: 1, sp: 0xfffd, ..RegisterState::new() };
    assert_eq!(expected, cpu.registers);
}

#[test]
fn step_unknown_opcode_is_no_operation() {
    let program = [0x99];
    let mut cpu = create_cpu_with_boot(&program);
    cpu.step().expect("unknown opcode doesn't error");
    let expected = RegisterState { pc: 1, sp: 0xfffd, ..RegisterState::new() };
    assert_eq!(expected, cpu.registers);
    assert_eq!(0x99, cpu.memory.get(0).expect("valid address"));
    for addr in 1..0x20 {
        assert_eq!(0, cpu.memory.get(addr).expect("valid address"));
    }
}

#[test]
fn step_mov_lit_off_reg_program() {
    let program = [0x18, 0x00, 0x01, WideRegister::EF.into(), Register::H.into()];
    let mut cpu = create_cpu_with_boot(&program);
    cpu.registers.set_wide(WideRegister::EF, 0x0010);
    cpu.memory.set(0x0011, 0xAB).expect("valid address");
    cpu.step().expect("success");
    assert_eq!(0xAB, cpu.registers.get(Register::H));
    assert_eq!(5, cpu.registers.get_wide(PC));
    assert_eq!(0x0010, cpu.registers.get_wide(WideRegister::EF));
}

#[test]
fn step_every_opcode_is_read_as_its_operation() {
    let listed: [(u8, Operation, &str); 11] = [
        (0x00, Operation::Nop, "Nop"),
        (0x10, Operation::MovLitReg, "MovLitReg"),
        (0x11, Operation::MovLitRegWide, "MovLitRegWide"),
        (0x12, Operation::MovRegReg, "MovRegReg"),
        (0x13, Operation::MovRegMem, "MovRegMem"),
        (0x14, Operation::MovMemReg, "MovMemReg"),
        (0x15, Operation::MovLitMem, "MovLitMem"),
        (0x16, Operation::MovLitMemWide, "MovLitMemWide"),
        (0x17, Operation::MovRegPtrReg, "MovRegPtrReg"),
        (0x18, Operation::MovLitOffReg, "MovLitOffReg"),
        (0xff, Operation::Hlt, "Hlt"),
    ];
    for code in 0..=u8::MAX {
        let expected = listed
            .iter()
            .find(|(listed_code, _, _)| *listed_code == code)
            .map(|(_, op, _)| *op)
            .unwrap_or(Operation::Nop);
        assert_eq!(expected, Operation::from(code));
    }
    for (code, op, name) in listed {
        assert_eq!(code, op.addr());
        assert_eq!(code, u8::from(op));
        assert_eq!(name, op.as_str());
        assert_eq!(name, op.to_string());
    }
}

#[test]
fn operation_constants() {
    assert_eq!((0x00, "NOP", 1), (nop::CODE, nop::NAME, nop::SIZE));
    assert_eq!((0xff, "HLT", 1), (hlt::CODE, hlt::NAME, hlt::SIZE));
    assert_eq!(
        (0x10, "MOV_LIT_REG", 3),
        (mov::lit_reg::CODE, mov::lit_reg::NAME, mov::lit_reg::SIZE)
    );
    assert_eq!(
        (0x11, "MOV_LIT_REG_WIDE", 4),
        (mov::lit_reg_wide::CODE, mov::lit_reg_wide::NAME, mov::lit_reg_wide::SIZE)
    );
    assert_eq!(
        (0x12, "MOV_REG_REG", 3),
        (mov::reg_reg::CODE, mov::reg_reg::NAME, mov::reg_reg::SIZE)
    );
    assert_eq!(
        (0x13, "MOV_REG_MEM", 4),
        (mov::reg_mem::CODE, mov::reg_mem::NAME, mov::reg_mem::SIZE)
    );
    assert_eq!(
        (0x14, "MOV_MEM_REG", 4),
        (mov::mem_reg::CODE, mov::mem_reg::NAME, mov::mem_reg::SIZE)
    );
    assert_eq!(
        (0x15, "MOV_LIT_MEM", 4),
        (mov::lit_mem::CODE, mov::lit_mem::NAME, mov::lit_mem::SIZE)
    );
    assert_eq!(
        (0x16, "MOV_LIT_MEM_WIDE", 5),
        (mov::lit_mem_wide::CODE, mov::lit_mem_wide::NAME, mov::lit_mem_wide::SIZE)
    );
    assert_eq!(
        (0x17, "MOV_REG_PTR_REG", 3),
        (mov::reg_ptr_reg::CODE, mov::reg_ptr_reg::NAME, mov::reg_ptr_reg::SIZE)
    );
    assert_eq!(
        (0x18, "MOV_LIT_OFF_REG", 5),
        (mov::lit_off_reg::CODE, mov::lit_off_reg::NAME, mov::lit_off_reg::SIZE)
    );
}

#[test]
fn execute_goes_to_the_operation() {
    let mut cpu = create_cpu_with_boot(&[0xAB, Register::C.into()]);
    Operation::MovLitReg.execute(&mut cpu).expect("success");
    assert_eq!(0xAB, cpu.registers.get(Register::C));
    assert_eq!(2, cpu.registers.get_wide(PC));
    let err = Operation::Hlt.execute(&mut cpu).expect_err("halting error");
    assert!(matches!(err, Error::Halt));
    Operation::Nop.execute(&mut cpu).expect("success");
    assert_eq!(2, cpu.registers.get_wide(PC));
}

#[test]
fn run_stops_at_the_first_failure() {
    let program = [
        0x10,
        0x07,
        Register::A.into(),
        0x12,
        Register::A.into(),
        Register::B.into(),
        0x13,
        WideRegister::AB.into(),
        0x02,
        0x00,
        0x00,
        0xff,
        0x10,
        0x09,
        Register::C.into(),
    ];
    let mut cpu = create_cpu_with_boot(&program);
    cpu.run();
    let expected = RegisterState { a: 7, b: 7, pc: 12, sp: 0xfffd, ..RegisterState::new() };
    assert_eq!(expected, cpu.registers);
    assert_eq!(0x0707, cpu.memory.get_wide(0x0200).expect("valid address"));
}

#[test]
fn run_stops_at_an_invalid_register() {
    let program = [0x00, 0x10, 0x07, 0x0a, 0xff];
    let mut cpu = create_cpu_with_boot(&program);
    cpu.run();
    let expected = RegisterState { pc: 4, sp: 0xfffd, ..RegisterState::new() };
    assert_eq!(expected, cpu.registers);
}

#[test]
fn mov_lit_reg_wide_to_the_program_counter_jumps() {
    let jump = [0x11, 0x00, 0x08, WideRegister::PC.into()];
    let skipped = [0xff, 0, 0, 0];
    let landed = [0x10, 0x05, Register::A.into(), 0xff];
    let program = [jump, skipped, landed].concat();
    let mut cpu = create_cpu_with_boot(&program);
    cpu.run();
    let expected = RegisterState { a: 5, pc: 12, sp: 0xfffd, ..RegisterState::new() };
    assert_eq!(expected, cpu.registers);
}

// no operation

#[test]
fn nop_success() {
    op_run_success(&TestCpuState::new(), &mut TestCpuState::new(), nop::run)
}

#[test]
fn nop_size() {
    let mut expected = TestCpuState::new();
    expected.pc(nop::SIZE as u16 - 1);
    op_run_success(&expected, &mut TestCpuState::new(), nop::run);
}

// halt

#[test]
fn hlt_success() {
    let err = op_run_error(&mut TestCpuState::new(), hlt::run);
    assert!(matches!(err, Error::Halt));
}

#[test]
fn size() {
    let mut expected = TestCpuState::new();
    expected.pc(hlt::SIZE as u16 - 1);
    op_run_error_expected_state(&expected, &mut TestCpuState::new(), hlt::run);
}

// move literal to register

#[test]
fn lit_reg_success() {
    let literal = 0xAB;
    let reg = Register::C;

    let mut expected = TestCpuState::new();
    expected.reg(reg, literal);

    op_run_success(&expected, &mut lit_reg_builder(literal, reg), mov::lit_reg::run);
}

#[test]
fn lit_reg_size() {
    assert_size(lit_reg_builder(0xAB, Register::C), mov::lit_reg::SIZE, mov::lit_reg::run);
}

#[test]
fn lit_reg_invalid_register() {
    assert_invalid_register_run(&[0xAB, 0x00], 0x00, mov::lit_reg::run);
}

#[test]
fn lit_reg_no_mem() {
    assert_no_mem(mov::lit_reg::run);
}

fn lit_reg_builder(literal: u8, reg: Register) -> TestCpuState {
    let opargs = [literal, reg.into()];
    TestCpuState::new_with_program(&opargs)
}

// move wide literal to wide register

#[test]
fn lit_reg_wide_success() {
    let literal = 0xABCD;
    let reg = WideRegister::CD;

    let mut expected = TestCpuState::new();
    expected.reg_wide(reg, literal);

    op_run_success(&expected, &mut lit_reg_wide_builder(literal, reg), mov::lit_reg_wide::run);
}

#[test]
fn lit_reg_wide_size() {
    assert_size(
        lit_reg_wide_builder(0xABCD, WideRegister::AB),
        mov::lit_reg_wide::SIZE,
        mov::lit_reg_wide::run,
    );
}

#[test]
fn lit_reg_wide_invalid_register() {
    assert_invalid_register_run(&[0xAB, 0x00], 0x00, mov::lit_reg_wide::run);
}

#[test]
fn lit_reg_wide_no_mem() {
    assert_no_mem(mov::lit_reg_wide::run);
}

fn lit_reg_wide_builder(literal: u16, reg: WideRegister) -> TestCpuState {
    let (high, low) = high_and_low_value(literal);
    let opargs = [high, low, reg.into()];
    TestCpuState::new_with_program(&opargs)
}

// move register to register

#[test]
fn reg_reg_success() {
    let value = 0xAB;
    let from = Register::C;
    let to = Register::D;

    let mut expected = TestCpuState::new();
    expected.reg(to, value);

    op_run_success(&expected, &mut reg_reg_builder(value, from, to), mov::reg_reg::run);
}

#[test]
fn wide_success() {
    let value = 0xABCD;
    let from = WideRegister::CD;
    let to = WideRegister::EF;

    let mut expected = TestCpuState::new();
    expected.reg_wide(to, value);

    op_run_success(&expected, &mut reg_reg_builder_wide(value, from, to), mov::reg_reg::run);
}

#[test]
fn reg_reg_size() {
    assert_size(
        reg_reg_builder(0xAB, Register::A, Register::B),
        mov::reg_reg::SIZE,
        mov::reg_reg::run,
    );
}

#[test]
fn reg_reg_invalid_register_first() {
    assert_invalid_register_run(&[0x00, Register::A.into()], 0x00, mov::reg_reg::run);
}

#[test]
fn reg_reg_invalid_register_second() {
    assert_invalid_register_run(&[Register::A.into(), 0x00], 0x00, mov::reg_reg::run);
}

#[test]
fn reg_reg_invalid_register_wide_second() {
    assert_invalid_register_run(&[WideRegister::AB.into(), 0x00], 0x00, mov::reg_reg::run);
}

#[test]
fn reg_reg_invalid_register_second_wide() {
    assert_invalid_register_run(
        &[Register::A.into(), WideRegister::CD.into()],
        WideRegister::CD.into(),
        mov::reg_reg::run,
    );
}

#[test]
fn reg_reg_invalid_register_second_std() {
    assert_invalid_register_run(
        &[WideRegister::AB.into(), Register::C.into()],
        Register::C.into(),
        mov::reg_reg::run,
    );
}

#[test]
fn reg_reg_no_mem() {
    assert_no_mem(mov::reg_reg::run);
}

fn reg_reg_builder(value: u8, from: Register, to: Register) -> TestCpuState {
    let opargs = [from.into(), to.into()];
    let mut build = TestCpuState::new_with_program(&opargs);
    build.reg(from, value);
    build
}

fn reg_reg_builder_wide(value: u16, from: WideRegister, to: WideRegister) -> TestCpuState {
    let opargs = [from.into(), to.into()];
    let mut build = TestCpuState::new_with_program(&opargs);
    build.reg_wide(from, value);
    build
}

// move register to memory

#[test]
fn reg_mem_success_std() {
    let value = 0xab;
    let addr = 0xf1;
    let reg = Register::A;
    let mut build = reg_mem_builder(value, reg, addr);

    let mut expected = TestCpuState::new_with_program(build.get_program());
    expected.mem_at(addr, value);

    op_run_success(&expected, &mut build, mov::reg_mem::run);
}

#[test]
fn reg_mem_success_wide() {
    let value = 0xabcd;
    let addr = 0xf1;
    let reg = WideRegister::CD;
    let mut build = reg_mem_builder_wide(value, reg, addr);

    let mut expected = TestCpuState::new_with_program(build.get_program());
    expected.mem_at_wide(addr, value);

    op_run_success(&expected, &mut build, mov::reg_mem::run);
}

#[test]
fn reg_mem_size_std() {
    assert_size(reg_mem_builder(0xAB, Register::C, 0x10), mov::reg_mem::SIZE, mov::reg_mem::run);
}

#[test]
fn reg_mem_size_wide() {
    assert_size(
        reg_mem_builder_wide(0xABCD, WideRegister::CD, 0x10),
        mov::reg_mem::SIZE,
        mov::reg_mem::run,
    );
}

#[test]
fn reg_mem_invalid_register() {
    assert_invalid_register_run(&[0x00, 0x00, 0x10], 0x00, mov::reg_mem::run);
}

#[test]
fn reg_mem_invalid_memory() {
    assert_invalid_memory(
        reg_mem_builder(0xAB, Register::C, TEST_OP_MEM_SIZE),
        TEST_OP_MEM_SIZE,
        mov::reg_mem::run,
    );
}

#[test]
fn reg_mem_no_mem() {
    assert_no_mem(mov::reg_mem::run);
}

fn reg_mem_builder(value: u8, reg: Register, addr: u16) -> TestCpuState {
    let mut build = reg_mem_builder_opargs(reg.into(), addr);
    build.reg(reg, value);
    build
}

fn reg_mem_builder_wide(value: u16, reg: WideRegister, addr: u16) -> TestCpuState {
    let mut build = reg_mem_builder_opargs(reg.into(), addr);
    build.reg_wide(reg, value);
    build
}

fn reg_mem_builder_opargs(reg_addr: u8, addr: u16) -> TestCpuState {
    let (a_high, a_low) = high_and_low_value(addr);
    let opargs = [reg_addr, a_high, a_low];
    let mut build = TestCpuState::new_with_program(&opargs);
    build.mem(TEST_OP_MEM_SIZE);
    build
}

// move memory to register

#[test]
fn mem_reg_success_std() {
    let value = 0xab;
    let addr = 0xf1;
    let reg = Register::A;

    let mut expected = TestCpuState::new();
    expected.reg(reg, value);

    op_run_success(&expected, &mut mem_reg_builder(value, addr, reg), mov::mem_reg::run);
}

#[test]
fn mem_reg_success_wide() {
    let value = 0xabcd;
    let addr = 0xf1;
    let reg = WideRegister::CD;

    let mut expected = TestCpuState::new();
    expected.reg_wide(reg, value);

    op_run_success(&expected, &mut mem_reg_builder_wide(value, addr, reg), mov::mem_reg::run);
}

#[test]
fn mem_reg_size_std() {
    assert_size(mem_reg_builder(0xAB, 0x10, Register::C), mov::mem_reg::SIZE, mov::mem_reg::run);
}

#[test]
fn mem_reg_size_wide() {
    assert_size(
        mem_reg_builder_wide(0xABCD, 0x10, WideRegister::CD),
        mov::mem_reg::SIZE,
        mov::mem_reg::run,
    );
}

#[test]
fn mem_reg_invalid_memory() {
    assert_invalid_memory(
        mem_reg_builder_invalid_memory(TEST_OP_MEM_SIZE),
        TEST_OP_MEM_SIZE,
        mov::mem_reg::run,
    );
}

#[test]
fn mem_reg_invalid_register() {
    assert_invalid_register_run(&[0x00, 0x10, 0x00], 0x00, mov::mem_reg::run);
}

#[test]
fn mem_reg_no_mem() {
    assert_no_mem(mov::mem_reg::run);
}

fn mem_reg_builder(value: u8, addr: u16, reg: Register) -> TestCpuState {
    let mut build = mem_reg_builder_opargs(reg.into(), addr);
    build.mem_at(addr, value);
    build
}

fn mem_reg_builder_wide(value: u16, addr: u16, reg: WideRegister) -> TestCpuState {
    let mut build = mem_reg_builder_opargs(reg.into(), addr);
    build.mem_at_wide(addr, value);
    build
}

fn mem_reg_builder_invalid_memory(addr: u16) -> TestCpuState {
    let mut build = mem_reg_builder_opargs(Register::C.into(), addr);
    build.mem(TEST_OP_MEM_SIZE);
    build
}

fn mem_reg_builder_opargs(reg_addr: u8, addr: u16) -> TestCpuState {
    let (a_high, a_low) = high_and_low_value(addr);
    let opargs = [a_high, a_low, reg_addr];
    TestCpuState::new_with_program(&opargs)
}

// move literal to memory

#[test]
fn lit_mem_success() {
    let literal = 0xab;
    let addr = 0xf1;
    let mut build = lit_mem_builder(literal, addr);

    let mut expected = TestCpuState::new_with_program(build.get_program());
    expected.mem_at(addr, literal);

    op_run_success(&expected, &mut build, mov::lit_mem::run);
}

#[test]
fn lit_mem_size() {
    assert_size(lit_mem_builder(0xab, 0x10), mov::lit_mem::SIZE, mov::lit_mem::run);
}

#[test]
fn lit_mem_invalid_memory() {
    assert_invalid_memory(
        lit_mem_builder(0xab, TEST_OP_MEM_SIZE),
        TEST_OP_MEM_SIZE,
        mov::lit_mem::run,
    );
}

#[test]
fn lit_mem_no_mem() {
    assert_no_mem(mov::lit_mem::run);
}

fn lit_mem_builder(literal: u8, addr: u16) -> TestCpuState {
    let (a_high, a_low) = high_and_low_value(addr);
    let opargs = [literal, a_high, a_low];
    TestCpuState::new_with_program(&opargs)
}

// move wide literal to memory

#[test]
fn lit_mem_wide_success() {
    let literal = 0xabcd;
    let addr = 0xf1;
    let mut build = lit_mem_wide_builder(literal, addr);

    let mut expected = TestCpuState::new_with_program(build.get_program());
    expected.mem_at_wide(addr, literal);

    op_run_success(&expected, &mut build, mov::lit_mem_wide::run);
}

#[test]
fn lit_mem_wide_size() {
    assert_size(
        lit_mem_wide_builder(0xab, 0x10),
        mov::lit_mem_wide::SIZE,
        mov::lit_mem_wide::run,
    );
}

#[test]
fn lit_mem_wide_invalid_memory() {
    assert_invalid_memory(
        lit_mem_wide_builder(0xab, TEST_OP_MEM_SIZE),
        TEST_OP_MEM_SIZE,
        mov::lit_mem_wide::run,
    );
}

#[test]
fn lit_mem_wide_no_mem() {
    assert_no_mem(mov::lit_mem_wide::run);
}

#[test]
fn lit_mem_wide_over_the_end_keeps_the_upper_byte() {
    let mut build = lit_mem_wide_builder(0xabcd, TEST_OP_MEM_SIZE - 1);
    let mut cpu = build.build();
    let err = mov::lit_mem_wide::run(&mut cpu).expect_err("error");
    assert_cpu_error_is_out_of_bounds(err, TEST_OP_MEM_SIZE);
    assert_eq!(0xab, cpu.memory.get(TEST_OP_MEM_SIZE - 1).expect("valid address"));
    assert_eq!(4, cpu.registers.get_wide(PC));
}

fn lit_mem_wide_builder(literal: u16, addr: u16) -> TestCpuState {
    let (a_high, a_low) = high_and_low_value(addr);
    let (l_high, l_low) = high_and_low_value(literal);
    let opargs = [l_high, l_low, a_high, a_low];
    TestCpuState::new_with_program(&opargs)
}

// move value at memory[wide register] to register

#[test]
fn reg_ptr_reg_success_std() {
    let value = 0xab;
    let ptr = 0x10;
    let from = WideRegister::AB;
    let to = Register::C;

    let mut expected = TestCpuState::new();
    expected.reg(to, value);

    op_run_success(
        &expected,
        &mut reg_ptr_reg_builder(value, ptr, from, to),
        mov::reg_ptr_reg::run,
    );
}

#[test]
fn reg_ptr_reg_success_wide() {
    let value = 0xabcd;
    let ptr = 0x10;
    let from = WideRegister::AB;
    let to = WideRegister::CD;

    let mut expected = TestCpuState::new();
    expected.reg_wide(to, value);

    op_run_success(
        &expected,
        &mut reg_ptr_reg_builder_wide(value, ptr, from, to),
        mov::reg_ptr_reg::run,
    );
}

#[test]
fn reg_ptr_reg_size_std() {
    assert_size(
        reg_ptr_reg_builder(0xab, 0x10, WideRegister::AB, Register::C),
        mov::reg_ptr_reg::SIZE,
        mov::reg_ptr_reg::run,
    );
}

#[test]
fn reg_ptr_reg_size_wide() {
    assert_size(
        reg_ptr_reg_builder_wide(0xabcd, 0x10, WideRegister::AB, WideRegister::CD),
        mov::reg_ptr_reg::SIZE,
        mov::reg_ptr_reg::run,
    );
}

#[test]
fn reg_ptr_reg_invalid_register_first() {
    assert_invalid_register_run(&[0x00, Register::A.into()], 0x00, mov::reg_ptr_reg::run);
}

#[test]
fn reg_ptr_reg_invalid_register_second() {
    assert_invalid_register_run(&[WideRegister::AB.into(), 0x00], 0x00, mov::reg_ptr_reg::run);
}

#[test]
fn reg_ptr_reg_invalid_memory() {
    assert_invalid_memory(
        reg_ptr_reg_builder_invalid_memory(TEST_OP_MEM_SIZE),
        TEST_OP_MEM_SIZE,
        mov::reg_ptr_reg::run,
    );
}

#[test]
fn reg_ptr_reg_no_mem() {
    assert_no_mem(mov::reg_ptr_reg::run);
}

fn reg_ptr_reg_builder(value: u8, ptr: u16, from: WideRegister, to: Register) -> TestCpuState {
    let mut build = reg_ptr_reg_builder_opargs(ptr, from, to.into());
    build.mem_at(ptr, value);
    build
}

fn reg_ptr_reg_builder_wide(
    value: u16,
    ptr: u16,
    from: WideRegister,
    to: WideRegister,
) -> TestCpuState {
    let mut build = reg_ptr_reg_builder_opargs(ptr, from, to.into());
    build.mem_at_wide(ptr, value);
    build
}

fn reg_ptr_reg_builder_invalid_memory(ptr: u16) -> TestCpuState {
    reg_ptr_reg_builder_opargs(ptr, WideRegister::AB, Register::A.into())
}

fn reg_ptr_reg_builder_opargs(ptr: u16, from: WideRegister, to_addr: u8) -> TestCpuState {
    let opargs = [from.into(), to_addr];
    let mut build = TestCpuState::new_with_program(&opargs);
    build.reg_wide(from, ptr);
    build
}

// move value at memory[wide literal + wide register] to register

#[test]
fn lit_off_reg_success_std() {
    let value = 0xab;
    let offset = 0;
    let to = Register::H;

    let mut expected = TestCpuState::new();
    expected.reg(to, value);

    op_run_success(&expected, &mut lit_off_reg_builder(value, offset, to), mov::lit_off_reg::run);
}

#[test]
fn lit_off_reg_success_wide() {
    let value = 0xabcd;
    let offset = 0;
    let to = WideRegister::GH;

    let mut expected = TestCpuState::new();
    expected.reg_wide(to, value);

    op_run_success(
        &expected,
        &mut lit_off_reg_builder_wide(value, offset, to),
        mov::lit_off_reg::run,
    );
}

#[test]
fn success_offset_std() {
    let value = 0xab;
    let offset = 1;
    let to = Register::H;

    let mut expected = TestCpuState::new();
    expected.reg(to, value);

    op_run_success(&expected, &mut lit_off_reg_builder(value, offset, to), mov::lit_off_reg::run);
}

#[test]
fn success_offset_wide() {
    let value = 0xabcd;
    let offset = 1;
    let to = WideRegister::GH;

    let mut expected = TestCpuState::new();
    expected.reg_wide(to, value);

    op_run_success(
        &expected,
        &mut lit_off_reg_builder_wide(value, offset, to),
        mov::lit_off_reg::run,
    );
}

#[test]
fn lit_off_reg_size_std() {
    assert_size(
        lit_off_reg_builder(0xab, 0, Register::A),
        mov::lit_off_reg::SIZE,
        mov::lit_off_reg::run,
    );
}

#[test]
fn lit_off_reg_size_wide() {
    assert_size(
        lit_off_reg_builder_wide(0xabcd, 0, WideRegister::CD),
        mov::lit_off_reg::SIZE,
        mov::lit_off_reg::run,
    );
}

#[test]
fn lit_off_reg_invalid_register_first() {
    assert_invalid_register_run(
        &[0x00, 0x01, 0x00, Register::A.into()],
        0x00,
        mov::lit_off_reg::run,
    );
}

#[test]
fn lit_off_reg_invalid_register_second() {
    assert_invalid_register_run(
        &[0x00, 0x01, WideRegister::GH.into(), 0x00],
        0x00,
        mov::lit_off_reg::run,
    );
}

#[test]
fn lit_off_reg_invalid_memory() {
    assert_invalid_memory(
        lit_off_reg_builder_invalid_memory(TEST_OP_MEM_SIZE),
        TEST_OP_MEM_SIZE,
        mov::lit_off_reg::run,
    );
}

#[test]
fn lit_off_reg_no_mem() {
    assert_no_mem(mov::lit_off_reg::run);
}

#[test]
fn lit_off_reg_sum_goes_round_the_address_space() {
    // 0xfff0 + 0x0021 is 0x0011 in 16 bits
    let (high, low) = high_and_low_value(0xfff0);
    let opargs = [high, low, WideRegister::EF.into(), Register::H.into()];
    let mut build = TestCpuState::new_with_program(&opargs);
    build.reg_wide(WideRegister::EF, 0x0021);
    build.mem_at(0x0011, 0xab);

    let mut expected = TestCpuState::new();
    expected.reg(Register::H, 0xab);
    expected.pc(4);

    op_run_success(&expected, &mut build, mov::lit_off_reg::run);
}

fn lit_off_reg_builder(value: u8, offset: u16, to: Register) -> TestCpuState {
    let base_addr = 0x10;
    let from = WideRegister::EF;
    let mut build = lit_off_reg_builder_opargs(base_addr, offset, from, to.into());
    build.mem_at(base_addr + offset, value);
    build
}

fn lit_off_reg_builder_wide(value: u16, offset: u16, to: WideRegister) -> TestCpuState {
    let base_addr = 0x10;
    let from = WideRegister::EF;
    let mut build = lit_off_reg_builder_opargs(base_addr, offset, from, to.into());
    build.mem_at_wide(base_addr + offset, value);
    build
}

fn lit_off_reg_builder_invalid_memory(ptr: u16) -> TestCpuState {
    lit_off_reg_builder_opargs(ptr, 0, WideRegister::GH, Register::F.into())
}

fn lit_off_reg_builder_opargs(
    base_addr: u16,
    offset: u16,
    from: WideRegister,
    to_addr: u8,
) -> TestCpuState {
    let (high, low) = high_and_low_value(offset);
    let opargs = [high, low, from.into(), to_addr];
    let mut build = TestCpuState::new_with_program(&opargs);
    build.reg_wide(from, base_addr);
    build
}

// what the tests above share

pub const TEST_OP_MEM_SIZE: u16 = 256;

pub fn op_run_success(
    expected: &TestCpuState,
    build: &mut TestCpuState,
    run: fn(&mut Cpu) -> OpResult,
) {
    let mut cpu = build.build();
    run(&mut cpu).expect("success");
    assert_cpu_state(&cpu, expected);
}

pub fn op_run_error(build: &mut TestCpuState, run: fn(&mut Cpu) -> OpResult) -> Error {
    let mut cpu = build.build();
    run(&mut cpu).expect_err("error")
}

pub fn op_run_error_expected_state(
    expected: &TestCpuState,
    build: &mut TestCpuState,
    run: fn(&mut Cpu) -> OpResult,
) -> Error {
    let mut cpu = build.build();
    let err = run(&mut cpu).expect_err("error");
    assert_cpu_state(&cpu, expected);
    err
}

fn assert_no_mem(run: fn(&mut Cpu) -> OpResult) {
    let mem = TestDevice::new(0);
    let mut cpu = create_cpu_with_memory(mem);
    let err = run(&mut cpu).expect_err("error");
    assert_cpu_error_is_out_of_bounds(err, 0);
}

fn assert_size(mut builder: TestCpuState, size: u8, run: fn(&mut Cpu) -> OpResult) {
    let mut expected = TestCpuState::new();
    expected.pc(size as u16 - 1);
    op_run_success(&expected, &mut builder, run);
}

fn assert_invalid_register_run(opargs: &[u8], addr: u8, run: fn(&mut Cpu) -> OpResult) {
    let mut build = TestCpuState::new_with_program(opargs);
    let err = op_run_error(&mut build, run);
    assert_cpu_error_is_invalid_register(err, addr);
}

fn assert_invalid_memory(mut builder: TestCpuState, addr: u16, run: fn(&mut Cpu) -> OpResult) {
    let err = op_run_error(&mut builder, run);
    assert_cpu_error_is_out_of_bounds(err, addr);
}

pub fn assert_cpu_error_is_invalid_register(err: Error, expected: u8) {
    match err {
        Error::InvalidRegister(err) => assert_invalid_register(err, expected),
        err => panic!("expected InvalidRegister, got {:?}", err),
    }
}

fn assert_invalid_register(err: InvalidRegister, expected: u8) {
    let InvalidRegister(actual) = err;
    assert_eq!(
        expected, actual,
        "\nexpected incorrect reg_addr: {:#04x}, got {:#04x}",
        expected, actual
    );
}

pub fn assert_cpu_error_is_out_of_bounds(err: Error, expected: u16) {
    assert!(matches!(err, Error::OutOfBounds(_)));
    match err {
        Error::OutOfBounds(actual) => assert_eq!(
            expected, actual,
            "\nexpected incorrect addr: {:#06x}, got {:#06x}",
            expected, actual
        ),
        _ => unreachable!(),
    }
}

pub fn create_cpu_with_memory(mem: TestDevice) -> Cpu {
    let mut mapper = MemoryMapper::new();
    let end = mem.end();
    let device = Box::new(mem);
    mapper.add_device(device, 0, end);
    Cpu::new(mapper).expect("valid CPU")
}

#[derive(Debug, Default)]
pub struct TestCpuState {
    program_size: usize,
    pc: Option<u16>,
    sp: Option<u16>,
    registers: Option<TestRegState>,
    memory: Option<TestDevice>,
}

impl TestCpuState {
    const MEM_SIZE: u16 = 256;

    pub fn new() -> Self {
        Self::default()
    }

    pub fn new_with_program(program: &[u8]) -> Self {
        let mut state = Self::default();
        state.program(program);
        state
    }

    pub fn pc(&mut self, pc: u16) -> &mut Self {
        self.pc = Some(pc);
        self
    }

    pub fn sp(&mut self, sp: u16) -> &mut Self {
        self.sp = Some(sp);
        self
    }

    pub fn reg(&mut self, reg: Register, value: u8) -> &mut Self {
        if self.registers.is_none() {
            self.registers = Some(TestRegState::default());
        }
        if let Some(ref mut registers) = self.registers {
            registers.0.insert(reg, value);
        }
        self
    }

    pub fn reg_wide(&mut self, reg: WideRegister, value: u16) -> &mut Self {
        let (high_val, low_val) = high_and_low_value(value);
        let (high_reg, low_reg) = reg.high_and_low();
        self.reg(high_reg, high_val);
        self.reg(low_reg, low_val)
    }

    pub fn mem(&mut self, size: u16) -> &mut Self {
        match self.memory {
            Some(ref mut mem) => mem.resize(size),
            None => self.memory = Some(TestDevice::new(size)),
        }
        self
    }

    pub fn mem_at(&mut self, addr: u16, value: u8) -> &mut Self {
        match self.memory {
            // init memory then call this method again
            None => self.mem(Self::MEM_SIZE).mem_at(addr, value),
            Some(ref mut mem) => {
                mem.set(addr, value).expect("valid address");
                self
            }
        }
    }

    pub fn mem_at_wide(&mut self, addr: u16, value: u16) -> &mut Self {
        let (high, low) = high_and_low_value(value);
        self.mem_at(addr, high);
        self.mem_at(addr + 1, low)
    }

    pub fn program(&mut self, program: &[u8]) -> &mut Self {
        match self.memory {
            // init memory then call this method again
            None => self.mem(Self::MEM_SIZE).program(program),
            Some(ref mut mem) => {
                mem.write_slice(program);
                self.program_size = program.len();
                self
            }
        }
    }

    pub fn get_program(&self) -> &[u8] {
        match self.memory {
            // init memory then call this method again
            None => &[],
            Some(ref mem) => mem.get_slice(0, self.program_size),
        }
    }

    pub fn build(&mut self) -> Cpu {
        let mem = match &self.memory {
            Some(mem) => mem.clone(),
            None => TestDevice::new(Self::MEM_SIZE),
        };
        let mut cpu = create_cpu_with_memory(mem);
        if let Some(ref mut registers) = self.registers {
            for (&reg, &value) in &registers.0 {
                cpu.registers.set(reg, value);
            }
        }
        cpu
    }
}

#[derive(Debug, Default)]
pub struct TestRegState(BTreeMap<Register, u8>);

pub fn assert_cpu_state(cpu: &Cpu, expected: &TestCpuState) {
    assert_pc(cpu, expected.pc);
    assert_sp(cpu, expected.sp);
    assert_all_registers(cpu, expected.registers.as_ref());
    assert_mem(cpu, expected.memory.as_ref());
}

const TEST_DEVICE_SIZE: u16 = 0xfffe;

fn create_bootstraped_cpu(program: &[u8], mem_size: u16) -> Cpu {
    let mut device = TestDevice::new(mem_size);
    device.write_slice(program);
    create_cpu_with_memory(device)
}

fn create_cpu_with_boot(program: &[u8]) -> Cpu {
    create_bootstraped_cpu(program, TEST_DEVICE_SIZE)
}

fn create_cpu_with_boot_only(program: &[u8]) -> Cpu {
    create_bootstraped_cpu(program, program.len() as u16)
}

fn assert_pc(cpu: &Cpu, pc: Option<u16>) {
    if let Some(pc) = pc {
        let actual = cpu.registers.get_wide(PC);
        assert_eq!(
            pc,
            actual,
            "{}",
            assertion_msg_wide("Program Counter", pc, actual)
        );
    }
}

fn assert_sp(cpu: &Cpu, sp: Option<u16>) {
    if let Some(sp) = sp {
        let actual = cpu.registers.get_wide(SP);
        assert_eq!(
            sp,
            actual,
            "{}",
            assertion_msg_wide("Stack Pointer", sp, actual)
        );
    }
}

fn assert_all_registers(cpu: &Cpu, registers: Option<&TestRegState>) {
    if let Some(registers) = registers {
        for (&reg, &expected) in registers.0.iter() {
            assert_register(cpu, reg, expected);
        }
    }
}

fn assert_mem(cpu: &Cpu, mem: Option<&TestDevice>) {
    if let Some(mem) = mem {
        for i in 0..mem.size() {
            let actual = cpu.memory.get(i).expect("valid address");
            let expected = mem.get(i).expect("valid address");
            let title = format!("Memory: {:#06x}", i);
            assert_eq!(
                expected,
                actual,
                "{}",
                assertion_msg(&title, expected, actual)
            );
        }
    }
}

fn assert_register(cpu: &Cpu, reg: Register, expected: u8) {
    let actual = cpu.registers.get(reg);
    let title = format!("Register {}", reg.as_str());
    assert_eq!(
        expected,
        actual,
        "{}",
        assertion_msg(&title, expected, actual)
    );
}

fn assertion_msg(title: &str, expected: u8, actual: u8) -> String {
    format!(
        "\n{}\n{:>12}: {:#04x}\n{:>12}: {:#04x}\n",
        title, "expected", expected, "actual", actual
    )
}

fn assertion_msg_wide(title: &str, expected: u16, actual: u16) -> String {
    format!(
        "\n{}\n{:>12}: {:#06x}\n{:>12}: {:#06x}\n",
        title, "expected", expected, "actual", actual
    )
}
