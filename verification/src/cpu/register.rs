use crate::util::{high_and_low_value, high_byte, join_bytes, low_byte, wide_value};
use vstd::prelude::*;
use vstd::std_specs::convert::{FromSpecImpl, TryFromSpecImpl};

verus! {

/// An operand byte that names no register.
#[derive(Debug)]
pub struct InvalidRegister(pub u8);

/// The single-byte registers.
#[derive(Debug, Clone, Copy, PartialEq, Eq, PartialOrd, Ord, Structural)]
pub enum Register {
    A,
    B,
    C,
    D,
    E,
    F,
    G,
    H,
    MB,
}

/// The 16-bit registers: four pairs of byte registers, then the program
/// counter and the stack pointer.
#[derive(Debug, Clone, Copy, PartialEq, Eq, Structural)]
pub enum WideRegister {
    AB,
    CD,
    EF,
    GH,
    PC,
    SP,
}

/// A register of either width, as one operand byte names it.
#[derive(Debug, Clone, Copy, PartialEq, Eq, Structural)]
pub enum AnyRegister {
    Std(Register),
    Wide(WideRegister),
}

/// The values of all registers.
#[derive(Debug, PartialEq, Eq, Structural)]
pub struct RegisterState {
    pub a: u8,
    pub b: u8,
    pub c: u8,
    pub d: u8,
    pub e: u8,
    pub f: u8,
    pub g: u8,
    pub h: u8,
    pub mb: u8,
    pub pc: u16,
    pub sp: u16,
}

impl Register {
    /// The operand byte that names this register.
    pub open spec fn code(self) -> u8 {
        match self {
            Register::A => 1,
            Register::B => 2,
            Register::C => 3,
            Register::D => 4,
            Register::E => 5,
            Register::F => 6,
            Register::G => 7,
            Register::H => 8,
            Register::MB => 9,
        }
    }

    /// The register's name.
    pub open spec fn name(self) -> Seq<char> {
        match self {
            Register::A => "A"@,
            Register::B => "B"@,
            Register::C => "C"@,
            Register::D => "D"@,
            Register::E => "E"@,
            Register::F => "F"@,
            Register::G => "G"@,
            Register::H => "H"@,
            Register::MB => "MB"@,
        }
    }

    /// The register that `addr` names, if it names one.
    pub open spec fn at(addr: u8) -> Option<Register> {
        if exists|reg: Register| reg.code() == addr {
            Some(choose|reg: Register| reg.code() == addr)
        } else {
            None
        }
    }

    /// No two registers share an operand byte, so `at` undoes `code`.
    pub proof fn lemma_at_code(self)
        ensures
            Register::at(self.code()) == Some(self),
    {
        let found = choose|reg: Register| reg.code() == self.code();
        assert(found.code() == self.code());
    }

    /// The register's name.
    pub fn as_str(&self) -> (name: &'static str)
        ensures
            name@ == self.name(),
    {
        match self {
            Register::A => "A",
            Register::B => "B",
            Register::C => "C",
            Register::D => "D",
            Register::E => "E",
            Register::F => "F",
            Register::G => "G",
            Register::H => "H",
            Register::MB => "MB",
        }
    }

    /// The name as an owned string.
    pub fn to_string(&self) -> (name: String)
        ensures
            name@ == self.name(),
    {
        self.as_str().to_owned()
    }

    /// The operand byte that names this register.
    pub fn addr(&self) -> (addr: u8)
        ensures
            addr == self.code(),
    {
        match self {
            Register::A => 1,
            Register::B => 2,
            Register::C => 3,
            Register::D => 4,
            Register::E => 5,
            Register::F => 6,
            Register::G => 7,
            Register::H => 8,
            Register::MB => 9,
        }
    }
}

impl TryFrom<u8> for Register {
    type Error = InvalidRegister;

    fn try_from(reg_addr: u8) -> (res: Result<Self, Self::Error>) {
        let found = match reg_addr {
            1 => Register::A,
            2 => Register::B,
            3 => Register::C,
            4 => Register::D,
            5 => Register::E,
            6 => Register::F,
            7 => Register::G,
            8 => Register::H,
            9 => Register::MB,
            _ => {
                return Err(InvalidRegister(reg_addr));
            },
        };
        proof {
            found.lemma_at_code();
        }
        Ok(found)
    }
}

impl TryFromSpecImpl<u8> for Register {
    open spec fn obeys_try_from_spec() -> bool {
        true
    }

    open spec fn try_from_spec(v: u8) -> Result<Self, InvalidRegister> {
        match Register::at(v) {
            Some(reg) => Ok(reg),
            None => Err(InvalidRegister(v)),
        }
    }
}

impl From<Register> for u8 {
    fn from(reg: Register) -> (addr: u8) {
        reg.addr()
    }
}

impl FromSpecImpl<Register> for u8 {
    open spec fn obeys_from_spec() -> bool {
        true
    }

    open spec fn from_spec(reg: Register) -> u8 {
        reg.code()
    }
}

impl WideRegister {
    /// The operand byte that names this register.
    pub open spec fn code(self) -> u8 {
        match self {
            WideRegister::AB => 0x12,
            WideRegister::CD => 0x34,
            WideRegister::EF => 0x56,
            WideRegister::GH => 0x78,
            WideRegister::PC => 0xF0,
            WideRegister::SP => 0xF1,
        }
    }

    /// The register's name.
    pub open spec fn name(self) -> Seq<char> {
        match self {
            WideRegister::AB => "AB"@,
            WideRegister::CD => "CD"@,
            WideRegister::EF => "EF"@,
            WideRegister::GH => "GH"@,
            WideRegister::PC => "PC"@,
            WideRegister::SP => "SP"@,
        }
    }

    /// The byte registers that hold the upper and the lower half, for the four
    /// paired registers. The program counter and the stack pointer have none.
    pub open spec fn halves(self) -> Option<(Register, Register)> {
        match self {
            WideRegister::AB => Some((Register::A, Register::B)),
            WideRegister::CD => Some((Register::C, Register::D)),
            WideRegister::EF => Some((Register::E, Register::F)),
            WideRegister::GH => Some((Register::G, Register::H)),
            WideRegister::PC => None,
            WideRegister::SP => None,
        }
    }

    /// The wide register that `addr` names, if it names one.
    pub open spec fn at(addr: u8) -> Option<WideRegister> {
        if exists|reg: WideRegister| reg.code() == addr {
            Some(choose|reg: WideRegister| reg.code() == addr)
        } else {
            None
        }
    }

    /// No two wide registers share an operand byte, so `at` undoes `code`.
    pub proof fn lemma_at_code(self)
        ensures
            WideRegister::at(self.code()) == Some(self),
    {
        let found = choose|reg: WideRegister| reg.code() == self.code();
        assert(found.code() == self.code());
    }

    /// The register's name.
    pub fn as_str(&self) -> (name: &'static str)
        ensures
            name@ == self.name(),
    {
        match self {
            WideRegister::AB => "AB",
            WideRegister::CD => "CD",
            WideRegister::EF => "EF",
            WideRegister::GH => "GH",
            WideRegister::PC => "PC",
            WideRegister::SP => "SP",
        }
    }

    /// The name as an owned string.
    pub fn to_string(&self) -> (name: String)
        ensures
            name@ == self.name(),
    {
        self.as_str().to_owned()
    }

    /// The operand byte that names this register.
    pub fn addr(&self) -> (addr: u8)
        ensures
            addr == self.code(),
    {
        match self {
            WideRegister::AB => 0x12,
            WideRegister::CD => 0x34,
            WideRegister::EF => 0x56,
            WideRegister::GH => 0x78,
            WideRegister::PC => 0xF0,
            WideRegister::SP => 0xF1,
        }
    }

    /// The byte registers behind a paired register, upper half first.
    pub fn high_and_low(&self) -> (pair: (Register, Register))
        requires
            self.halves() is Some,
        ensures
            Some(pair) == self.halves(),
    {
        match self {
            WideRegister::AB => (Register::A, Register::B),
            WideRegister::CD => (Register::C, Register::D),
            WideRegister::EF => (Register::E, Register::F),
            _ => (Register::G, Register::H),
        }
    }
}

impl TryFrom<u8> for WideRegister {
    type Error = InvalidRegister;

    fn try_from(reg_addr: u8) -> (res: Result<Self, Self::Error>) {
        let found = match reg_addr {
            0x12 => WideRegister::AB,
            0x34 => WideRegister::CD,
            0x56 => WideRegister::EF,
            0x78 => WideRegister::GH,
            0xF0 => WideRegister::PC,
            0xF1 => WideRegister::SP,
            _ => {
                return Err(InvalidRegister(reg_addr));
            },
        };
        proof {
            found.lemma_at_code();
        }
        Ok(found)
    }
}

impl TryFromSpecImpl<u8> for WideRegister {
    open spec fn obeys_try_from_spec() -> bool {
        true
    }

    open spec fn try_from_spec(v: u8) -> Result<Self, InvalidRegister> {
        match WideRegister::at(v) {
            Some(reg) => Ok(reg),
            None => Err(InvalidRegister(v)),
        }
    }
}

impl From<WideRegister> for u8 {
    fn from(reg: WideRegister) -> (addr: u8) {
        reg.addr()
    }
}

impl FromSpecImpl<WideRegister> for u8 {
    open spec fn obeys_from_spec() -> bool {
        true
    }

    open spec fn from_spec(reg: WideRegister) -> u8 {
        reg.code()
    }
}

impl AnyRegister {
    /// The register of either width that `addr` names: a byte register where
    /// there is one, else a wide register.
    pub open spec fn at(addr: u8) -> Option<AnyRegister> {
        match Register::at(addr) {
            Some(reg) => Some(AnyRegister::Std(reg)),
            None => match WideRegister::at(addr) {
                Some(reg) => Some(AnyRegister::Wide(reg)),
                None => None,
            },
        }
    }

    /// The operand byte that names this register.
    pub open spec fn code(self) -> u8 {
        match self {
            AnyRegister::Std(reg) => reg.code(),
            AnyRegister::Wide(reg) => reg.code(),
        }
    }

    /// No operand byte names both a byte register and a wide register, so one
    /// byte tells the two widths apart.
    pub proof fn lemma_widths_disjoint(reg: Register, wide: WideRegister)
        ensures
            reg.code() != wide.code(),
            Register::at(wide.code()) is None,
            WideRegister::at(reg.code()) is None,
    {
    }

    /// `at` undoes `code` for registers of either width.
    pub proof fn lemma_at_code(self)
        ensures
            AnyRegister::at(self.code()) == Some(self),
    {
        match self {
            AnyRegister::Std(reg) => {
                reg.lemma_at_code();
            },
            AnyRegister::Wide(wide) => {
                wide.lemma_at_code();
                AnyRegister::lemma_widths_disjoint(Register::A, wide);
            },
        }
    }
}

impl TryFrom<u8> for AnyRegister {
    type Error = InvalidRegister;

    fn try_from(reg_addr: u8) -> (res: Result<Self, Self::Error>) {
        match Register::try_from(reg_addr) {
            Ok(reg) => Ok(AnyRegister::from(reg)),
            Err(_) => match WideRegister::try_from(reg_addr) {
                Ok(reg) => Ok(AnyRegister::from(reg)),
                Err(err) => Err(err),
            },
        }
    }
}

impl TryFromSpecImpl<u8> for AnyRegister {
    open spec fn obeys_try_from_spec() -> bool {
        true
    }

    open spec fn try_from_spec(v: u8) -> Result<Self, InvalidRegister> {
        match AnyRegister::at(v) {
            Some(reg) => Ok(reg),
            None => Err(InvalidRegister(v)),
        }
    }
}

impl From<Register> for AnyRegister {
    fn from(r: Register) -> (any: AnyRegister) {
        AnyRegister::Std(r)
    }
}

impl FromSpecImpl<Register> for AnyRegister {
    open spec fn obeys_from_spec() -> bool {
        true
    }

    open spec fn from_spec(r: Register) -> AnyRegister {
        AnyRegister::Std(r)
    }
}

impl From<WideRegister> for AnyRegister {
    fn from(wr: WideRegister) -> (any: AnyRegister) {
        AnyRegister::Wide(wr)
    }
}

impl FromSpecImpl<WideRegister> for AnyRegister {
    open spec fn obeys_from_spec() -> bool {
        true
    }

    open spec fn from_spec(wr: WideRegister) -> AnyRegister {
        AnyRegister::Wide(wr)
    }
}

impl RegisterState {
    /// The register file with every register at zero.
    pub open spec fn zeroed() -> RegisterState {
        RegisterState { a: 0, b: 0, c: 0, d: 0, e: 0, f: 0, g: 0, h: 0, mb: 0, pc: 0, sp: 0 }
    }

    /// The value of byte register `reg`.
    pub open spec fn byte(self, reg: Register) -> u8 {
        match reg {
            Register::A => self.a,
            Register::B => self.b,
            Register::C => self.c,
            Register::D => self.d,
            Register::E => self.e,
            Register::F => self.f,
            Register::G => self.g,
            Register::H => self.h,
            Register::MB => self.mb,
        }
    }

    /// The register file in which `reg` holds `value` and all else is as in `self`.
    pub open spec fn with_byte(self, reg: Register, value: u8) -> RegisterState {
        match reg {
            Register::A => RegisterState { a: value, ..self },
            Register::B => RegisterState { b: value, ..self },
            Register::C => RegisterState { c: value, ..self },
            Register::D => RegisterState { d: value, ..self },
            Register::E => RegisterState { e: value, ..self },
            Register::F => RegisterState { f: value, ..self },
            Register::G => RegisterState { g: value, ..self },
            Register::H => RegisterState { h: value, ..self },
            Register::MB => RegisterState { mb: value, ..self },
        }
    }

    /// The value of wide register `wide_reg`: for a paired register its upper
    /// half's byte before its lower half's, for the program counter and the
    /// stack pointer their own 16 bits.
    pub open spec fn wide(self, wide_reg: WideRegister) -> u16 {
        match wide_reg {
            WideRegister::PC => self.pc,
            WideRegister::SP => self.sp,
            _ => {
                let (high, low) = wide_reg.halves().unwrap();
                join_bytes(self.byte(high), self.byte(low))
            },
        }
    }

    /// The register file in which `wide_reg` holds `value` and all else is as
    /// in `self`: a paired register takes the upper byte into its upper half
    /// and the lower byte into its lower half.
    pub open spec fn with_wide(self, wide_reg: WideRegister, value: u16) -> RegisterState {
        match wide_reg {
            WideRegister::PC => RegisterState { pc: value, ..self },
            WideRegister::SP => RegisterState { sp: value, ..self },
            _ => {
                let (high, low) = wide_reg.halves().unwrap();
                self.with_byte(high, high_byte(value)).with_byte(low, low_byte(value))
            },
        }
    }

    /// A write to one byte register is read back from it and leaves every
    /// other byte register, the program counter and the stack pointer alone.
    pub proof fn lemma_with_byte(self, reg: Register, value: u8, other: Register)
        ensures
            self.with_byte(reg, value).byte(reg) == value,
            other != reg ==> self.with_byte(reg, value).byte(other) == self.byte(other),
            self.with_byte(reg, value).pc == self.pc,
            self.with_byte(reg, value).sp == self.sp,
    {
    }

    /// After a write to a paired register its upper half holds the value's
    /// upper byte and its lower half the value's lower byte.
    pub proof fn lemma_wide_write_byte_read(self, wide_reg: WideRegister, value: u16)
        requires
            wide_reg.halves() is Some,
        ensures
            ({
                let (upper, lower) = wide_reg.halves().unwrap();
                let written = self.with_wide(wide_reg, value);
                &&& written.byte(upper) == high_byte(value)
                &&& written.byte(lower) == low_byte(value)
                &&& written.byte(upper) == (value >> 8) & 0xff
                &&& written.byte(lower) == value & 0xff
            }),
    {
        crate::util::lemma_bytes_as_bits(value, 0, 0);
    }

    /// After writes of `high` and `low` to the two halves of a paired
    /// register, in either order, the paired register reads as `high` before
    /// `low`.
    pub proof fn lemma_byte_writes_wide_read(self, wide_reg: WideRegister, high: u8, low: u8)
        requires
            wide_reg.halves() is Some,
        ensures
            ({
                let (upper, lower) = wide_reg.halves().unwrap();
                let high_first = self.with_byte(upper, high).with_byte(lower, low);
                let low_first = self.with_byte(lower, low).with_byte(upper, high);
                &&& high_first.wide(wide_reg) == join_bytes(high, low)
                &&& low_first.wide(wide_reg) == join_bytes(high, low)
                &&& high_first.wide(wide_reg) == ((high as u16) << 8) | (low as u16)
            }),
    {
        crate::util::lemma_bytes_as_bits(0, high, low);
    }

    /// A write to any wide register is read back from it unchanged.
    pub proof fn lemma_wide_write_wide_read(self, wide_reg: WideRegister, value: u16)
        ensures
            self.with_wide(wide_reg, value).wide(wide_reg) == value,
    {
        crate::util::lemma_split_then_join(value);
    }

    /// A register file with every register at zero.
    pub fn new() -> (state: Self)
        ensures
            state == RegisterState::zeroed(),
    {
        RegisterState { a: 0, b: 0, c: 0, d: 0, e: 0, f: 0, g: 0, h: 0, mb: 0, pc: 0, sp: 0 }
    }

    /// Writes `value` to the byte register `reg`.
    pub fn set(&mut self, reg: Register, value: u8)
        ensures
            *final(self) == old(self).with_byte(reg, value),
    {
        match reg {
            Register::A => self.a = value,
            Register::B => self.b = value,
            Register::C => self.c = value,
            Register::D => self.d = value,
            Register::E => self.e = value,
            Register::F => self.f = value,
            Register::G => self.g = value,
            Register::H => self.h = value,
            Register::MB => self.mb = value,
        }
    }

    /// Reads the byte register `reg`.
    pub fn get(&self, reg: Register) -> (value: u8)
        ensures
            value == self.byte(reg),
    {
        match reg {
            Register::A => self.a,
            Register::B => self.b,
            Register::C => self.c,
            Register::D => self.d,
            Register::E => self.e,
            Register::F => self.f,
            Register::G => self.g,
            Register::H => self.h,
            Register::MB => self.mb,
        }
    }

    /// Writes `value` to the wide register `wide_reg`: to the two halves of a
    /// paired register, or to the program counter or stack pointer itself.
    pub fn set_wide(&mut self, wide_reg: WideRegister, value: u16)
        ensures
            *final(self) == old(self).with_wide(wide_reg, value),
    {
        match wide_reg {
            WideRegister::PC => self.pc = value,
            WideRegister::SP => self.sp = value,
            _ => {
                let (high_val, low_val) = high_and_low_value(value);
                let (high_reg, low_reg) = wide_reg.high_and_low();
                self.set(high_reg, high_val);
                self.set(low_reg, low_val);
            },
        }
    }

    /// Reads the wide register `wide_reg`: from the two halves of a paired
    /// register, or from the program counter or stack pointer itself.
    pub fn get_wide(&self, wide_reg: WideRegister) -> (value: u16)
        ensures
            value == self.wide(wide_reg),
    {
        match wide_reg {
            WideRegister::PC => self.pc,
            WideRegister::SP => self.sp,
            _ => {
                let (high_reg, low_reg) = wide_reg.high_and_low();
                let high_val = self.get(high_reg);
                let low_val = self.get(low_reg);
                wide_value(high_val, low_val)
            },
        }
    }
}

impl Default for RegisterState {
    fn default() -> (state: Self)
        ensures
            state == RegisterState::zeroed(),
    {
        RegisterState::new()
    }
}

} // verus!
