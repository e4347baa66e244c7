use crate::cpu::operation::{hlt, mov};
use crate::cpu::{Register, WideRegister};
use crate::util::{high_and_low_value, high_byte, low_byte};
use vstd::prelude::*;

verus! {

/// The address that the boot program writes to and reads back.
pub const BOOT_ADDR: u16 = 0x01f0;

/// The byte that the boot program writes.
pub const BOOT_VALUE: u8 = 0xab;

/// The boot program, instruction by instruction: put `BOOT_ADDR` into the
/// wide register CD; write `BOOT_VALUE` to memory at `BOOT_ADDR`; read memory
/// at the address in CD into register A; halt.
pub open spec fn boot_program() -> Seq<u8> {
    seq![
        mov::lit_reg_wide::CODE,
        high_byte(BOOT_ADDR),
        low_byte(BOOT_ADDR),
        WideRegister::CD.code(),
        mov::lit_mem::CODE,
        BOOT_VALUE,
        high_byte(BOOT_ADDR),
        low_byte(BOOT_ADDR),
        mov::reg_ptr_reg::CODE,
        WideRegister::CD.code(),
        Register::A.code(),
        hlt::CODE,
    ]
}

/// The bytes of the boot program.
pub fn boot_rom() -> (rom: Vec<u8>)
    ensures
        rom@ == boot_program(),
{
    let (addr_high, addr_low) = high_and_low_value(BOOT_ADDR);
    let mut rom = Vec::new();
    rom.push(mov::lit_reg_wide::CODE);
    rom.push(addr_high);
    rom.push(addr_low);
    rom.push(WideRegister::CD.into());
    rom.push(mov::lit_mem::CODE);
    rom.push(BOOT_VALUE);
    rom.push(addr_high);
    rom.push(addr_low);
    rom.push(mov::reg_ptr_reg::CODE);
    rom.push(WideRegister::CD.into());
    rom.push(Register::A.into());
    rom.push(hlt::CODE);
    rom
}

} // verus!
