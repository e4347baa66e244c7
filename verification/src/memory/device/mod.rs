use crate::util::{forward, high_and_low_value, high_byte, join_bytes, low_byte, wide_value};
use vstd::prelude::*;

pub mod ram;

verus! {

/// Why a device refuses an access.
#[derive(Debug)]
#[non_exhaustive]
pub enum Error {
    /// The address is not backed by the device.
    OutOfBounds(u16),
    /// Any other failure of the device.
    Other,
}

/// What a read of one byte at `addr` gives on a device that holds `cells`:
/// the byte at that index, or a refusal that carries the address when the
/// address is at or beyond the device's length.
pub open spec fn load(cells: Seq<u8>, addr: u16) -> Result<u8, Error> {
    if addr < cells.len() {
        Ok(cells[addr as int])
    } else {
        Err(Error::OutOfBounds(addr))
    }
}

/// Whether a write of one byte at `addr` is accepted on a device that holds
/// `cells`, and the refusal if not.
pub open spec fn store_result(cells: Seq<u8>, addr: u16) -> Result<(), Error> {
    if addr < cells.len() {
        Ok(())
    } else {
        Err(Error::OutOfBounds(addr))
    }
}

/// What the device holds after a write of `data` at `addr`: a refused write
/// changes nothing.
pub open spec fn store(cells: Seq<u8>, addr: u16, data: u8) -> Seq<u8> {
    if addr < cells.len() {
        cells.update(addr as int, data)
    } else {
        cells
    }
}

/// What a read of a 16-bit word at `addr` gives: the byte at `addr` as the
/// upper half and the byte at the next address as the lower half, or the
/// refusal of the first of the two reads that is refused. Next to the last
/// address is the first.
pub open spec fn load_wide(cells: Seq<u8>, addr: u16) -> Result<u16, Error> {
    match load(cells, addr) {
        Err(err) => Err(err),
        Ok(high) => match load(cells, forward(addr, 1)) {
            Err(err) => Err(err),
            Ok(low) => Ok(join_bytes(high, low)),
        },
    }
}

/// Whether a write of a 16-bit word at `addr` is accepted, and if not the
/// refusal of the first of its two byte writes that is refused.
pub open spec fn store_wide_result(cells: Seq<u8>, addr: u16) -> Result<(), Error> {
    match store_result(cells, addr) {
        Err(err) => Err(err),
        Ok(_) => store_result(cells, forward(addr, 1)),
    }
}

/// What the device holds after a write of the word `data` at `addr`: the upper
/// byte goes to `addr`, then the lower byte to the next address. Where
/// the first write is refused nothing changes; where only the second is
/// refused the upper byte stays written.
pub open spec fn store_wide(cells: Seq<u8>, addr: u16, data: u16) -> Seq<u8> {
    if addr < cells.len() {
        store(store(cells, addr, high_byte(data)), forward(addr, 1), low_byte(data))
    } else {
        cells
    }
}

/// A byte that was written is read back, and a write changes no other byte.
pub proof fn lemma_store_then_load(cells: Seq<u8>, addr: u16, data: u8, other: u16)
    requires
        addr < cells.len(),
    ensures
        load(store(cells, addr, data), addr) == Ok::<u8, Error>(data),
        other != addr ==> load(store(cells, addr, data), other) == load(cells, other),
{
}

/// A word that was written is read back: as a word, and byte by byte with the
/// upper byte first.
pub proof fn lemma_store_wide_then_load(cells: Seq<u8>, addr: u16, data: u16)
    requires
        addr < cells.len(),
        forward(addr, 1) < cells.len(),
    ensures
        load_wide(store_wide(cells, addr, data), addr) == Ok::<u16, Error>(data),
        load(store_wide(cells, addr, data), addr) == Ok::<u8, Error>(high_byte(data)),
        load(store_wide(cells, addr, data), forward(addr, 1)) == Ok::<u8, Error>(low_byte(data)),
{
    crate::util::lemma_split_then_join(data);
}

/// Something that stores bytes at 16-bit addresses: `cells().len()` bytes,
/// the byte at address `i` being `cells()[i]`.
pub trait Device {
    /// The bytes that the device holds, by address. A device that does not
    /// say what it holds holds nothing.
    open spec fn cells(&self) -> Seq<u8> {
        Seq::empty()
    }

    /// Writes `data` at `addr`.
    fn set(&mut self, addr: u16, data: u8) -> (res: Result<(), Error>)
        ensures
            res == store_result(old(self).cells(), addr),
            final(self).cells() == store(old(self).cells(), addr, data),
    ;

    /// Reads the byte at `addr`.
    fn get(&self, addr: u16) -> (res: Result<u8, Error>)
        ensures
            res == load(self.cells(), addr),
    ;

    /// Writes the word `data` at `addr`, upper byte first.
    fn set_wide(&mut self, addr: u16, data: u16) -> (res: Result<(), Error>)
        ensures
            res == store_wide_result(old(self).cells(), addr),
            final(self).cells() == store_wide(old(self).cells(), addr, data),
    {
        let (high, low) = high_and_low_value(data);
        self.set(addr, high)?;
        self.set(addr.wrapping_add(1), low)
    }

    /// Reads the word at `addr`, upper byte first.
    fn get_wide(&self, addr: u16) -> (res: Result<u16, Error>)
        ensures
            res == load_wide(self.cells(), addr),
    {
        let high = self.get(addr)?;
        let low = self.get(addr.wrapping_add(1))?;
        Ok(wide_value(high, low))
    }
}

} // verus!
