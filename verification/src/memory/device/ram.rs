use super::{load, store, store_result, Device, Error};
use vstd::prelude::*;

verus! {

/// A memory of 65536 bytes, one for each address.
#[derive(Debug)]
pub struct RamArray(pub [u8; 65536]);

impl View for RamArray {
    type V = Seq<u8>;

    open spec fn view(&self) -> Seq<u8> {
        self.0@
    }
}

impl RamArray {
    /// A memory of 65536 zero bytes.
    pub fn new() -> (ram: Self)
        ensures
            ram@ == Seq::new(65536, |i: int| 0u8),
    {
        Self::default()
    }
}

impl Device for RamArray {
    open spec fn cells(&self) -> Seq<u8> {
        self@
    }

    fn set(&mut self, addr: u16, data: u8) -> (res: Result<(), Error>) {
        let size = self.0.len();
        if addr as usize >= size {
            Err(Error::OutOfBounds(addr))
        } else {
            self.0[addr as usize] = data;
            Ok(())
        }
    }

    fn get(&self, addr: u16) -> (res: Result<u8, Error>) {
        let size = self.0.len();
        if addr as usize >= size {
            Err(Error::OutOfBounds(addr))
        } else {
            Ok(self.0[addr as usize])
        }
    }
}

impl Default for RamArray {
    fn default() -> (ram: Self)
        ensures
            ram@ == Seq::new(65536, |i: int| 0u8),
    {
        Self([0; 65536])
    }
}

/// A memory whose length is chosen when it is made.
#[derive(Debug)]
pub struct DynMem(pub Vec<u8>);

impl View for DynMem {
    type V = Seq<u8>;

    open spec fn view(&self) -> Seq<u8> {
        self.0@
    }
}

impl DynMem {
    /// A memory of `size` zero bytes.
    pub fn new(size: usize) -> (mem: Self)
        ensures
            mem@ == Seq::new(size as nat, |i: int| 0u8),
    {
        Self(vec![0; size])
    }

    /// Overwrites the bytes from `start_index` on with `replace_vec`.
    pub fn replace(&mut self, replace_vec: &[u8], start_index: usize)
        requires
            start_index + replace_vec@.len() <= old(self)@.len(),
        ensures
            final(self)@ == old(self)@.subrange(0, start_index as int) + replace_vec@ + old(
                self,
            )@.subrange(start_index + replace_vec@.len(), old(self)@.len() as int),
    {
        let size = self.0.len();
        let mut i: usize = 0;
        while i < replace_vec.len()
            invariant
                i <= replace_vec@.len(),
                start_index + replace_vec@.len() <= size,
                self@.len() == size,
                old(self)@.len() == size,
                forall|j: int| 0 <= j < i ==> self@[start_index + j] == replace_vec@[j],
                forall|j: int|
                    0 <= j < self@.len() && !(start_index <= j < start_index + i) ==> self@[j]
                        == old(self)@[j],
            decreases replace_vec@.len() - i,
        {
            self.0[start_index + i] = replace_vec[i];
            i += 1;
        }
    }
}

impl Device for DynMem {
    open spec fn cells(&self) -> Seq<u8> {
        self@
    }

    fn set(&mut self, addr: u16, data: u8) -> (res: Result<(), Error>) {
        let size = self.0.len();
        if addr as usize >= size {
            Err(Error::OutOfBounds(addr))
        } else {
            self.0[addr as usize] = data;
            Ok(())
        }
    }

    fn get(&self, addr: u16) -> (res: Result<u8, Error>) {
        let size = self.0.len();
        if addr as usize >= size {
            Err(Error::OutOfBounds(addr))
        } else {
            Ok(self.0[addr as usize])
        }
    }
}

impl Default for DynMem {
    /// An empty memory, with room reserved for one byte per address.
    fn default() -> (mem: Self)
        ensures
            mem@ == Seq::<u8>::empty(),
    {
        Self(Vec::with_capacity(0xffff + 1))
    }
}

} // verus!
