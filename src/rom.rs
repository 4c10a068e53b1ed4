//! The BIOS ROM: a read-only byte store.
use vstd::prelude::*;
use crate::bus::{BusDevice, SizedData, bytes_read, read_agrees, peek_agrees};
use crate::cpustructs::FatalError;

verus! {

/// A read-only region of memory.
pub struct Rom {
    buf: Vec<u8>,
}

impl View for Rom {
    type V = Seq<u8>;

    closed spec fn view(&self) -> Seq<u8> {
        self.buf@
    }
}

impl Rom {
    /// A ROM holding exactly the given bytes.
    pub fn from_buf(buf: Vec<u8>) -> (r: Rom)
        ensures
            r@ == buf@,
    {
        Rom { buf }
    }

    /// The number of bytes held.
    pub fn len(&self) -> (r: usize)
        ensures
            r == self@.len(),
    {
        self.buf.len()
    }

    fn read_buf<T: SizedData>(&self, addr: usize) -> (r: T)
        requires
            addr + T::spec_width() <= self@.len(),
            addr <= u32::MAX,
        ensures
            bytes_read(self@, T::spec_width(), addr as u32) == Ok::<u32, FatalError>(
                r.spec_value(),
            ),
    {
        let w = T::width();
        assert(self.buf@.len() == self.buf.len());
        let r = T::from_le_byteslice(
            vstd::slice::slice_subrange(self.buf.as_slice(), addr, addr + w),
        );
        proof {
            r.lemma_width();
        }
        r
    }
}

impl BusDevice for Rom {
    fn read<T: SizedData>(&mut self, addr: u32) -> (r: Result<T, FatalError>)
        ensures
            read_agrees(r, bytes_read(old(self)@, T::spec_width(), addr)),
            final(self)@ == old(self)@,
    {
        let w = T::width();
        if (addr as usize) < self.buf.len() && w <= self.buf.len() - (addr as usize) {
            Ok(self.read_buf::<T>(addr as usize))
        } else {
            Err(FatalError::UnhandledAccess(addr))
        }
    }

    fn peek<T: SizedData>(&self, addr: u32) -> (r: Result<Option<T>, FatalError>)
        ensures
            peek_agrees(
                r,
                match bytes_read(self@, T::spec_width(), addr) {
                    Ok(v) => Ok(Some(v)),
                    Err(e) => Err(e),
                },
            ),
    {
        let w = T::width();
        if (addr as usize) < self.buf.len() && w <= self.buf.len() - (addr as usize) {
            Ok(Some(self.read_buf::<T>(addr as usize)))
        } else {
            Err(FatalError::UnhandledAccess(addr))
        }
    }

    /// Writes to a ROM change nothing.
    fn write<T: SizedData>(&mut self, addr: u32, data: T) -> (r: Result<(), FatalError>)
        ensures
            r is Ok,
            final(self)@ == old(self)@,
    {
        Ok(())
    }
}

} // verus!
