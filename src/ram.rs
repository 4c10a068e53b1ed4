//! Main RAM: a zero-initialised, byte-addressed store.
use vstd::prelude::*;
use crate::bus::{BusDevice, SizedData, bytes_read, bytes_written, read_agrees, peek_agrees};
use crate::cpustructs::FatalError;

verus! {

/// A read-write byte store.
pub struct Ram {
    data: Vec<u8>,
}

impl View for Ram {
    type V = Seq<u8>;

    closed spec fn view(&self) -> Seq<u8> {
        self.data@
    }
}

impl Ram {
    /// A store of `size` zero bytes.
    pub fn with_size(size: usize) -> (r: Ram)
        ensures
            r@ == Seq::new(size as nat, |_i: int| 0u8),
    {
        let r = Ram { data: vec![0u8; size] };
        assert(r@ =~= Seq::new(size as nat, |_i: int| 0u8));
        r
    }

    /// The number of bytes held.
    pub fn len(&self) -> (r: usize)
        ensures
            r == self@.len(),
    {
        self.data.len()
    }

    fn read_buf<T: SizedData>(&self, addr: usize) -> (r: T)
        requires
            addr + T::spec_width() <= self@.len(),
            addr <= u32::MAX,
        ensures
            bytes_read(self@, T::spec_width(), addr as u32) == Ok::<u32, FatalError>(
                r.spec_value(),
            ),
    {
        let w = T::width();
        assert(self.data@.len() == self.data.len());
        let r = T::from_le_byteslice(
            vstd::slice::slice_subrange(self.data.as_slice(), addr, addr + w),
        );
        proof {
            r.lemma_width();
        }
        r
    }

    fn write_buf<T: SizedData>(&mut self, addr: usize, data: T)
        requires
            addr + T::spec_width() <= old(self)@.len(),
            addr <= u32::MAX,
        ensures
            final(self)@ == bytes_written(
                old(self)@,
                T::spec_width(),
                addr as u32,
                data.spec_value(),
            ),
    {
        let w = T::width();
        assert(self.data@.len() == self.data.len());
        let mut buf = [0u8; 4];
        data.to_le_byteslice(&mut buf);
        let ghost bytes = buf@.take(w as int);
        assert(bytes =~= crate::bus::le_bytes(data.spec_value(), T::spec_width()));
        let mut k: usize = 0;
        while k < w
            invariant
                k <= w,
                w == T::spec_width(),
                w <= 4,
                addr + w <= self@.len(),
                self.data@.len() <= usize::MAX,
                buf@.len() == 4,
                bytes == buf@.take(w as int),
                self@.len() == old(self)@.len(),
                forall|i: int| 0 <= i < addr ==> self@[i] == old(self)@[i],
                forall|i: int| addr + w <= i < self@.len() ==> self@[i] == old(self)@[i],
                forall|i: int| 0 <= i < k ==> self@[addr + i] == bytes[i],
            decreases w - k,
        {
            self.data[addr + k] = buf[k];
            k = k + 1;
        }
        assert(self@ =~= bytes_written(
            old(self)@,
            T::spec_width(),
            addr as u32,
            data.spec_value(),
        ));
    }
}

impl BusDevice for Ram {
    fn read<T: SizedData>(&mut self, addr: u32) -> (r: Result<T, FatalError>)
        ensures
            read_agrees(r, bytes_read(old(self)@, T::spec_width(), addr)),
            final(self)@ == old(self)@,
    {
        let w = T::width();
        if (addr as usize) < self.data.len() && w <= self.data.len() - (addr as usize) {
            Ok(self.read_buf::<T>(addr as usize))
        } else {
            Err(FatalError::UnhandledAccess(addr))
        }
    }

    fn peek<T: SizedData>(&self, addr: u32) -> (r: Result<Option<T>, FatalError>)
        ensures
            peek_agrees(
                r,
                match bytes_read(self@, T::spec_width(), addr) {
                    Ok(v) => Ok(Some(v)),
                    Err(e) => Err(e),
                },
            ),
    {
        let w = T::width();
        if (addr as usize) < self.data.len() && w <= self.data.len() - (addr as usize) {
            Ok(Some(self.read_buf::<T>(addr as usize)))
        } else {
            Err(FatalError::UnhandledAccess(addr))
        }
    }

    fn write<T: SizedData>(&mut self, addr: u32, data: T) -> (r: Result<(), FatalError>)
        ensures
            match bytes_read(old(self)@, T::spec_width(), addr) {
                Ok(_) => r is Ok && final(self)@ == bytes_written(
                    old(self)@,
                    T::spec_width(),
                    addr,
                    data.spec_value(),
                ),
                Err(e) => r == Err::<(), FatalError>(e) && final(self)@ == old(self)@,
            },
    {
        let w = T::width();
        if (addr as usize) < self.data.len() && w <= self.data.len() - (addr as usize) {
            self.write_buf(addr as usize, data);
            Ok(())
        } else {
            Err(FatalError::UnhandledAccess(addr))
        }
    }
}

} // verus!
