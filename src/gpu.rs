//! A stand-in for the GPU ports: reads report the GPU ready for DMA, writes are
//! accepted and ignored.
use vstd::prelude::*;
use crate::bus::{BusDevice, SizedData, width_modulus, read_agrees, peek_agrees};
use crate::cpustructs::FatalError;

verus! {

/// The status value every GPU read returns (the DMA-ready flag set).
pub const GPU_READY_STATUS: u32 = 0x1000_0000;

/// A device that owns a GPU, such as the motherboard.
pub trait WithGpu {
    fn gpu(&self) -> &Gpu;

    fn gpu_mut(&mut self) -> &mut Gpu;
}

/// The GPU, reduced to its bus interface.
pub struct Gpu {}

impl Gpu {
    pub fn new() -> Gpu {
        Gpu {  }
    }
}

impl BusDevice for Gpu {
    fn read<T: SizedData>(&mut self, addr: u32) -> (r: Result<T, FatalError>)
        ensures
            read_agrees(
                r,
                Ok((GPU_READY_STATUS as nat % width_modulus(T::spec_width())) as u32),
            ),
    {
        let v = T::from_u32(GPU_READY_STATUS);
        Ok(v)
    }

    fn peek<T: SizedData>(&self, addr: u32) -> (r: Result<Option<T>, FatalError>)
        ensures
            peek_agrees(r, Ok(Some(0u32))),
    {
        Ok(Some(T::from_u32(0)))
    }

    fn write<T: SizedData>(&mut self, addr: u32, data: T) -> (r: Result<(), FatalError>)
        ensures
            r is Ok,
    {
        Ok(())
    }
}

} // verus!
