//! The motherboard: owns the CPU and every device, and routes bus accesses.
use vstd::prelude::*;
use crate::bus::{
    BusDevice, SizedData, bytes_read, bytes_written, width_modulus, read_agrees, peek_agrees,
};
use crate::cpu::{self, CpuModel, CpuR3000, cpu_wf, step_spec};
use crate::cpustructs::FatalError;
use crate::gpu::{self, Gpu, GPU_READY_STATUS};
use crate::memctrl::{MemoryController, memctrl_read_spec, memctrl_peek_spec, memctrl_write_spec};
use crate::memorymap::{Device, map_device, map_spec, RAM_SIZE, BIOS_SIZE};
use crate::ram::Ram;
use crate::rom::Rom;

verus! {

/// The machine as mathematical values: the CPU, main RAM and the BIOS image.
pub struct BoardModel {
    pub cpu: CpuModel,
    pub ram: Seq<u8>,
    pub bios: Seq<u8>,
}

/// Well-formed machine: 2 MiB of RAM, a 512 KiB BIOS, well-formed CPU state.
pub open spec fn board_wf(b: BoardModel) -> bool {
    &&& b.ram.len() == RAM_SIZE
    &&& b.bios.len() == BIOS_SIZE
    &&& cpu_wf(b.cpu)
}

/// What a read of `w` bytes at `addr` returns: the address is mapped, then
/// checked for alignment, then handed to its device. Unused peripherals read
/// as zero.
pub open spec fn bus_read_spec(b: BoardModel, w: nat, addr: u32) -> Result<u32, FatalError> {
    match map_spec(addr) {
        Err(e) => Err(e),
        Ok((_seg, dev, local)) => if addr as nat % w != 0 {
            Err(FatalError::UnalignedAccess(addr))
        } else {
            match dev {
                Device::RAM => bytes_read(b.ram, w, local),
                Device::BIOS => bytes_read(b.bios, w, local),
                Device::MemCtrl => memctrl_read_spec(w, local),
                Device::GPU => Ok((GPU_READY_STATUS as nat % width_modulus(w)) as u32),
                Device::Expansion1 | Device::SPU | Device::IntCtrl | Device::RamCtrl
                | Device::DMA => Ok(0u32),
                _ => Err(FatalError::UnhandledAccess(addr)),
            }
        },
    }
}

/// What a peek of `w` bytes at `addr` returns; devices that cannot be read
/// without side effects give `None`.
pub open spec fn bus_peek_spec(b: BoardModel, w: nat, addr: u32) -> Result<
    Option<u32>,
    FatalError,
> {
    match map_spec(addr) {
        Err(e) => Err(e),
        Ok((_seg, dev, local)) => if addr as nat % w != 0 {
            Err(FatalError::UnalignedAccess(addr))
        } else {
            match dev {
                Device::RAM => match bytes_read(b.ram, w, local) {
                    Ok(v) => Ok(Some(v)),
                    Err(e) => Err(e),
                },
                Device::BIOS => match bytes_read(b.bios, w, local) {
                    Ok(v) => Ok(Some(v)),
                    Err(e) => Err(e),
                },
                Device::MemCtrl => Ok(memctrl_peek_spec(w, local)),
                Device::SPU | Device::GPU => Ok(Some(0u32)),
                _ => Ok(None),
            }
        },
    }
}

/// What a write of `v`, `w` bytes wide, at `addr` does: the new RAM contents,
/// or the fatal error. Writes to the BIOS are refused; the cache-control and
/// interrupt-mask ports accept zero only; unused peripherals ignore writes.
pub open spec fn bus_write_spec(b: BoardModel, w: nat, addr: u32, v: u32) -> Result<
    Seq<u8>,
    FatalError,
> {
    match map_spec(addr) {
        Err(e) => Err(e),
        Ok((_seg, dev, local)) => if addr as nat % w != 0 {
            Err(FatalError::UnalignedAccess(addr))
        } else {
            match dev {
                Device::RAM => match bytes_read(b.ram, w, local) {
                    Ok(_) => Ok(bytes_written(b.ram, w, local, v)),
                    Err(e) => Err(e),
                },
                Device::MemCtrl => match memctrl_write_spec(w, local, v) {
                    Ok(_) => Ok(b.ram),
                    Err(e) => Err(e),
                },
                Device::BIOS => Err(FatalError::ReadOnlyWrite(addr)),
                Device::IOCacheControl | Device::IntCtrl => if v != 0 {
                    Err(FatalError::UnsupportedPortWrite(addr, v))
                } else {
                    Ok(b.ram)
                },
                Device::SPU | Device::Expansion2 | Device::GPU | Device::RamCtrl
                | Device::Timers | Device::DMA => Ok(b.ram),
                _ => Err(FatalError::UnhandledAccess(addr)),
            }
        },
    }
}

/// The system motherboard: owns all devices and drives the CPU.
pub struct Motherboard {
    pub bios: Rom,
    pub ram: Ram,
    pub memctrl: MemoryController,
    pub cpu: CpuR3000,
    pub gpu: Gpu,
}

impl View for Motherboard {
    type V = BoardModel;

    open spec fn view(&self) -> BoardModel {
        BoardModel { cpu: self.cpu@, ram: self.ram@, bios: self.bios@ }
    }
}

impl Motherboard {
    /// A machine at power-on with the given BIOS image and zeroed RAM.
    pub fn new(bios: Vec<u8>) -> (r: Motherboard)
        requires
            bios@.len() == BIOS_SIZE,
        ensures
            r@.bios == bios@,
            r@.ram == Seq::new(RAM_SIZE as nat, |_i: int| 0u8),
            r.cpu@ == CpuR3000::new_spec(),
            board_wf(r@),
    {
        Motherboard {
            bios: Rom::from_buf(bios),
            ram: Ram::with_size(RAM_SIZE as usize),
            cpu: CpuR3000::new(),
            gpu: Gpu::new(),
            memctrl: MemoryController::new(),
        }
    }
}

impl Motherboard {
    /// One clock tick: burn a wait cycle (`Ok(false)`), or run one
    /// instruction (`Ok(true)`).
    pub fn tick(&mut self) -> (r: Result<bool, FatalError>)
        requires
            board_wf(old(self)@),
        ensures
            if old(self)@.cpu.wait > 0 {
                r == Ok::<bool, FatalError>(false) && final(self)@ == (BoardModel {
                    cpu: CpuModel { wait: (old(self)@.cpu.wait - 1) as u32, ..old(self)@.cpu },
                    ..old(self)@
                })
            } else {
                match step_spec(old(self)@) {
                    Ok(b) => r == Ok::<bool, FatalError>(true) && final(self)@ == b && board_wf(b),
                    Err(e) => r == Err::<bool, FatalError>(e),
                }
            },
    {
        if !cpu::tick(self) {
            return Ok(false);
        }
        match cpu::exec(self) {
            Ok(()) => Ok(true),
            Err(e) => Err(e),
        }
    }
}

impl BusDevice for Motherboard {
    fn read<T: SizedData>(&mut self, addr: u32) -> (r: Result<T, FatalError>)
        ensures
            read_agrees(r, bus_read_spec(old(self)@, T::spec_width(), addr)),
            final(self)@ == old(self)@,
    {
        let (_seg, dev, local_addr) = match map_device(addr) {
            Ok(m) => m,
            Err(e) => return Err(e),
        };
        if !T::is_aligned(addr) {
            return Err(FatalError::UnalignedAccess(addr));
        }
        match dev {
            Device::RAM => self.ram.read::<T>(local_addr),
            Device::BIOS => self.bios.read::<T>(local_addr),
            Device::MemCtrl => self.memctrl.read::<T>(local_addr),
            Device::GPU => self.gpu.read::<T>(local_addr),
            // the parallel port, SPU, interrupt controller, RAM size register
            // and DMA registers are not emulated and read as zero
            Device::Expansion1 | Device::SPU | Device::IntCtrl | Device::RamCtrl | Device::DMA => Ok(
                T::from_u32(0),
            ),
            _ => Err(FatalError::UnhandledAccess(addr)),
        }
    }

    fn peek<T: SizedData>(&self, addr: u32) -> (r: Result<Option<T>, FatalError>)
        ensures
            peek_agrees(r, bus_peek_spec(self@, T::spec_width(), addr)),
    {
        let (_seg, dev, local_addr) = match map_device(addr) {
            Ok(m) => m,
            Err(e) => return Err(e),
        };
        if !T::is_aligned(addr) {
            return Err(FatalError::UnalignedAccess(addr));
        }
        match dev {
            Device::RAM => self.ram.peek::<T>(local_addr),
            Device::BIOS => self.bios.peek::<T>(local_addr),
            Device::MemCtrl => self.memctrl.peek::<T>(local_addr),
            Device::SPU => Ok(Some(T::from_u32(0))),
            Device::GPU => self.gpu.peek::<T>(local_addr),
            _ => Ok(None),
        }
    }

    fn write<T: SizedData>(&mut self, addr: u32, data: T) -> (r: Result<(), FatalError>)
        ensures
            match bus_write_spec(old(self)@, T::spec_width(), addr, data.spec_value()) {
                Ok(ram) => r is Ok && final(self)@ == BoardModel { ram, ..old(self)@ },
                Err(e) => r == Err::<(), FatalError>(e) && final(self)@ == old(self)@,
            },
    {
        let (_seg, dev, local_addr) = match map_device(addr) {
            Ok(m) => m,
            Err(e) => return Err(e),
        };
        if !T::is_aligned(addr) {
            return Err(FatalError::UnalignedAccess(addr));
        }
        match dev {
            Device::RAM => self.ram.write(local_addr, data),
            Device::MemCtrl => self.memctrl.write(local_addr, data),
            Device::BIOS => Err(FatalError::ReadOnlyWrite(addr)),
            // cache control and the interrupt mask are accepted only while
            // they stay disabled
            Device::IOCacheControl | Device::IntCtrl => {
                let v = data.to_u32();
                if v != 0 {
                    Err(FatalError::UnsupportedPortWrite(addr, v))
                } else {
                    Ok(())
                }
            },
            Device::GPU => self.gpu.write(local_addr, data),
            // SPU, expansion 2, RAM size register, timers and DMA registers
            // are not emulated and ignore writes
            Device::SPU | Device::Expansion2 | Device::RamCtrl | Device::Timers | Device::DMA => Ok(
                (),
            ),
            _ => Err(FatalError::UnhandledAccess(addr)),
        }
    }
}

impl cpu::WithCpu for Motherboard {
    fn cpu(&self) -> (r: &CpuR3000)
        ensures
            *r == self.cpu,
    {
        &self.cpu
    }

    fn cpu_mut(&mut self) -> (r: &mut CpuR3000)
        ensures
            *r == old(self).cpu,
            final(self).cpu == *final(r),
            final(self).ram@ == old(self).ram@,
            final(self).bios@ == old(self).bios@,
    {
        &mut self.cpu
    }
}

impl gpu::WithGpu for Motherboard {
    fn gpu(&self) -> (r: &Gpu)
        ensures
            *r == self.gpu,
    {
        &self.gpu
    }

    fn gpu_mut(&mut self) -> (r: &mut Gpu)
        ensures
            *r == old(self).gpu,
            final(self)@ == old(self)@,
    {
        &mut self.gpu
    }
}

} // verus!
