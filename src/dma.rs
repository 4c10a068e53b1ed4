//! The DMA controller's registers. Transfers are not performed: the registers
//! hold what is written to them.
use vstd::prelude::*;
use crate::bus::{BusDevice, SizedData, read_agrees, peek_agrees};
use crate::cpustructs::FatalError;
use crate::dma_channel::{DmaChannel, DMA_CHANNEL_UNUSED};

verus! {

/// Reset value of the control register.
pub const DMA_CONTROL_RESET: u32 = 0x0765_4321;

/// The registers of the DMA controller as values.
pub struct DmaModel {
    pub control: u32,
    pub interrupt: u32,
    pub unknown_1: u32,
    pub unknown_2: u32,
    /// The channel-control register of each of the seven channels
    pub channels: Seq<u32>,
}

/// The register at a local address: bits 6..4 select a channel (0 to 6) or
/// the common registers (7), bits 3..0 the register. Of a channel's registers
/// only channel control (offset 8) is emulated.
pub open spec fn dma_register(d: DmaModel, w: nat, addr: u32) -> Result<u32, FatalError> {
    let major = (addr & 0x70u32) >> 4u32;
    let minor = addr & 0x0Fu32;
    if w != 4 {
        Err(FatalError::UnhandledAccess(addr))
    } else if major < 7 {
        if minor == 8 {
            Ok(d.channels[major as int])
        } else {
            Err(FatalError::UnhandledAccess(addr))
        }
    } else if minor == 0 {
        Ok(d.control)
    } else if minor == 4 {
        Ok(d.interrupt)
    } else if minor == 8 {
        Ok(d.unknown_1)
    } else if minor == 0xC {
        Ok(d.unknown_2)
    } else {
        Err(FatalError::UnhandledAccess(addr))
    }
}

/// The registers after `v` is written at a local address; a channel-control
/// register drops its unused bits.
pub open spec fn dma_written(d: DmaModel, w: nat, addr: u32, v: u32) -> Result<DmaModel, FatalError> {
    let major = (addr & 0x70u32) >> 4u32;
    let minor = addr & 0x0Fu32;
    if w != 4 {
        Err(FatalError::UnhandledAccess(addr))
    } else if major < 7 {
        if minor == 8 {
            Ok(DmaModel { channels: d.channels.update(major as int, v & !DMA_CHANNEL_UNUSED), ..d })
        } else {
            Err(FatalError::UnhandledAccess(addr))
        }
    } else if minor == 0 {
        Ok(DmaModel { control: v, ..d })
    } else if minor == 4 {
        Ok(DmaModel { interrupt: v, ..d })
    } else if minor == 8 {
        Ok(DmaModel { unknown_1: v, ..d })
    } else if minor == 0xC {
        Ok(DmaModel { unknown_2: v, ..d })
    } else {
        Err(FatalError::UnhandledAccess(addr))
    }
}

pub struct DmaController {
    /// Control register
    control: u32,
    /// Interrupt register
    interrupt: u32,
    /// An undocumented register at 0xF8
    unknown_1: u32,
    /// An undocumented register at 0xFC
    unknown_2: u32,
    /// Channel-control registers
    channels: [DmaChannel; 7],
}

impl View for DmaController {
    type V = DmaModel;

    closed spec fn view(&self) -> DmaModel {
        DmaModel {
            control: self.control,
            interrupt: self.interrupt,
            unknown_1: self.unknown_1,
            unknown_2: self.unknown_2,
            channels: Seq::new(7, |i: int| self.channels@[i].value()),
        }
    }
}

proof fn lemma_major_bound(addr: u32)
    ensures
        (addr & 0x70u32) >> 4u32 < 8,
{
    assert((addr & 0x70u32) >> 4u32 < 8) by (bit_vector);
}

impl DmaController {
    /// The controller at reset: the control register at its reset value,
    /// everything else zero.
    pub fn new() -> (r: DmaController)
        ensures
            r@.control == DMA_CONTROL_RESET,
            r@.interrupt == 0,
            r@.unknown_1 == 0,
            r@.unknown_2 == 0,
            r@.channels == Seq::new(7, |_i: int| 0u32),
    {
        let zero = DmaChannel::from_u32(0);
        assert(0u32 & !DMA_CHANNEL_UNUSED == 0) by (bit_vector);
        let r = DmaController {
            control: DMA_CONTROL_RESET,
            interrupt: 0,
            unknown_1: 0,
            unknown_2: 0,
            channels: [zero; 7],
        };
        assert(r@.channels =~= Seq::new(7, |_i: int| 0u32));
        r
    }

    fn register(&self, width: usize, addr: u32) -> (r: Result<u32, FatalError>)
        requires
            width == 1 || width == 2 || width == 4,
        ensures
            r == dma_register(self@, width as nat, addr),
    {
        if width != 4 {
            return Err(FatalError::UnhandledAccess(addr));
        }
        let major = (addr & 0x70u32) >> 4u32;
        let minor = addr & 0x0Fu32;
        proof {
            lemma_major_bound(addr);
        }
        if major < 7 {
            if minor == 8 {
                Ok(self.channels[major as usize].bits())
            } else {
                // base address and block control are not emulated
                Err(FatalError::UnhandledAccess(addr))
            }
        } else if minor == 0 {
            Ok(self.control)
        } else if minor == 4 {
            Ok(self.interrupt)
        } else if minor == 8 {
            Ok(self.unknown_1)
        } else if minor == 0xC {
            Ok(self.unknown_2)
        } else {
            Err(FatalError::UnhandledAccess(addr))
        }
    }
}

impl BusDevice for DmaController {
    fn read<T: SizedData>(&mut self, addr: u32) -> (r: Result<T, FatalError>)
        ensures
            read_agrees(r, dma_register(old(self)@, T::spec_width(), addr)),
            final(self)@ == old(self)@,
    {
        match self.register(T::width(), addr) {
            Ok(v) => Ok(T::from_u32(v)),
            Err(e) => Err(e),
        }
    }

    fn peek<T: SizedData>(&self, addr: u32) -> (r: Result<Option<T>, FatalError>)
        ensures
            peek_agrees(
                r,
                match dma_register(self@, T::spec_width(), addr) {
                    Ok(v) => Ok(Some(v)),
                    Err(e) => Err(e),
                },
            ),
    {
        match self.register(T::width(), addr) {
            Ok(v) => Ok(Some(T::from_u32(v))),
            Err(e) => Err(e),
        }
    }

    fn write<T: SizedData>(&mut self, addr: u32, data: T) -> (r: Result<(), FatalError>)
        ensures
            match dma_written(old(self)@, T::spec_width(), addr, data.spec_value()) {
                Ok(d) => r is Ok && final(self)@ == d,
                Err(e) => r == Err::<(), FatalError>(e) && final(self)@ == old(self)@,
            },
    {
        if T::width() != 4 {
            return Err(FatalError::UnhandledAccess(addr));
        }
        let v = data.to_u32();
        let major = (addr & 0x70u32) >> 4u32;
        let minor = addr & 0x0Fu32;
        proof {
            lemma_major_bound(addr);
        }
        if major < 7 {
            if minor == 8 {
                self.channels[major as usize] = DmaChannel::from_u32(v);
                assert(self@.channels =~= old(self)@.channels.update(
                    major as int,
                    v & !DMA_CHANNEL_UNUSED,
                ));
                Ok(())
            } else {
                Err(FatalError::UnhandledAccess(addr))
            }
        } else if minor == 0 {
            self.control = v;
            Ok(())
        } else if minor == 4 {
            self.interrupt = v;
            Ok(())
        } else if minor == 8 {
            self.unknown_1 = v;
            Ok(())
        } else if minor == 0xC {
            self.unknown_2 = v;
            Ok(())
        } else {
            Err(FatalError::UnhandledAccess(addr))
        }
    }
}

} // verus!
