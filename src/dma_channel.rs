//! DMA ports and the channel-control register of a DMA channel.
use vstd::prelude::*;

verus! {

/// The seven DMA channels.
#[derive(Debug, Eq, PartialEq, Copy, Clone, Structural)]
pub enum DmaPort {
    MdecIn,
    MdecOut,
    Gpu,
    CdRom,
    Spu,
    Pio,
    Otc,
}

/// The port of a channel number, if there is one.
pub open spec fn dma_port_spec(op: usize) -> Option<DmaPort> {
    if op == 0 {
        Some(DmaPort::MdecIn)
    } else if op == 1 {
        Some(DmaPort::MdecOut)
    } else if op == 2 {
        Some(DmaPort::Gpu)
    } else if op == 3 {
        Some(DmaPort::CdRom)
    } else if op == 4 {
        Some(DmaPort::Spu)
    } else if op == 5 {
        Some(DmaPort::Pio)
    } else if op == 6 {
        Some(DmaPort::Otc)
    } else {
        None
    }
}

impl DmaPort {
    /// The port of a channel number, if there is one.
    pub fn from_index(op: usize) -> (r: Option<DmaPort>)
        ensures
            r == dma_port_spec(op),
    {
        match op {
            0 => Some(DmaPort::MdecIn),
            1 => Some(DmaPort::MdecOut),
            2 => Some(DmaPort::Gpu),
            3 => Some(DmaPort::CdRom),
            4 => Some(DmaPort::Spu),
            5 => Some(DmaPort::Pio),
            6 => Some(DmaPort::Otc),
            _ => None,
        }
    }
}

#[derive(Debug, Eq, PartialEq, Copy, Clone, Structural)]
pub enum DmaChannelDirection {
    /// Copy from main memory to the device
    RamToDevice,
    /// Copy from the device to main memory
    DeviceToRam,
}

#[derive(Debug, Eq, PartialEq, Copy, Clone, Structural)]
pub enum DmaChannelIteration {
    /// The address increments with each step
    Forward,
    /// The address decrements with each step
    Backward,
}

#[derive(Debug, Eq, PartialEq, Copy, Clone, Structural)]
pub enum DmaChannelSync {
    /// Copy as soon as the channel is enabled
    Manual,
    /// Wait for a request from the device
    Request,
    /// Follow a linked list (GPU only)
    LinkedList,
}

/// Bits of the channel-control register that hold nothing.
pub const DMA_CHANNEL_UNUSED: u32 = 0x8E88_F8FC;
pub const DMA_CHANNEL_TRANSFER: u32 = 0x0000_0001;
pub const DMA_CHANNEL_INCREMENT: u32 = 0x0000_0002;
pub const DMA_CHANNEL_CHOPPING: u32 = 0x0000_0100;
pub const DMA_CHANNEL_SYNC_TYPE: u32 = 0x0000_0600;
pub const DMA_CHANNEL_CHOP_DMA_WINDOW: u32 = 0x0007_0000;
pub const DMA_CHANNEL_CHOP_CPU_WINDOW: u32 = 0x0070_0000;
pub const DMA_CHANNEL_ENABLE: u32 = 0x0100_0000;
pub const DMA_CHANNEL_MANUAL_TRIGGER: u32 = 0x1000_0000;
pub const DMA_CHANNEL_UNKNOWN: u32 = 0x6000_0000;

/// A channel-control register; the unused bits always read as zero.
#[derive(Debug, Eq, PartialEq, Copy, Clone)]
pub struct DmaChannel(u32);

impl DmaChannel {
    /// The register as a raw value.
    pub closed spec fn value(self) -> u32 {
        self.0
    }

    /// A register written with `data`: the unused bits are cleared.
    pub fn from_u32(data: u32) -> (r: DmaChannel)
        ensures
            r.value() == data & !DMA_CHANNEL_UNUSED,
    {
        DmaChannel(data & !DMA_CHANNEL_UNUSED)
    }

    /// The raw register value.
    pub fn bits(&self) -> (r: u32)
        ensures
            r == self.value(),
    {
        self.0
    }

    pub fn get_direction(&self) -> (r: DmaChannelDirection)
        ensures
            r == if self.value() & DMA_CHANNEL_TRANSFER == 0 {
                DmaChannelDirection::RamToDevice
            } else {
                DmaChannelDirection::DeviceToRam
            },
    {
        if self.0 & DMA_CHANNEL_TRANSFER == 0 {
            DmaChannelDirection::RamToDevice
        } else {
            DmaChannelDirection::DeviceToRam
        }
    }

    pub fn get_iter_dir(&self) -> (r: DmaChannelIteration)
        ensures
            r == if self.value() & DMA_CHANNEL_INCREMENT == 0 {
                DmaChannelIteration::Forward
            } else {
                DmaChannelIteration::Backward
            },
    {
        if self.0 & DMA_CHANNEL_INCREMENT == 0 {
            DmaChannelIteration::Forward
        } else {
            DmaChannelIteration::Backward
        }
    }

    pub fn is_chop_enabled(&self) -> (r: bool)
        ensures
            r == (self.value() & DMA_CHANNEL_CHOPPING != 0),
    {
        self.0 & DMA_CHANNEL_CHOPPING != 0
    }

    /// The synchronisation mode; `None` for the reserved fourth mode.
    pub fn get_sync_type(&self) -> (r: Option<DmaChannelSync>)
        ensures
            r == if (self.value() & DMA_CHANNEL_SYNC_TYPE) >> 9u32 == 0 {
                Some(DmaChannelSync::Manual)
            } else if (self.value() & DMA_CHANNEL_SYNC_TYPE) >> 9u32 == 1 {
                Some(DmaChannelSync::Request)
            } else if (self.value() & DMA_CHANNEL_SYNC_TYPE) >> 9u32 == 2 {
                Some(DmaChannelSync::LinkedList)
            } else {
                None
            },
    {
        let mode = (self.0 & DMA_CHANNEL_SYNC_TYPE) >> 9u32;
        if mode == 0 {
            Some(DmaChannelSync::Manual)
        } else if mode == 1 {
            Some(DmaChannelSync::Request)
        } else if mode == 2 {
            Some(DmaChannelSync::LinkedList)
        } else {
            None
        }
    }

    pub fn get_dma_chop_window(&self) -> (r: u8)
        ensures
            r == ((self.value() & DMA_CHANNEL_CHOP_DMA_WINDOW) >> 16u32) as u8,
    {
        ((self.0 & DMA_CHANNEL_CHOP_DMA_WINDOW) >> 16u32) as u8
    }

    pub fn get_cpu_chop_window(&self) -> (r: u8)
        ensures
            r == ((self.value() & DMA_CHANNEL_CHOP_CPU_WINDOW) >> 20u32) as u8,
    {
        ((self.0 & DMA_CHANNEL_CHOP_CPU_WINDOW) >> 20u32) as u8
    }

    pub fn is_enabled(&self) -> (r: bool)
        ensures
            r == (self.value() & DMA_CHANNEL_ENABLE != 0),
    {
        self.0 & DMA_CHANNEL_ENABLE != 0
    }

    pub fn is_manually_triggered(&self) -> (r: bool)
        ensures
            r == (self.value() & DMA_CHANNEL_MANUAL_TRIGGER != 0),
    {
        self.0 & DMA_CHANNEL_MANUAL_TRIGGER != 0
    }

    pub fn get_unknown_bits(&self) -> (r: u8)
        ensures
            r == ((self.value() & DMA_CHANNEL_UNKNOWN) >> 29u32) as u8,
    {
        ((self.0 & DMA_CHANNEL_UNKNOWN) >> 29u32) as u8
    }
}

} // verus!
