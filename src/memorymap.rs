//! The virtual address map: segment, device and device-local offset of an address.
use vstd::prelude::*;
use crate::cpustructs::FatalError;

verus! {

/// The segments of the 32-bit virtual address space.
#[derive(Debug, Eq, PartialEq, Copy, Clone, Structural)]
pub enum Segment {
    KUSEG,
    KSEG0,
    KSEG1,
    KSEG2,
}

/// The devices on the main bus.
#[derive(Debug, Eq, PartialEq, Copy, Clone, Structural)]
pub enum Device {
    /// The system RAM
    RAM,
    /// The first expansion area
    Expansion1,
    /// Scratchpad (fast data cache)
    Scratch,
    /// The memory control registers
    MemCtrl,
    /// Peripheral IO, such as the memory card and the serial port
    IOPeripheral,
    /// The RAM size register
    RamCtrl,
    /// The interrupt controller
    IntCtrl,
    /// DMA
    DMA,
    /// The timers
    Timers,
    /// The GPU ports
    GPU,
    /// The sound processing unit
    SPU,
    /// The second expansion area
    Expansion2,
    /// The third expansion area
    Expansion3,
    /// The BIOS ROM
    BIOS,
    /// The IO and cache control ports
    IOCacheControl,
    /// No device exists at this address
    NoDevice,
    /// The address lies outside of virtual memory (KUSEG only)
    VMemException,
}

/// A half-open range of addresses `[start, start + length)`.
#[derive(Debug, Eq, PartialEq, Copy, Clone)]
struct Range {
    start: u32,
    end: u32,
    length: u32,
}

impl Range {
    spec fn wf(self) -> bool {
        self.start + self.length <= u32::MAX && self.end == self.start + self.length
    }

    fn new(start: u32, length: u32) -> (r: Range)
        requires
            start + length <= u32::MAX,
        ensures
            r.start == start,
            r.length == length,
            r.wf(),
    {
        Range { start, length, end: start + length }
    }

    /// Whether the address lies within this range.
    fn contains(&self, addr: u32) -> (r: bool)
        ensures
            r == (self.start <= addr < self.end),
    {
        addr >= self.start && addr < self.end
    }

    /// The address relative to the start of this range.
    fn as_local_addr(&self, addr: u32) -> (r: u32)
        requires
            self.start <= addr,
        ensures
            r == addr - self.start,
    {
        addr - self.start
    }
}

pub const KSEG0_START: u32 = 0x8000_0000;
pub const KSEG1_START: u32 = 0xA000_0000;
pub const KSEG2_START: u32 = 0xC000_0000;
/// Offset of the cache-control port range within KSEG2.
pub const CACHE_CTRL_START: u32 = 0x3FFE_0000;
pub const CACHE_CTRL_LEN: u32 = 512;
pub const RAM_SIZE: u32 = 2048 * 1024;
pub const BIOS_START: u32 = 0x0FC0_0000;
pub const BIOS_SIZE: u32 = 512 * 1024;
/// Number of entries of the device table.
pub const DEVICE_COUNT: usize = 14;

/// The device table, in search order: (device, start, length) of each entry,
/// as offsets within the folded 256 MiB physical window.
pub open spec fn device_table(i: int) -> (Device, u32, u32) {
    if i == 0 { (Device::RAM, 0x0000_0000u32, RAM_SIZE) }
    else if i == 1 { (Device::Expansion1, 0x0F00_0000u32, 0x0080_0000u32) }
    else if i == 2 { (Device::Scratch, 0x0F80_0000u32, 1024u32) }
    else if i == 3 { (Device::MemCtrl, 0x0F80_1000u32, 0x24u32) }
    else if i == 4 { (Device::IOPeripheral, 0x0F80_1040u32, 0x20u32) }
    else if i == 5 { (Device::RamCtrl, 0x0F80_1060u32, 4u32) }
    else if i == 6 { (Device::IntCtrl, 0x0F80_1070u32, 8u32) }
    else if i == 7 { (Device::DMA, 0x0F80_1080u32, 128u32) }
    else if i == 8 { (Device::Timers, 0x0F80_1100u32, 0x30u32) }
    else if i == 9 { (Device::GPU, 0x0F80_1810u32, 8u32) }
    else if i == 10 { (Device::SPU, 0x0F80_1C00u32, 640u32) }
    else if i == 11 { (Device::Expansion2, 0x0F80_2000u32, 0x2000u32) }
    else if i == 12 { (Device::Expansion3, 0x0FA0_0000u32, 0x0020_0000u32) }
    else { (Device::BIOS, BIOS_START, BIOS_SIZE) }
}

fn device_entry(i: usize) -> (r: (Device, Range))
    requires
        i < DEVICE_COUNT,
    ensures
        (r.0, r.1.start, r.1.length) == device_table(i as int),
        r.1.wf(),
{
    match i {
        0 => (Device::RAM, Range::new(0x0000_0000, RAM_SIZE)),
        1 => (Device::Expansion1, Range::new(0x0F00_0000, 8192 * 1024)),
        2 => (Device::Scratch, Range::new(0x0F80_0000, 1024)),
        3 => (Device::MemCtrl, Range::new(0x0F80_1000, 0x24)),
        4 => (Device::IOPeripheral, Range::new(0x0F80_1040, 0x20)),
        5 => (Device::RamCtrl, Range::new(0x0F80_1060, 4)),
        6 => (Device::IntCtrl, Range::new(0x0F80_1070, 8)),
        7 => (Device::DMA, Range::new(0x0F80_1080, 128)),
        8 => (Device::Timers, Range::new(0x0F80_1100, 0x30)),
        9 => (Device::GPU, Range::new(0x0F80_1810, 8)),
        10 => (Device::SPU, Range::new(0x0F80_1C00, 640)),
        11 => (Device::Expansion2, Range::new(0x0F80_2000, 8 * 1024)),
        12 => (Device::Expansion3, Range::new(0x0FA0_0000, 2048 * 1024)),
        _ => (Device::BIOS, Range::new(BIOS_START, BIOS_SIZE)),
    }
}

/// The first table entry from `i` on whose range holds `a`, with the offset of
/// `a` within it.
pub open spec fn lookup_from(a: u32, i: nat) -> Option<(Device, u32)>
    decreases DEVICE_COUNT - i,
{
    if i >= DEVICE_COUNT {
        None
    } else {
        let (d, start, len) = device_table(i as int);
        if start <= a < start + len {
            Some((d, (a - start) as u32))
        } else {
            lookup_from(a, i + 1)
        }
    }
}

pub open spec fn segment_of(addr: u32) -> Segment {
    if addr < KSEG0_START {
        Segment::KUSEG
    } else if addr < KSEG1_START {
        Segment::KSEG0
    } else if addr < KSEG2_START {
        Segment::KSEG1
    } else {
        Segment::KSEG2
    }
}

/// The address folded into the 256 MiB physical window shared by KUSEG, KSEG0
/// and KSEG1.
pub open spec fn fold(addr: u32) -> u32 {
    addr & 0x0FFF_FFFFu32
}

/// What the address map gives for an address: its segment, the device and the
/// offset within the device; or an error for an address that maps to nothing.
pub open spec fn map_spec(addr: u32) -> Result<(Segment, Device, u32), FatalError> {
    let seg = segment_of(addr);
    if seg == Segment::KSEG2 {
        let off = (addr - KSEG2_START) as u32;
        if CACHE_CTRL_START <= off < CACHE_CTRL_START + CACHE_CTRL_LEN {
            Ok((seg, Device::IOCacheControl, (off - CACHE_CTRL_START) as u32))
        } else {
            Err(FatalError::UnmappedAddress(addr))
        }
    } else if fold(addr) > 0x2000_0000 && seg == Segment::KUSEG {
        Ok((seg, Device::VMemException, fold(addr)))
    } else {
        match lookup_from(fold(addr), 0) {
            None => Err(FatalError::UnmappedAddress(addr)),
            Some((d, off)) => if seg == Segment::KSEG1 && d == Device::Scratch {
                Err(FatalError::UnmappedAddress(addr))
            } else {
                Ok((seg, d, off))
            },
        }
    }
}

/// Given an address, return the memory segment, the device, and the
/// device-local address.
pub fn map_device(addr: u32) -> (r: Result<(Segment, Device, u32), FatalError>)
    ensures
        r == map_spec(addr),
{
    let segment = if addr < KSEG0_START {
        Segment::KUSEG
    } else if addr < KSEG1_START {
        Segment::KSEG0
    } else if addr < KSEG2_START {
        Segment::KSEG1
    } else {
        Segment::KSEG2
    };
    if let Segment::KSEG2 = segment {
        let off = addr - KSEG2_START;
        let cache = Range::new(CACHE_CTRL_START, CACHE_CTRL_LEN);
        if !cache.contains(off) {
            return Err(FatalError::UnmappedAddress(addr));
        }
        return Ok((segment, Device::IOCacheControl, cache.as_local_addr(off)));
    }
    // KUSEG, KSEG0 and KSEG1 are mirrors of each other
    let seg_local_addr = addr & 0x0FFF_FFFFu32;
    if seg_local_addr > 0x2000_0000 && matches!(segment, Segment::KUSEG) {
        return Ok((segment, Device::VMemException, seg_local_addr));
    }
    let mut i: usize = 0;
    while i < DEVICE_COUNT
        invariant
            i <= DEVICE_COUNT,
            seg_local_addr == fold(addr),
            segment == segment_of(addr),
            segment != Segment::KSEG2,
            !(seg_local_addr > 0x2000_0000 && segment == Segment::KUSEG),
            lookup_from(seg_local_addr, 0) == lookup_from(seg_local_addr, i as nat),
        decreases DEVICE_COUNT - i,
    {
        let (device, range) = device_entry(i);
        assert(lookup_from(seg_local_addr, i as nat) == if range.start <= seg_local_addr < range.start
            + range.length {
            Some((device, (seg_local_addr - range.start) as u32))
        } else {
            lookup_from(seg_local_addr, (i + 1) as nat)
        });
        if range.contains(seg_local_addr) {
            if matches!(segment, Segment::KSEG1) && matches!(device, Device::Scratch) {
                return Err(FatalError::UnmappedAddress(addr));
            }
            return Ok((segment, device, range.as_local_addr(seg_local_addr)));
        }
        i = i + 1;
    }
    Err(FatalError::UnmappedAddress(addr))
}


proof fn lemma_mirror_bits(addr: u32)
    requires
        addr < 0x2000_0000,
    ensures
        0x8000_0000 <= addr ^ 0x8000_0000u32 < 0xA000_0000,
        0xA000_0000 <= addr ^ 0xA000_0000u32 < 0xC000_0000,
        fold(addr ^ 0x8000_0000u32) == fold(addr),
        fold(addr ^ 0xA000_0000u32) == fold(addr),
        fold(addr) <= 0x0FFF_FFFF,
{
    assert(addr < 0x2000_0000 ==> 0x8000_0000 <= addr ^ 0x8000_0000u32 < 0xA000_0000 && 0xA000_0000
        <= addr ^ 0xA000_0000u32 < 0xC000_0000 && (addr ^ 0x8000_0000u32) & 0x0FFF_FFFFu32 == addr
        & 0x0FFF_FFFFu32 && (addr ^ 0xA000_0000u32) & 0x0FFF_FFFFu32 == addr & 0x0FFF_FFFFu32 && addr
        & 0x0FFF_FFFFu32 <= 0x0FFF_FFFF) by (bit_vector);
}

/// KUSEG, KSEG0 and KSEG1 mirror one another: an address below 512 MiB and
/// its images in KSEG0 and KSEG1 map to the same device and offset, except
/// that the scratchpad cannot be reached from KSEG1.
pub proof fn lemma_segments_mirror(addr: u32)
    requires
        addr < 0x2000_0000,
    ensures
        match map_spec(addr) {
            Ok((seg, d, off)) => seg == Segment::KUSEG && map_spec(addr ^ 0x8000_0000u32) == Ok::<
                (Segment, Device, u32),
                FatalError,
            >((Segment::KSEG0, d, off)) && (d != Device::Scratch ==> map_spec(
                addr ^ 0xA000_0000u32,
            ) == Ok::<(Segment, Device, u32), FatalError>((Segment::KSEG1, d, off))) && (d
                == Device::Scratch ==> map_spec(addr ^ 0xA000_0000u32) is Err),
            Err(_) => map_spec(addr ^ 0x8000_0000u32) is Err && map_spec(addr ^ 0xA000_0000u32) is Err,
        },
{
    lemma_mirror_bits(addr);
}

} // verus!
