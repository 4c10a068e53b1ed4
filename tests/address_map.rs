use psx::cpustructs::FatalError;
use psx::memorymap::{map_device, Device, Segment, KSEG0_START, KSEG1_START};

#[test]
fn maps_to_bios() {
    const BIOS_RESET_ADDR: u32 = 0xBFC0_0000;
    assert_eq!(map_device(BIOS_RESET_ADDR), Ok((Segment::KSEG1, Device::BIOS, 0)));
    assert_eq!(map_device(BIOS_RESET_ADDR + 1), Ok((Segment::KSEG1, Device::BIOS, 1)));
}

#[test]
fn maps_segments() {
    const BIOS_RESET_ADDR: u32 = 0x1FC0_0000;
    assert_eq!(map_device(BIOS_RESET_ADDR), Ok((Segment::KUSEG, Device::BIOS, 0)));
    assert_eq!(
        map_device(BIOS_RESET_ADDR + KSEG0_START),
        Ok((Segment::KSEG0, Device::BIOS, 0))
    );
    assert_eq!(
        map_device(BIOS_RESET_ADDR + KSEG1_START),
        Ok((Segment::KSEG1, Device::BIOS, 0))
    );
    assert_eq!(map_device(0xFFFE_0000), Ok((Segment::KSEG2, Device::IOCacheControl, 0)));
}

#[test]
fn maps_expansion_regions() {
    assert_eq!(map_device(0x1F00_0000), Ok((Segment::KUSEG, Device::Expansion1, 0)));
    assert_eq!(map_device(0x1F80_2000), Ok((Segment::KUSEG, Device::Expansion2, 0)));
    assert_eq!(map_device(0x1FA0_0000), Ok((Segment::KUSEG, Device::Expansion3, 0)));
}

#[test]
fn maps_scratchpad_in_cached_segments() {
    assert_eq!(map_device(0x9F80_0000), Ok((Segment::KSEG0, Device::Scratch, 0)));
}

#[test]
fn rejects_scratchpad_in_kseg1() {
    assert_eq!(map_device(0xBF80_0000), Err(FatalError::UnmappedAddress(0xBF80_0000)));
}

#[test]
fn mirrors_map_to_the_same_device() {
    for addr in [0x0000_1000u32, 0x001F_FFFC, 0x1F80_1074, 0x1FC7_FFFC] {
        let (_, d, off) = map_device(addr).unwrap();
        let (s0, d0, off0) = map_device(addr ^ 0x8000_0000).unwrap();
        let (s1, d1, off1) = map_device(addr ^ 0xA000_0000).unwrap();
        assert_eq!((s0, d0, off0), (Segment::KSEG0, d, off));
        assert_eq!((s1, d1, off1), (Segment::KSEG1, d, off));
    }
}

#[test]
fn maps_ram_ports_and_edges() {
    assert_eq!(map_device(0x8000_0080), Ok((Segment::KSEG0, Device::RAM, 0x80)));
    assert_eq!(map_device(0x001F_FFFF), Ok((Segment::KUSEG, Device::RAM, 0x1F_FFFF)));
    assert_eq!(map_device(0x1F80_1070), Ok((Segment::KUSEG, Device::IntCtrl, 0)));
    assert_eq!(map_device(0x1F80_1814), Ok((Segment::KUSEG, Device::GPU, 4)));
    assert_eq!(map_device(0x1FC7_FFFF), Ok((Segment::KUSEG, Device::BIOS, 0x7_FFFF)));
    assert_eq!(map_device(0xFFFE_01FF), Ok((Segment::KSEG2, Device::IOCacheControl, 0x1FF)));
}

#[test]
fn unmapped_addresses_are_fatal() {
    assert_eq!(map_device(0x0020_0000), Err(FatalError::UnmappedAddress(0x0020_0000)));
    assert_eq!(map_device(0xC000_0000), Err(FatalError::UnmappedAddress(0xC000_0000)));
    assert_eq!(map_device(0xFFFE_0200), Err(FatalError::UnmappedAddress(0xFFFE_0200)));
    assert_eq!(map_device(0x1FC8_0000), Err(FatalError::UnmappedAddress(0x1FC8_0000)));
}
