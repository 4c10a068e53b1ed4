use psx::bus::{BusDevice, SizedData};
use psx::cop0::Cop0;
use psx::cpustructs::FatalError;
use psx::dma::DmaController;
use psx::dma_channel::{DmaChannel, DmaChannelDirection, DmaChannelIteration, DmaChannelSync, DmaPort};
use psx::gpu::Gpu;
use psx::memctrl::MemoryController;
use psx::motherboard::Motherboard;
use psx::ram::Ram;
use psx::rom::Rom;

#[test]
fn sized_data_widths_and_alignment() {
    assert_eq!(<u8 as SizedData>::width(), 1);
    assert_eq!(<u16 as SizedData>::width(), 2);
    assert_eq!(<u32 as SizedData>::width(), 4);
    assert!(<u8 as SizedData>::is_aligned(3));
    assert!(!<u16 as SizedData>::is_aligned(3));
    assert!(<u16 as SizedData>::is_aligned(2));
    assert!(!<u32 as SizedData>::is_aligned(2));
    assert!(<u32 as SizedData>::is_aligned(8));
}

#[test]
fn sized_data_little_endian() {
    assert_eq!(<u32 as SizedData>::from_le_byteslice(&[0x78, 0x56, 0x34, 0x12]), 0x1234_5678);
    assert_eq!(<u16 as SizedData>::from_le_byteslice(&[0x34, 0x12]), 0x1234);
    let mut buf = [0xAAu8; 5];
    SizedData::to_le_byteslice(&0x1234_5678u32, &mut buf[..]);
    assert_eq!(buf, [0x78, 0x56, 0x34, 0x12, 0xAA]);
    let mut buf = [0u8; 2];
    SizedData::to_le_byteslice(&0xBEEFu16, &mut buf[..]);
    assert_eq!(buf, [0xEF, 0xBE]);
    assert_eq!(<u8 as SizedData>::from_u32(0x1234_5678), 0x78);
    assert_eq!(<u16 as SizedData>::from_u32(0x1234_5678), 0x5678);
    assert_eq!(<u32 as SizedData>::from_u32(0x1234_5678), 0x1234_5678);
}

#[test]
fn ram_reads_back_writes() {
    let mut ram = Ram::with_size(16);
    assert_eq!(ram.len(), 16);
    ram.write::<u32>(4, 0xCAFE_BABE).unwrap();
    assert_eq!(ram.read::<u32>(4), Ok(0xCAFE_BABE));
    assert_eq!(ram.read::<u16>(6), Ok(0xCAFE));
    assert_eq!(ram.read::<u8>(4), Ok(0xBE));
    assert_eq!(ram.peek::<u32>(0), Ok(Some(0)));
    assert_eq!(ram.read::<u32>(14), Err(FatalError::UnhandledAccess(14)));
}

#[test]
fn rom_ignores_writes() {
    let mut rom = Rom::from_buf(vec![1, 2, 3, 4]);
    rom.write::<u8>(0, 9).unwrap();
    assert_eq!(rom.read::<u32>(0), Ok(0x0403_0201));
    assert_eq!(rom.len(), 4);
}

#[test]
fn memory_controller_ports() {
    let mut mc = MemoryController::new();
    assert_eq!(mc.read::<u32>(0), Ok(0x1F00_0000));
    assert_eq!(mc.read::<u32>(4), Ok(0x1F80_2000));
    assert_eq!(mc.read::<u16>(0), Err(FatalError::UnhandledAccess(0)));
    assert_eq!(mc.peek::<u32>(0x8), Ok(None));
    assert_eq!(mc.write::<u32>(0, 0x1F00_0000), Ok(()));
    assert_eq!(mc.write::<u32>(0, 0x1F00_0004), Err(FatalError::UnsupportedPortWrite(0, 0x1F00_0004)));
    assert_eq!(mc.write::<u32>(0x8, 0x1234), Ok(()));
}

#[test]
fn gpu_reports_ready() {
    let mut gpu = Gpu::new();
    assert_eq!(gpu.read::<u32>(4), Ok(0x1000_0000));
    assert_eq!(gpu.peek::<u32>(4), Ok(Some(0)));
    assert_eq!(gpu.write::<u32>(0, 5), Ok(()));
}

#[test]
fn cop0_register_moves() {
    let mut c = Cop0::new();
    assert_eq!(c.mtc(12, 0x0041_0000), Ok(()));
    assert!(c.is_cache_isolated());
    assert!(c.is_bev());
    assert_eq!(c.mfc(12), Ok(0x0041_0000));
    assert_eq!(c.mtc(14, 0x1234), Ok(()));
    assert_eq!(c.epc(), 0x1234);
    assert_eq!(c.mtc(7, 0), Ok(()));
    assert_eq!(c.mtc(7, 1), Err(FatalError::BreakpointEnabled(7, 1)));
    assert_eq!(c.mtc(13, 0), Ok(()));
    assert_eq!(c.mtc(13, 4), Err(FatalError::HardwareExceptionTriggered(4)));
    assert_eq!(c.mtc(0, 0), Err(FatalError::UnhandledCop0(0)));
    assert_eq!(c.mfc(3), Err(FatalError::UnhandledCop0(3)));
}

#[test]
fn dma_channel_fields() {
    let ch = DmaChannel::from_u32(0xFFFF_FFFF);
    assert_eq!(ch.bits(), 0xFFFF_FFFF & !0x8E88_F8FC);
    assert_eq!(ch.get_direction(), DmaChannelDirection::DeviceToRam);
    assert_eq!(ch.get_iter_dir(), DmaChannelIteration::Backward);
    assert!(ch.is_chop_enabled());
    assert_eq!(ch.get_sync_type(), None);
    assert_eq!(ch.get_dma_chop_window(), 7);
    assert_eq!(ch.get_cpu_chop_window(), 7);
    assert!(ch.is_enabled());
    assert!(ch.is_manually_triggered());
    assert_eq!(ch.get_unknown_bits(), 3);
    let ch = DmaChannel::from_u32(0x0000_0401);
    assert_eq!(ch.get_sync_type(), Some(DmaChannelSync::LinkedList));
    assert!(!ch.is_enabled());
    assert_eq!(DmaPort::from_index(2), Some(DmaPort::Gpu));
    assert_eq!(DmaPort::from_index(7), None);
}

#[test]
fn dma_controller_registers() {
    let mut dma = DmaController::new();
    assert_eq!(dma.read::<u32>(0x70), Ok(0x0765_4321));
    assert_eq!(dma.write::<u32>(0x28, 0xFFFF_FFFF), Ok(()));
    assert_eq!(dma.read::<u32>(0x28), Ok(0xFFFF_FFFF & !0x8E88_F8FC));
    assert_eq!(dma.peek::<u32>(0x74), Ok(Some(0)));
    assert_eq!(dma.read::<u32>(0x20), Err(FatalError::UnhandledAccess(0x20)));
    assert_eq!(dma.write::<u16>(0x70, 1), Err(FatalError::UnhandledAccess(0x70)));
}

#[test]
fn motherboard_routes_and_rejects() {
    let mut mb = Motherboard::new(vec![0x11u8; 512 * 1024]);
    assert_eq!(mb.read::<u32>(0xBFC0_0000), Ok(0x1111_1111));
    assert_eq!(mb.read::<u32>(0x8000_0001), Err(FatalError::UnalignedAccess(0x8000_0001)));
    assert_eq!(mb.read::<u32>(0x1F80_2000), Err(FatalError::UnhandledAccess(0x1F80_2000)));
    assert_eq!(mb.read::<u32>(0x1F80_1810), Ok(0x1000_0000));
    assert_eq!(mb.write::<u32>(0xBFC0_0000, 1), Err(FatalError::ReadOnlyWrite(0xBFC0_0000)));
    assert_eq!(mb.write::<u32>(0xFFFE_0130, 0), Ok(()));
    assert_eq!(mb.write::<u32>(0xFFFE_0130, 0x804), Err(FatalError::UnsupportedPortWrite(0xFFFE_0130, 0x804)));
    assert_eq!(mb.write::<u32>(0x1F80_1074, 1), Err(FatalError::UnsupportedPortWrite(0x1F80_1074, 1)));
    assert_eq!(mb.write::<u16>(0xA000_0002, 0xBEEF), Ok(()));
    assert_eq!(mb.peek::<u16>(0x0000_0002), Ok(Some(0xBEEF)));
    assert_eq!(mb.peek::<u32>(0x1F80_1070), Ok(None));
    assert_eq!(mb.read::<u32>(0x1F80_1070), Ok(0));
}
