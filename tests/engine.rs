use psx::bus::BusDevice;
use psx::cpu::{exec, CpuR3000};
use psx::cpustructs::{CpuState, FatalError};
use psx::motherboard::Motherboard;

const RESET: u32 = 0xBFC0_0000;

/// A machine whose BIOS starts with the given program.
fn machine(program: &[u32]) -> Motherboard {
    let mut bios = vec![0u8; 512 * 1024];
    for (i, word) in program.iter().enumerate() {
        bios[4 * i..4 * i + 4].copy_from_slice(&word.to_le_bytes());
    }
    Motherboard::new(bios)
}

fn run(mb: &mut Motherboard, steps: usize) {
    for _ in 0..steps {
        exec(mb).unwrap();
    }
}

#[test]
fn cpu_constructs() {
    let cpu = CpuR3000::new();
    assert_eq!(
        cpu.state.pc,
        CpuState::poweron().pc,
        "Program counter is not at the reset vector"
    );
}

#[test]
fn poweron_hi_lo_are_zero() {
    let cpu = CpuR3000::new();
    assert_eq!(cpu.state.hi, 0);
    assert_eq!(cpu.state.lo, 0);
    assert_eq!(cpu.cop0.sr(), 0);
}

#[test]
fn first_fetch_is_the_reset_vector() {
    let mut mb = machine(&[]);
    assert_eq!(mb.cpu.state.pc, RESET);
    run(&mut mb, 1);
    assert_eq!(mb.cpu.state.next_instruction.1, RESET);
    assert_eq!(mb.cpu.state.pc, RESET + 4);
}

#[test]
fn lui_then_ori_builds_a_word() {
    let mut mb = machine(&[0x3C01_1234, 0x3421_5678]);
    run(&mut mb, 3);
    assert_eq!(mb.cpu.state.registers[1], 0x1234_5678);
}

#[test]
fn addi_sign_extends_without_exception() {
    let mut mb = machine(&[0x2001_FFFF]);
    run(&mut mb, 2);
    assert_eq!(mb.cpu.state.registers[1], 0xFFFF_FFFF);
    assert_eq!(mb.cpu.cop0.cause(), 0);
    assert_eq!(mb.cpu.state.pc, RESET + 8);
}

#[test]
fn add_overflow_traps_and_keeps_destination() {
    // LUI r1, 0x7FFF; ADD r1, r1, r1 (0x7FFF_0000 doubled does not fit)
    let mut mb = machine(&[0x3C01_7FFF, 0x0021_0820]);
    run(&mut mb, 3);
    assert_eq!(mb.cpu.state.registers[1], 0x7FFF_0000);
    assert_eq!(mb.cpu.state.next_instruction.1, 0x8000_0080);
    assert_eq!(mb.cpu.state.pc, 0x8000_0084);
    assert_eq!(mb.cpu.cop0.epc(), RESET + 4);
    assert_eq!((mb.cpu.cop0.cause() >> 2) & 0x1F, 12);
}

#[test]
fn addi_small_sum_does_not_overflow() {
    // ADDI r1, r0, 0x7FFF; ADD r1, r1, r1
    let mut mb = machine(&[0x2001_7FFF, 0x0021_0820]);
    run(&mut mb, 3);
    assert_eq!(mb.cpu.state.registers[1], 0xFFFE);
    assert_eq!(mb.cpu.cop0.cause(), 0);
}

#[test]
fn syscall_enters_the_general_vector() {
    let mut mb = machine(&[0x0000_000C]);
    run(&mut mb, 2);
    assert_eq!(mb.cpu.cop0.epc(), RESET);
    assert_eq!(mb.cpu.cop0.cause() & 0x8000_0000, 0);
    assert_eq!((mb.cpu.cop0.cause() >> 2) & 0x1F, 8);
    assert_eq!(mb.cpu.state.next_instruction.1, 0x8000_0080);
}

#[test]
fn exception_in_delay_slot_points_epc_at_branch() {
    // J to 0xBFC00100 with a SYSCALL in its delay slot
    let mut mb = machine(&[0x0BF0_0040, 0x0000_000C]);
    run(&mut mb, 3);
    assert_eq!(mb.cpu.cop0.epc(), RESET);
    assert_eq!(mb.cpu.cop0.cause() & 0x8000_0000, 0x8000_0000);
}

#[test]
fn jal_links_past_the_delay_slot() {
    // JAL 0xBFC00100; ADDIU r0, r0, 0
    let mut mb = machine(&[0x0FF0_0040, 0x2400_0000]);
    run(&mut mb, 3);
    assert_eq!(mb.cpu.state.registers[31], RESET + 8);
    assert_eq!(mb.cpu.state.next_instruction.1, 0xBFC0_0100);
    assert_eq!(mb.cpu.state.registers[0], 0);
}

#[test]
fn branch_delay_slot_always_runs() {
    // ADDI r1, r0, 5; BNE r1, r0, +2; ADDI r1, r1, 1; ADDI r1, r1, 100; ADDI r2, r0, 7
    let mut mb = machine(&[0x2001_0005, 0x1420_0002, 0x2021_0001, 0x2021_0064, 0x2002_0007]);
    run(&mut mb, 5);
    assert_eq!(mb.cpu.state.registers[1], 6);
    assert_eq!(mb.cpu.state.registers[2], 7);
    assert_eq!(mb.cpu.state.pc % 4, 0);
}

#[test]
fn register_zero_ignores_writes() {
    // ADDI r0, r0, 5; LUI r0, 0xFFFF
    let mut mb = machine(&[0x2000_0005, 0x3C00_FFFF]);
    run(&mut mb, 3);
    assert_eq!(mb.cpu.state.registers[0], 0);
}

#[test]
fn load_goes_through_the_pending_load() {
    // LUI r4, 0x8000 (RAM base); SW r5, 0(r4) with r5 = 9; LW r2, 0(r4); ADD r3, r2, r0
    let mut mb = machine(&[
        0x3C04_8000,
        0x2005_0009,
        0xAC85_0000,
        0x8C82_0000,
        0x0040_1820,
    ]);
    run(&mut mb, 5);
    // the LW has run: r2 is not written yet, the value waits
    assert_eq!(mb.cpu.state.registers[2], 0);
    assert_eq!(mb.cpu.state.next_load, (2, 9));
    run(&mut mb, 1);
    assert_eq!(mb.cpu.state.registers[2], 9);
}

#[test]
fn div_by_zero_positive_numerator() {
    // ADDI r1, r0, 5; DIV r1, r0
    let mut mb = machine(&[0x2001_0005, 0x0020_001A]);
    run(&mut mb, 3);
    assert_eq!(mb.cpu.state.lo, 0xFFFF_FFFF);
    assert_eq!(mb.cpu.state.hi, 5);
    assert_eq!(mb.cpu.cop0.cause(), 0);
}

#[test]
fn div_by_zero_negative_numerator() {
    // ADDI r1, r0, -5; DIV r1, r0
    let mut mb = machine(&[0x2001_FFFB, 0x0020_001A]);
    run(&mut mb, 3);
    assert_eq!(mb.cpu.state.lo, 1);
    assert_eq!(mb.cpu.state.hi, 0xFFFF_FFFB);
}

#[test]
fn div_int_min_by_minus_one() {
    // LUI r1, 0x8000; ADDI r2, r0, -1; DIV r1, r2
    let mut mb = machine(&[0x3C01_8000, 0x2002_FFFF, 0x0022_001A]);
    run(&mut mb, 4);
    assert_eq!(mb.cpu.state.lo, 0x8000_0000);
    assert_eq!(mb.cpu.state.hi, 0);
    assert_eq!(mb.cpu.cop0.cause(), 0);
}

#[test]
fn div_truncates_toward_zero() {
    // ADDI r1, r0, -7; ADDI r2, r0, 2; DIV r1, r2
    let mut mb = machine(&[0x2001_FFF9, 0x2002_0002, 0x0022_001A]);
    run(&mut mb, 4);
    assert_eq!(mb.cpu.state.lo as i32, -3);
    assert_eq!(mb.cpu.state.hi as i32, -1);
}

#[test]
fn divu_by_zero_gives_all_ones() {
    // ADDI r1, r0, -5; DIVU r1, r0
    let mut mb = machine(&[0x2001_FFFB, 0x0020_001B]);
    run(&mut mb, 3);
    assert_eq!(mb.cpu.state.lo, 0xFFFF_FFFF);
    assert_eq!(mb.cpu.state.hi, 0xFFFF_FFFB);
}

#[test]
fn mult_forms_the_signed_product() {
    // ADDI r1, r0, -2; ADDI r2, r0, 3; MULT r1, r2, then the same with MULTU
    let mut mb = machine(&[0x2001_FFFE, 0x2002_0003, 0x0022_0018]);
    run(&mut mb, 4);
    assert_eq!(mb.cpu.state.hi, 0xFFFF_FFFF);
    assert_eq!(mb.cpu.state.lo, 0xFFFF_FFFA);
    let mut mb = machine(&[0x2001_FFFE, 0x2002_0003, 0x0022_0019]);
    run(&mut mb, 4);
    assert_eq!(mb.cpu.state.hi, 2);
    assert_eq!(mb.cpu.state.lo, 0xFFFF_FFFA);
}

#[test]
fn shifts_and_comparisons() {
    // ADDI r1, r0, -16; SRA r2, r1, 2; SRL r3, r1, 28; SLT r4, r1, r0; SLTU r5, r1, r0; SLTIU r6, r0, -1
    let mut mb = machine(&[
        0x2001_FFF0,
        0x0001_1083,
        0x0001_1F02,
        0x0020_202A,
        0x0020_282B,
        0x2C06_FFFF,
    ]);
    run(&mut mb, 7);
    assert_eq!(mb.cpu.state.registers[2], 0xFFFF_FFFC);
    assert_eq!(mb.cpu.state.registers[3], 0xF);
    assert_eq!(mb.cpu.state.registers[4], 1);
    assert_eq!(mb.cpu.state.registers[5], 0);
    assert_eq!(mb.cpu.state.registers[6], 1);
}

#[test]
fn store_and_partial_loads() {
    // LUI r4, 0x8000; LUI r5, 0x8001; ORI r5, r5, 0xFF80; SW r5, 0(r4); LB r6, 0(r4); LBU r7, 0(r4); LH r8, 2(r4); NOP
    let mut mb = machine(&[
        0x3C04_8000,
        0x3C05_8001,
        0x34A5_FF80,
        0xAC85_0000,
        0x8086_0000,
        0x9087_0000,
        0x8488_0002,
        0x0000_0000,
    ]);
    run(&mut mb, 9);
    assert_eq!(mb.cpu.state.registers[6], 0xFFFF_FF80);
    assert_eq!(mb.cpu.state.registers[7], 0x80);
    assert_eq!(mb.cpu.state.registers[8], 0xFFFF_8001);
    assert_eq!(mb.read::<u32>(0x8000_0000), Ok(0x8001_FF80));
}

#[test]
fn cache_isolation_drops_stores() {
    // LUI r1, 1 (SR with cache isolation); MTC0 r1, SR; LUI r4, 0x8000; ADDI r5, r0, 7; SW r5, 0(r4)
    let mut mb = machine(&[0x3C01_0001, 0x4081_6000, 0x3C04_8000, 0x2005_0007, 0xAC85_0000]);
    run(&mut mb, 6);
    assert_eq!(mb.cpu.cop0.sr(), 0x0001_0000);
    assert_eq!(mb.read::<u32>(0x8000_0000), Ok(0));
}

#[test]
fn rfe_pops_the_mode_stack() {
    // ORI r1, r0, 0x3C; MTC0 r1, SR; RFE
    let mut mb = machine(&[0x3401_003C, 0x4081_6000, 0x4200_0010]);
    run(&mut mb, 4);
    assert_eq!(mb.cpu.cop0.sr(), 0x0F);
}

#[test]
fn unusable_coprocessor_raises_exception() {
    // MTC3 r0, r0
    let mut mb = machine(&[0x4C80_0000]);
    run(&mut mb, 2);
    assert_eq!((mb.cpu.cop0.cause() >> 2) & 0x1F, 11);
}

#[test]
fn illegal_instruction_raises_reserved_instruction() {
    let mut mb = machine(&[0xFC00_0000]);
    run(&mut mb, 2);
    assert_eq!((mb.cpu.cop0.cause() >> 2) & 0x1F, 10);
    assert_eq!(mb.cpu.state.next_instruction.1, 0x8000_0080);
}

#[test]
fn fatal_conditions_stop_the_step() {
    // COP2 operation
    let mut mb = machine(&[0x4A00_0000]);
    run(&mut mb, 1);
    assert_eq!(exec(&mut mb), Err(FatalError::GeometryInstruction(0x4A00_0000)));
    // undefined SPECIAL function
    let mut mb = machine(&[0x0000_0001]);
    run(&mut mb, 1);
    assert_eq!(exec(&mut mb), Err(FatalError::InvalidEncoding(0x0000_0001)));
    // MTC0 arming a breakpoint register: ADDI r1, r0, 1; MTC0 r1, $3
    let mut mb = machine(&[0x2001_0001, 0x4081_1800]);
    run(&mut mb, 2);
    assert_eq!(exec(&mut mb), Err(FatalError::BreakpointEnabled(3, 1)));
    // store to the BIOS: SW r0, 0x10(r0) goes to KUSEG RAM, so use KSEG1 BIOS
    // LUI r4, 0xBFC0; SW r0, 0(r4)
    let mut mb = machine(&[0x3C04_BFC0, 0xAC80_0000]);
    run(&mut mb, 2);
    assert_eq!(exec(&mut mb), Err(FatalError::ReadOnlyWrite(0xBFC0_0000)));
}

#[test]
fn tick_burns_wait_cycles() {
    let mut mb = machine(&[]);
    mb.cpu.state.wait = 2;
    assert_eq!(mb.tick(), Ok(false));
    assert_eq!(mb.tick(), Ok(false));
    assert_eq!(mb.cpu.state.wait, 0);
    assert_eq!(mb.tick(), Ok(true));
    assert_eq!(mb.cpu.state.pc, RESET + 4);
}
