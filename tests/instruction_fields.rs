use psx::cpustructs::{CpuState, Exception, Instruction, MagicAddress, RegisterIndex};

#[test]
fn constructs_instruction() {
    let _data = Instruction(0);
    assert!(true); // expect no errors
}

#[test]
fn derefs_correctly() {
    let data = Instruction(0xCAFE_BABE);
    assert_eq!(data.word(), 0xCAFE_BABE);
    assert_eq!(data.0, 0xCAFE_BABE);
}

#[test]
fn splits_segments_correctly() {
    let data = Instruction(0xA5A5_A5A5);
    assert_eq!(data.op(), 0b101001, "op mismatch");
    assert_eq!(data.rs(), 0b01101, "rs mismatch");
    assert_eq!(data.rt(), 0b00101, "rt mismatch");
    assert_eq!(data.rd(), 0b10100, "rd mismatch");
    assert_eq!(data.shamt(), 0b10110, "shamt mismatch");
    assert_eq!(data.funct(), 0b100101, "funct mismatch");
    assert_eq!(data.target(), 0x01A5_A5A5, "target mismatch");
    assert_eq!(data.immediate(), 0x0000_A5A5, "immediate mismatch");
}

#[test]
fn fields_of_all_ones_word() {
    let data = Instruction(0xFFFF_FFFF);
    assert_eq!(data.op(), 63);
    assert_eq!(data.rs(), 31);
    assert_eq!(data.rt(), 31);
    assert_eq!(data.rd(), 31);
    assert_eq!(data.shamt(), 31);
    assert_eq!(data.funct(), 63);
    assert_eq!(data.immediate(), 0xFFFF);
    assert_eq!(data.target(), 0x03FF_FFFF);
}

#[test]
fn magic_addresses_and_codes() {
    assert_eq!(MagicAddress::ResetVector.address(), 0xBFC0_0000);
    assert_eq!(MagicAddress::TLBMiss.address(), 0x8000_0000);
    assert_eq!(MagicAddress::MiscException.address(), 0x8000_0080);
    assert_eq!(MagicAddress::TLBMissBev.address(), 0xBFC0_0100);
    assert_eq!(MagicAddress::MiscExceptionBev.address(), 0xBFC0_0180);
    assert_eq!(Exception::IntegerOverflow.code(), 12);
    assert_eq!(Exception::Syscall.code(), 8);
    assert_eq!(Exception::Interrupt.code(), 0);
    assert_eq!(RegisterIndex::RA.index(), 31);
    assert_eq!(RegisterIndex::SP.index(), 29);
}

#[test]
fn poweron_state_is_zeroed() {
    let s = CpuState::poweron();
    assert_eq!(s.pc, 0xBFC0_0000);
    assert_eq!(s.hi, 0);
    assert_eq!(s.lo, 0);
    assert!(s.registers.iter().all(|&r| r == 0));
    assert_eq!(s.next_load, (0, 0));
    assert!(!s.is_branch_delay);
}
