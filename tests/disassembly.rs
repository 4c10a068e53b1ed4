use psx::cpustructs::{CpuState, Instruction, Mnemonic};
use psx::decode::decode_instruction;
use psx::disasm::{disasm_instr, get_referenced_registers, pprint_instr, ReferencedRegisters};

fn text(word: u32) -> String {
    let (m, instr) = decode_instruction(word).unwrap();
    disasm_instr(m, instr)
}

#[test]
fn disassembles_each_format() {
    assert_eq!(text(0x0021_0820), "ADD $1, $1, $1");
    assert_eq!(text(0x2001_FFFF), "ADDI $1, $0, -1");
    assert_eq!(text(0x3C01_1234), "LUI $1, 0x1234");
    assert_eq!(text(0x3421_5678), "ORI $1, $1, 22136");
    assert_eq!(text(0x1420_0002), "BNE $1, $0, 0x0002");
    assert_eq!(text(0x0411_FFFF), "BGEZAL $0, -1");
    assert_eq!(text(0x0FF0_0040), "JAL $_FC00100");
    assert_eq!(text(0x0000_000C), "SYSCALL");
    assert_eq!(text(0x8C82_FFFC), "LW $2, -4($4)");
    assert_eq!(text(0x0022_001A), "DIV $1, $2");
    assert_eq!(text(0x0001_1F02), "SRL $3, $1, 28");
    assert_eq!(text(0x4081_6000), "MTC0 $1, $12");
    assert_eq!(text(0x4200_0010), "COP0 0x00000010");
    assert_eq!(text(0xC8A1_0010), "LWC2 $1, 0x0010($5)");
    assert_eq!(text(0x0060_F809), "JALR $31, $3");
    assert_eq!(text(0x0000_1010), "MFHI $2");
    assert_eq!(text(0xFC00_0000), "ILLEGAL");
}

#[test]
fn pretty_prints_with_register_values() {
    let mut state = CpuState::poweron();
    state.registers[1] = 0xDEAD_BEEF;
    state.registers[2] = 7;
    let instr = Instruction(0x0022_001A);
    let s = pprint_instr(Mnemonic::DIV, instr, &state);
    assert_eq!(s, format!("{:30}; $1=0xDEADBEEF, $2=0x00000007", "DIV $1, $2"));
    let s = pprint_instr(Mnemonic::SYSCALL, Instruction(0x0000_000C), &state);
    assert_eq!(s, format!("{:30}; ", "SYSCALL"));
}

#[test]
fn names_referenced_registers() {
    let instr = Instruction(0x0022_001A);
    assert_eq!(get_referenced_registers(Mnemonic::DIV, instr), ReferencedRegisters::Two(1, 2));
    assert_eq!(get_referenced_registers(Mnemonic::ADD, Instruction(0x0021_0820)), ReferencedRegisters::Two(1, 1));
    assert_eq!(get_referenced_registers(Mnemonic::J, Instruction(0)), ReferencedRegisters::Nothing);
    assert_eq!(get_referenced_registers(Mnemonic::MFHI, Instruction(0x0000_1010)), ReferencedRegisters::One(2));
}
