use psx::cpustructs::{FatalError, Mnemonic};
use psx::decode::decode_instruction;

#[test]
fn decodes_instr() {
    const ANDI_INSTR: u32 = 0x3000_0000;
    let (mnemonic, _instr) = decode_instruction(ANDI_INSTR).unwrap();
    assert_eq!(mnemonic, Mnemonic::ANDI);
}

#[test]
fn decodes_funct_instr() {
    const BREAK_INSTR: u32 = 0x0000_000D;
    let (mnemonic, _instr) = decode_instruction(BREAK_INSTR).unwrap();
    assert_eq!(mnemonic, Mnemonic::BREAK);
}

#[test]
fn decodes_cop_instr() {
    const COP0_INSTR: u32 = 0b0100001 << 25;
    let (mnemonic, _instr) = decode_instruction(COP0_INSTR).unwrap();
    assert_eq!(mnemonic, Mnemonic::COPz);
}

#[test]
fn decodes_rz_instr() {
    const BLTZ_INSTR: u32 = 0x0400_0000;
    let (mnemonic, _instr) = decode_instruction(BLTZ_INSTR).unwrap();
    assert_eq!(mnemonic, Mnemonic::BLTZ);
}

#[test]
fn decodes_mtc0_instr() {
    const MTC0_INSTR: u32 = 0x408C_6000;
    let (mnemonic, _instr) = decode_instruction(MTC0_INSTR).unwrap();
    assert_eq!(mnemonic, Mnemonic::MTCz);
}

#[test]
fn decodes_one_word_of_each_group() {
    let cases: [(u32, Mnemonic); 12] = [
        (0x0000_0000, Mnemonic::SLL),
        (0x0021_0820, Mnemonic::ADD),
        (0x0000_000C, Mnemonic::SYSCALL),
        (0x0411_0000, Mnemonic::BGEZAL),
        (0x4080_0000, Mnemonic::MTCz),
        (0x4000_0000, Mnemonic::MFCz),
        (0x4040_0000, Mnemonic::CFCz),
        (0xC000_0000, Mnemonic::LWCz),
        (0xE000_0000, Mnemonic::SWCz),
        (0x3C01_1234, Mnemonic::LUI),
        (0x0FF0_0040, Mnemonic::JAL),
        (0xB800_0000, Mnemonic::SWR),
    ];
    for (word, expected) in cases {
        let (m, instr) = decode_instruction(word).unwrap();
        assert_eq!(m, expected, "word {:08X}", word);
        assert_eq!(instr.0, word);
    }
}

#[test]
fn unused_opcodes_decode_to_illegal() {
    for op in [20u32, 31, 39, 44, 45, 47, 52, 55, 60, 63] {
        let (m, _) = decode_instruction(op << 26).unwrap();
        assert_eq!(m, Mnemonic::ILLEGAL, "opcode {}", op);
    }
}

#[test]
fn unknown_sub_fields_are_fatal() {
    assert_eq!(decode_instruction(0x0000_0001), Err(FatalError::InvalidEncoding(0x0000_0001)));
    assert_eq!(decode_instruction(0x0402_0000), Err(FatalError::InvalidEncoding(0x0402_0000)));
    assert_eq!(decode_instruction(0x4060_0000), Err(FatalError::InvalidEncoding(0x4060_0000)));
}
