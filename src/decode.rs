//! Classification of instruction words into mnemonics.
use vstd::prelude::*;
use crate::cpustructs::{
    FatalError, Instruction, Mnemonic, op_of, rs_of, rt_of, funct_of,
};

verus! {

/// The mnemonic of a SPECIAL-group word, selected by its function code.
pub open spec fn special_spec(funct: u8) -> Option<Mnemonic> {
    if funct == 0b100000 { Some(Mnemonic::ADD) }
    else if funct == 0b100001 { Some(Mnemonic::ADDU) }
    else if funct == 0b100100 { Some(Mnemonic::AND) }
    else if funct == 0b001101 { Some(Mnemonic::BREAK) }
    else if funct == 0b011010 { Some(Mnemonic::DIV) }
    else if funct == 0b011011 { Some(Mnemonic::DIVU) }
    else if funct == 0b001001 { Some(Mnemonic::JALR) }
    else if funct == 0b001000 { Some(Mnemonic::JR) }
    else if funct == 0b010000 { Some(Mnemonic::MFHI) }
    else if funct == 0b010010 { Some(Mnemonic::MFLO) }
    else if funct == 0b010001 { Some(Mnemonic::MTHI) }
    else if funct == 0b010011 { Some(Mnemonic::MTLO) }
    else if funct == 0b011000 { Some(Mnemonic::MULT) }
    else if funct == 0b011001 { Some(Mnemonic::MULTU) }
    else if funct == 0b100111 { Some(Mnemonic::NOR) }
    else if funct == 0b100101 { Some(Mnemonic::OR) }
    else if funct == 0b000000 { Some(Mnemonic::SLL) }
    else if funct == 0b000100 { Some(Mnemonic::SLLV) }
    else if funct == 0b101010 { Some(Mnemonic::SLT) }
    else if funct == 0b101011 { Some(Mnemonic::SLTU) }
    else if funct == 0b000011 { Some(Mnemonic::SRA) }
    else if funct == 0b000111 { Some(Mnemonic::SRAV) }
    else if funct == 0b000010 { Some(Mnemonic::SRL) }
    else if funct == 0b000110 { Some(Mnemonic::SRLV) }
    else if funct == 0b100010 { Some(Mnemonic::SUB) }
    else if funct == 0b100011 { Some(Mnemonic::SUBU) }
    else if funct == 0b001100 { Some(Mnemonic::SYSCALL) }
    else if funct == 0b100110 { Some(Mnemonic::XOR) }
    else { None }
}

/// The mnemonic of a REGIMM-group word, selected by its rt field.
pub open spec fn regimm_spec(rt: u8) -> Option<Mnemonic> {
    if rt == 0b00001 { Some(Mnemonic::BGEZ) }
    else if rt == 0b10001 { Some(Mnemonic::BGEZAL) }
    else if rt == 0b00000 { Some(Mnemonic::BLTZ) }
    else if rt == 0b10000 { Some(Mnemonic::BLTZAL) }
    else { None }
}

/// The mnemonic of a COPz-group word, selected by its rs field.
pub open spec fn copz_spec(rs: u8) -> Option<Mnemonic> {
    if rs == 0b10000 { Some(Mnemonic::COPz) }
    else if rs == 0b00010 { Some(Mnemonic::CFCz) }
    else if rs == 0b00000 { Some(Mnemonic::MFCz) }
    else if rs == 0b00100 { Some(Mnemonic::MTCz) }
    else { None }
}

/// The mnemonic of a word decoded by its primary opcode alone.
pub open spec fn primary_spec(op: u8) -> Mnemonic {
    if op == 0b001000 { Mnemonic::ADDI }
    else if op == 0b001001 { Mnemonic::ADDIU }
    else if op == 0b001100 { Mnemonic::ANDI }
    else if op == 0b000100 { Mnemonic::BEQ }
    else if op == 0b000111 { Mnemonic::BGTZ }
    else if op == 0b000110 { Mnemonic::BLEZ }
    else if op == 0b000101 { Mnemonic::BNE }
    else if op == 0b000010 { Mnemonic::J }
    else if op == 0b000011 { Mnemonic::JAL }
    else if op == 0b100000 { Mnemonic::LB }
    else if op == 0b100100 { Mnemonic::LBU }
    else if op == 0b100001 { Mnemonic::LH }
    else if op == 0b100101 { Mnemonic::LHU }
    else if op == 0b001111 { Mnemonic::LUI }
    else if op == 0b100011 { Mnemonic::LW }
    else if op == 0b100010 { Mnemonic::LWL }
    else if op == 0b100110 { Mnemonic::LWR }
    else if op == 0b001101 { Mnemonic::ORI }
    else if op == 0b101000 { Mnemonic::SB }
    else if op == 0b101001 { Mnemonic::SH }
    else if op == 0b001010 { Mnemonic::SLTI }
    else if op == 0b001011 { Mnemonic::SLTIU }
    else if op == 0b101011 { Mnemonic::SW }
    else if op == 0b101010 { Mnemonic::SWL }
    else if op == 0b101110 { Mnemonic::SWR }
    else if op == 0b001110 { Mnemonic::XORI }
    else { Mnemonic::ILLEGAL }
}

/// What a word decodes to: SPECIAL by funct, REGIMM by rt, the coprocessor
/// groups by rs or opcode, and everything else by the opcode alone. A SPECIAL,
/// REGIMM or COPz word whose sub-field names nothing is an encoding error.
pub open spec fn decode_spec(w: u32) -> Result<Mnemonic, FatalError> {
    let op = op_of(w);
    if op == 0 {
        match special_spec(funct_of(w)) {
            Some(m) => Ok(m),
            None => Err(FatalError::InvalidEncoding(w)),
        }
    } else if op == 1 {
        match regimm_spec(rt_of(w)) {
            Some(m) => Ok(m),
            None => Err(FatalError::InvalidEncoding(w)),
        }
    } else if op >> 2u8 == 0b0100u8 {
        match copz_spec(rs_of(w)) {
            Some(m) => Ok(m),
            None => Err(FatalError::InvalidEncoding(w)),
        }
    } else if op >> 2u8 == 0b1100u8 {
        Ok(Mnemonic::LWCz)
    } else if op >> 2u8 == 0b1110u8 {
        Ok(Mnemonic::SWCz)
    } else {
        Ok(primary_spec(op))
    }
}

/// Decode a MIPS-I instruction word into its mnemonic and a view of its fields.
pub fn decode_instruction(word: u32) -> (r: Result<(Mnemonic, Instruction), FatalError>)
    ensures
        match decode_spec(word) {
            Ok(m) => r == Ok::<(Mnemonic, Instruction), FatalError>((m, Instruction(word))),
            Err(e) => r == Err::<(Mnemonic, Instruction), FatalError>(e),
        },
{
    let instr = Instruction(word);
    let op = instr.op();
    let mnemonic = if op == 0 {
        decode_register_instruction(instr)
    } else if op == 1 {
        decode_regimm_instruction(instr)
    } else if op >> 2u8 == 0b0100u8 {
        decode_copz_instruction(instr)
    } else if op >> 2u8 == 0b1100u8 {
        Ok(Mnemonic::LWCz)
    } else if op >> 2u8 == 0b1110u8 {
        Ok(Mnemonic::SWCz)
    } else {
        Ok(
            match op {
                0b001000 => Mnemonic::ADDI,
                0b001001 => Mnemonic::ADDIU,
                0b001100 => Mnemonic::ANDI,
                0b000100 => Mnemonic::BEQ,
                0b000111 => Mnemonic::BGTZ,
                0b000110 => Mnemonic::BLEZ,
                0b000101 => Mnemonic::BNE,
                0b000010 => Mnemonic::J,
                0b000011 => Mnemonic::JAL,
                0b100000 => Mnemonic::LB,
                0b100100 => Mnemonic::LBU,
                0b100001 => Mnemonic::LH,
                0b100101 => Mnemonic::LHU,
                0b001111 => Mnemonic::LUI,
                0b100011 => Mnemonic::LW,
                0b100010 => Mnemonic::LWL,
                0b100110 => Mnemonic::LWR,
                0b001101 => Mnemonic::ORI,
                0b101000 => Mnemonic::SB,
                0b101001 => Mnemonic::SH,
                0b001010 => Mnemonic::SLTI,
                0b001011 => Mnemonic::SLTIU,
                0b101011 => Mnemonic::SW,
                0b101010 => Mnemonic::SWL,
                0b101110 => Mnemonic::SWR,
                0b001110 => Mnemonic::XORI,
                _ => Mnemonic::ILLEGAL,
            },
        )
    };
    match mnemonic {
        Ok(m) => Ok((m, instr)),
        Err(e) => Err(e),
    }
}

fn decode_register_instruction(instr: Instruction) -> (r: Result<Mnemonic, FatalError>)
    ensures
        match special_spec(funct_of(instr.0)) {
            Some(m) => r == Ok::<Mnemonic, FatalError>(m),
            None => r == Err::<Mnemonic, FatalError>(FatalError::InvalidEncoding(instr.0)),
        },
{
    match instr.funct() {
        0b100000 => Ok(Mnemonic::ADD),
        0b100001 => Ok(Mnemonic::ADDU),
        0b100100 => Ok(Mnemonic::AND),
        0b001101 => Ok(Mnemonic::BREAK),
        0b011010 => Ok(Mnemonic::DIV),
        0b011011 => Ok(Mnemonic::DIVU),
        0b001001 => Ok(Mnemonic::JALR),
        0b001000 => Ok(Mnemonic::JR),
        0b010000 => Ok(Mnemonic::MFHI),
        0b010010 => Ok(Mnemonic::MFLO),
        0b010001 => Ok(Mnemonic::MTHI),
        0b010011 => Ok(Mnemonic::MTLO),
        0b011000 => Ok(Mnemonic::MULT),
        0b011001 => Ok(Mnemonic::MULTU),
        0b100111 => Ok(Mnemonic::NOR),
        0b100101 => Ok(Mnemonic::OR),
        0b000000 => Ok(Mnemonic::SLL),
        0b000100 => Ok(Mnemonic::SLLV),
        0b101010 => Ok(Mnemonic::SLT),
        0b101011 => Ok(Mnemonic::SLTU),
        0b000011 => Ok(Mnemonic::SRA),
        0b000111 => Ok(Mnemonic::SRAV),
        0b000010 => Ok(Mnemonic::SRL),
        0b000110 => Ok(Mnemonic::SRLV),
        0b100010 => Ok(Mnemonic::SUB),
        0b100011 => Ok(Mnemonic::SUBU),
        0b001100 => Ok(Mnemonic::SYSCALL),
        0b100110 => Ok(Mnemonic::XOR),
        _ => Err(FatalError::InvalidEncoding(instr.0)),
    }
}

fn decode_regimm_instruction(instr: Instruction) -> (r: Result<Mnemonic, FatalError>)
    ensures
        match regimm_spec(rt_of(instr.0)) {
            Some(m) => r == Ok::<Mnemonic, FatalError>(m),
            None => r == Err::<Mnemonic, FatalError>(FatalError::InvalidEncoding(instr.0)),
        },
{
    match instr.rt() {
        0b00001 => Ok(Mnemonic::BGEZ),
        0b10001 => Ok(Mnemonic::BGEZAL),
        0b00000 => Ok(Mnemonic::BLTZ),
        0b10000 => Ok(Mnemonic::BLTZAL),
        _ => Err(FatalError::InvalidEncoding(instr.0)),
    }
}

fn decode_copz_instruction(instr: Instruction) -> (r: Result<Mnemonic, FatalError>)
    ensures
        match copz_spec(rs_of(instr.0)) {
            Some(m) => r == Ok::<Mnemonic, FatalError>(m),
            None => r == Err::<Mnemonic, FatalError>(FatalError::InvalidEncoding(instr.0)),
        },
{
    match instr.rs() {
        0b10000 => Ok(Mnemonic::COPz),
        0b00010 => Ok(Mnemonic::CFCz),
        0b00000 => Ok(Mnemonic::MFCz),
        0b00100 => Ok(Mnemonic::MTCz),
        _ => Err(FatalError::InvalidEncoding(instr.0)),
    }
}


/// The word with the given opcode, rs, rt and function fields (rd and shamt zero).
pub open spec fn encode(op: u32, rs: u32, rt: u32, funct: u32) -> u32 {
    (op << 26u32) | (rs << 21u32) | (rt << 16u32) | funct
}

/// (opcode, rs, rt, funct) of a word that decodes to the mnemonic.
pub open spec fn fields_of(m: Mnemonic) -> (u32, u32, u32, u32) {
    match m {
        Mnemonic::ADD => (0, 0, 0, 0b100000),
        Mnemonic::ADDU => (0, 0, 0, 0b100001),
        Mnemonic::AND => (0, 0, 0, 0b100100),
        Mnemonic::BREAK => (0, 0, 0, 0b001101),
        Mnemonic::DIV => (0, 0, 0, 0b011010),
        Mnemonic::DIVU => (0, 0, 0, 0b011011),
        Mnemonic::JALR => (0, 0, 0, 0b001001),
        Mnemonic::JR => (0, 0, 0, 0b001000),
        Mnemonic::MFHI => (0, 0, 0, 0b010000),
        Mnemonic::MFLO => (0, 0, 0, 0b010010),
        Mnemonic::MTHI => (0, 0, 0, 0b010001),
        Mnemonic::MTLO => (0, 0, 0, 0b010011),
        Mnemonic::MULT => (0, 0, 0, 0b011000),
        Mnemonic::MULTU => (0, 0, 0, 0b011001),
        Mnemonic::NOR => (0, 0, 0, 0b100111),
        Mnemonic::OR => (0, 0, 0, 0b100101),
        Mnemonic::SLL => (0, 0, 0, 0b000000),
        Mnemonic::SLLV => (0, 0, 0, 0b000100),
        Mnemonic::SLT => (0, 0, 0, 0b101010),
        Mnemonic::SLTU => (0, 0, 0, 0b101011),
        Mnemonic::SRA => (0, 0, 0, 0b000011),
        Mnemonic::SRAV => (0, 0, 0, 0b000111),
        Mnemonic::SRL => (0, 0, 0, 0b000010),
        Mnemonic::SRLV => (0, 0, 0, 0b000110),
        Mnemonic::SUB => (0, 0, 0, 0b100010),
        Mnemonic::SUBU => (0, 0, 0, 0b100011),
        Mnemonic::SYSCALL => (0, 0, 0, 0b001100),
        Mnemonic::XOR => (0, 0, 0, 0b100110),
        Mnemonic::BGEZ => (1, 0, 0b00001, 0),
        Mnemonic::BGEZAL => (1, 0, 0b10001, 0),
        Mnemonic::BLTZ => (1, 0, 0b00000, 0),
        Mnemonic::BLTZAL => (1, 0, 0b10000, 0),
        Mnemonic::COPz => (0b010000, 0b10000, 0, 0),
        Mnemonic::CFCz => (0b010000, 0b00010, 0, 0),
        Mnemonic::MFCz => (0b010000, 0b00000, 0, 0),
        Mnemonic::MTCz => (0b010000, 0b00100, 0, 0),
        Mnemonic::CTCz => (0b010000, 0b00110, 0, 0),
        Mnemonic::LWCz => (0b110000, 0, 0, 0),
        Mnemonic::SWCz => (0b111000, 0, 0, 0),
        Mnemonic::ADDI => (0b001000, 0, 0, 0),
        Mnemonic::ADDIU => (0b001001, 0, 0, 0),
        Mnemonic::ANDI => (0b001100, 0, 0, 0),
        Mnemonic::BEQ => (0b000100, 0, 0, 0),
        Mnemonic::BGTZ => (0b000111, 0, 0, 0),
        Mnemonic::BLEZ => (0b000110, 0, 0, 0),
        Mnemonic::BNE => (0b000101, 0, 0, 0),
        Mnemonic::J => (0b000010, 0, 0, 0),
        Mnemonic::JAL => (0b000011, 0, 0, 0),
        Mnemonic::LB => (0b100000, 0, 0, 0),
        Mnemonic::LBU => (0b100100, 0, 0, 0),
        Mnemonic::LH => (0b100001, 0, 0, 0),
        Mnemonic::LHU => (0b100101, 0, 0, 0),
        Mnemonic::LUI => (0b001111, 0, 0, 0),
        Mnemonic::LW => (0b100011, 0, 0, 0),
        Mnemonic::LWL => (0b100010, 0, 0, 0),
        Mnemonic::LWR => (0b100110, 0, 0, 0),
        Mnemonic::ORI => (0b001101, 0, 0, 0),
        Mnemonic::SB => (0b101000, 0, 0, 0),
        Mnemonic::SH => (0b101001, 0, 0, 0),
        Mnemonic::SLTI => (0b001010, 0, 0, 0),
        Mnemonic::SLTIU => (0b001011, 0, 0, 0),
        Mnemonic::SW => (0b101011, 0, 0, 0),
        Mnemonic::SWL => (0b101010, 0, 0, 0),
        Mnemonic::SWR => (0b101110, 0, 0, 0),
        Mnemonic::XORI => (0b001110, 0, 0, 0),
        Mnemonic::ILLEGAL => (0b111111, 0, 0, 0),
    }
}

proof fn lemma_encode_fields(op: u32, rs: u32, rt: u32, funct: u32)
    requires
        op < 64,
        rs < 32,
        rt < 32,
        funct < 64,
    ensures
        encode(op, rs, rt, funct) >> 26u32 == op,
        (encode(op, rs, rt, funct) >> 21u32) & 0x1Fu32 == rs,
        (encode(op, rs, rt, funct) >> 16u32) & 0x1Fu32 == rt,
        encode(op, rs, rt, funct) & 0x3Fu32 == funct,
{
    assert((((op << 26u32) | (rs << 21u32) | (rt << 16u32) | funct) >> 26u32 == op) && ((((op
        << 26u32) | (rs << 21u32) | (rt << 16u32) | funct) >> 21u32) & 0x1Fu32 == rs) && ((((op
        << 26u32) | (rs << 21u32) | (rt << 16u32) | funct) >> 16u32) & 0x1Fu32 == rt) && (((op
        << 26u32) | (rs << 21u32) | (rt << 16u32) | funct) & 0x3Fu32 == funct)) by (bit_vector)
        requires
            op < 64,
            rs < 32,
            rt < 32,
            funct < 64,
    ;
}

proof fn lemma_op_groups(op: u8)
    requires
        op < 64,
    ensures
        (op >> 2u8 == 0b0100u8) == (16 <= op < 20),
        (op >> 2u8 == 0b1100u8) == (48 <= op < 52),
        (op >> 2u8 == 0b1110u8) == (56 <= op < 60),
{
    assert(op < 64 ==> ((op >> 2u8 == 0b0100u8) == (16 <= op < 20)) && ((op >> 2u8 == 0b1100u8)
        == (48 <= op < 52)) && ((op >> 2u8 == 0b1110u8) == (56 <= op < 60))) by (bit_vector);
}

/// Every mnemonic that the decoder produces is the decoding of some word
/// (CTCz has a handler but no encoding that the decoder maps to it).
pub proof fn lemma_every_mnemonic_has_encoding(m: Mnemonic)
    requires
        m != Mnemonic::CTCz,
    ensures
        exists|w: u32| decode_spec(w) == Ok::<Mnemonic, FatalError>(m),
{
    let (op, rs, rt, funct) = fields_of(m);
    lemma_encode_fields(op, rs, rt, funct);
    lemma_op_groups(op as u8);
    let w = encode(op, rs, rt, funct);
    assert(decode_spec(w) == Ok::<Mnemonic, FatalError>(m));
}

/// The primary opcodes that name an instruction or an instruction group.
pub open spec fn opcode_in_use(op: u8) -> bool {
    op < 20 || 32 <= op <= 38 || op == 40 || op == 41 || op == 42 || op == 43 || op == 46 || 48
        <= op < 52 || 56 <= op < 60
}

/// A word whose primary opcode names nothing decodes to ILLEGAL.
pub proof fn lemma_unused_opcode_is_illegal(w: u32)
    requires
        !opcode_in_use(op_of(w)),
    ensures
        decode_spec(w) == Ok::<Mnemonic, FatalError>(Mnemonic::ILLEGAL),
{
    crate::cpustructs::lemma_fields_bounded(w);
    lemma_op_groups(op_of(w));
}

} // verus!
