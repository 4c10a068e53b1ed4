//! Pretty-printing of instructions as MIPS assembly, for debugging.
use vstd::prelude::*;
use vstd::string::*;
use crate::cpustructs::{
    CpuState, Instruction, Mnemonic, imm_of, op_of, rd_of, rs_of, rt_of, shamt_of, target_of,
};

verus! {

/// The name of a mnemonic as printed.
pub open spec fn mnemonic_name(m: Mnemonic) -> Seq<char> {
    match m {
        Mnemonic::ADD => "ADD"@,
        Mnemonic::ADDI => "ADDI"@,
        Mnemonic::ADDIU => "ADDIU"@,
        Mnemonic::ADDU => "ADDU"@,
        Mnemonic::AND => "AND"@,
        Mnemonic::ANDI => "ANDI"@,
        Mnemonic::BEQ => "BEQ"@,
        Mnemonic::BGEZ => "BGEZ"@,
        Mnemonic::BGEZAL => "BGEZAL"@,
        Mnemonic::BGTZ => "BGTZ"@,
        Mnemonic::BLEZ => "BLEZ"@,
        Mnemonic::BLTZ => "BLTZ"@,
        Mnemonic::BLTZAL => "BLTZAL"@,
        Mnemonic::BNE => "BNE"@,
        Mnemonic::BREAK => "BREAK"@,
        Mnemonic::CFCz => "CFCz"@,
        Mnemonic::COPz => "COPz"@,
        Mnemonic::CTCz => "CTCz"@,
        Mnemonic::DIV => "DIV"@,
        Mnemonic::DIVU => "DIVU"@,
        Mnemonic::J => "J"@,
        Mnemonic::JAL => "JAL"@,
        Mnemonic::JALR => "JALR"@,
        Mnemonic::JR => "JR"@,
        Mnemonic::LB => "LB"@,
        Mnemonic::LBU => "LBU"@,
        Mnemonic::LH => "LH"@,
        Mnemonic::LHU => "LHU"@,
        Mnemonic::LUI => "LUI"@,
        Mnemonic::LW => "LW"@,
        Mnemonic::LWCz => "LWCz"@,
        Mnemonic::LWL => "LWL"@,
        Mnemonic::LWR => "LWR"@,
        Mnemonic::MFCz => "MFCz"@,
        Mnemonic::MFHI => "MFHI"@,
        Mnemonic::MFLO => "MFLO"@,
        Mnemonic::MTCz => "MTCz"@,
        Mnemonic::MTHI => "MTHI"@,
        Mnemonic::MTLO => "MTLO"@,
        Mnemonic::MULT => "MULT"@,
        Mnemonic::MULTU => "MULTU"@,
        Mnemonic::NOR => "NOR"@,
        Mnemonic::OR => "OR"@,
        Mnemonic::ORI => "ORI"@,
        Mnemonic::SB => "SB"@,
        Mnemonic::SH => "SH"@,
        Mnemonic::SLL => "SLL"@,
        Mnemonic::SLLV => "SLLV"@,
        Mnemonic::SLT => "SLT"@,
        Mnemonic::SLTI => "SLTI"@,
        Mnemonic::SLTIU => "SLTIU"@,
        Mnemonic::SLTU => "SLTU"@,
        Mnemonic::SRA => "SRA"@,
        Mnemonic::SRAV => "SRAV"@,
        Mnemonic::SRL => "SRL"@,
        Mnemonic::SRLV => "SRLV"@,
        Mnemonic::SUB => "SUB"@,
        Mnemonic::SUBU => "SUBU"@,
        Mnemonic::SW => "SW"@,
        Mnemonic::SWCz => "SWCz"@,
        Mnemonic::SWL => "SWL"@,
        Mnemonic::SWR => "SWR"@,
        Mnemonic::SYSCALL => "SYSCALL"@,
        Mnemonic::XOR => "XOR"@,
        Mnemonic::XORI => "XORI"@,
        Mnemonic::ILLEGAL => "ILLEGAL"@,
    }
}

fn name_str(m: Mnemonic) -> (r: &'static str)
    ensures
        r@ == mnemonic_name(m),
{
    match m {
        Mnemonic::ADD => "ADD",
        Mnemonic::ADDI => "ADDI",
        Mnemonic::ADDIU => "ADDIU",
        Mnemonic::ADDU => "ADDU",
        Mnemonic::AND => "AND",
        Mnemonic::ANDI => "ANDI",
        Mnemonic::BEQ => "BEQ",
        Mnemonic::BGEZ => "BGEZ",
        Mnemonic::BGEZAL => "BGEZAL",
        Mnemonic::BGTZ => "BGTZ",
        Mnemonic::BLEZ => "BLEZ",
        Mnemonic::BLTZ => "BLTZ",
        Mnemonic::BLTZAL => "BLTZAL",
        Mnemonic::BNE => "BNE",
        Mnemonic::BREAK => "BREAK",
        Mnemonic::CFCz => "CFCz",
        Mnemonic::COPz => "COPz",
        Mnemonic::CTCz => "CTCz",
        Mnemonic::DIV => "DIV",
        Mnemonic::DIVU => "DIVU",
        Mnemonic::J => "J",
        Mnemonic::JAL => "JAL",
        Mnemonic::JALR => "JALR",
        Mnemonic::JR => "JR",
        Mnemonic::LB => "LB",
        Mnemonic::LBU => "LBU",
        Mnemonic::LH => "LH",
        Mnemonic::LHU => "LHU",
        Mnemonic::LUI => "LUI",
        Mnemonic::LW => "LW",
        Mnemonic::LWCz => "LWCz",
        Mnemonic::LWL => "LWL",
        Mnemonic::LWR => "LWR",
        Mnemonic::MFCz => "MFCz",
        Mnemonic::MFHI => "MFHI",
        Mnemonic::MFLO => "MFLO",
        Mnemonic::MTCz => "MTCz",
        Mnemonic::MTHI => "MTHI",
        Mnemonic::MTLO => "MTLO",
        Mnemonic::MULT => "MULT",
        Mnemonic::MULTU => "MULTU",
        Mnemonic::NOR => "NOR",
        Mnemonic::OR => "OR",
        Mnemonic::ORI => "ORI",
        Mnemonic::SB => "SB",
        Mnemonic::SH => "SH",
        Mnemonic::SLL => "SLL",
        Mnemonic::SLLV => "SLLV",
        Mnemonic::SLT => "SLT",
        Mnemonic::SLTI => "SLTI",
        Mnemonic::SLTIU => "SLTIU",
        Mnemonic::SLTU => "SLTU",
        Mnemonic::SRA => "SRA",
        Mnemonic::SRAV => "SRAV",
        Mnemonic::SRL => "SRL",
        Mnemonic::SRLV => "SRLV",
        Mnemonic::SUB => "SUB",
        Mnemonic::SUBU => "SUBU",
        Mnemonic::SW => "SW",
        Mnemonic::SWCz => "SWCz",
        Mnemonic::SWL => "SWL",
        Mnemonic::SWR => "SWR",
        Mnemonic::SYSCALL => "SYSCALL",
        Mnemonic::XOR => "XOR",
        Mnemonic::XORI => "XORI",
        Mnemonic::ILLEGAL => "ILLEGAL",
    }
}

/// The digit (0-9, then A-F) of a value below 16.
pub open spec fn digit(d: nat) -> Seq<char> {
    if d == 0 { "0"@ }
    else if d == 1 { "1"@ }
    else if d == 2 { "2"@ }
    else if d == 3 { "3"@ }
    else if d == 4 { "4"@ }
    else if d == 5 { "5"@ }
    else if d == 6 { "6"@ }
    else if d == 7 { "7"@ }
    else if d == 8 { "8"@ }
    else if d == 9 { "9"@ }
    else if d == 10 { "A"@ }
    else if d == 11 { "B"@ }
    else if d == 12 { "C"@ }
    else if d == 13 { "D"@ }
    else if d == 14 { "E"@ }
    else { "F"@ }
}

fn digit_str(d: u32) -> (r: &'static str)
    ensures
        r@ == digit(d as nat),
{
    if d == 0 { "0" }
    else if d == 1 { "1" }
    else if d == 2 { "2" }
    else if d == 3 { "3" }
    else if d == 4 { "4" }
    else if d == 5 { "5" }
    else if d == 6 { "6" }
    else if d == 7 { "7" }
    else if d == 8 { "8" }
    else if d == 9 { "9" }
    else if d == 10 { "A" }
    else if d == 11 { "B" }
    else if d == 12 { "C" }
    else if d == 13 { "D" }
    else if d == 14 { "E" }
    else { "F" }
}

/// The `n` least significant hexadecimal digits of `v`, most significant first.
pub open spec fn hex_digits(v: nat, n: nat) -> Seq<char>
    decreases n,
{
    if n == 0 {
        Seq::empty()
    } else {
        hex_digits(v / 16, (n - 1) as nat) + digit(v % 16)
    }
}

/// The decimal digits of `v`, without leading zeros.
pub open spec fn dec_digits(v: nat) -> Seq<char>
    decreases v,
{
    if v < 10 {
        digit(v)
    } else {
        dec_digits(v / 10) + digit(v % 10)
    }
}

/// A signed decimal number.
pub open spec fn dec_signed(x: int) -> Seq<char> {
    if x < 0 {
        "-"@ + dec_digits((-x) as nat)
    } else {
        dec_digits(x as nat)
    }
}

fn push_hex(s: &mut String, v: u32, n: u32)
    ensures
        final(s)@ == old(s)@ + hex_digits(v as nat, n as nat),
    decreases n,
{
    if n > 0 {
        push_hex(s, v / 16, n - 1);
        s.append(digit_str(v % 16));
        assert(s@ =~= old(s)@ + hex_digits(v as nat, n as nat));
    } else {
        assert(s@ =~= old(s)@ + hex_digits(v as nat, n as nat));
    }
}

fn push_dec(s: &mut String, v: u32)
    ensures
        final(s)@ == old(s)@ + dec_digits(v as nat),
    decreases v,
{
    if v >= 10 {
        push_dec(s, v / 10);
    }
    s.append(digit_str(v % 10));
    assert(s@ =~= old(s)@ + dec_digits(v as nat));
}

fn push_signed(s: &mut String, x: i16)
    ensures
        final(s)@ == old(s)@ + dec_signed(x as int),
{
    if x < 0 {
        s.append("-");
        push_dec(s, (-(x as i32)) as u32);
    } else {
        push_dec(s, x as u32);
    }
    assert(s@ =~= old(s)@ + dec_signed(x as int));
}

/// `$` and a register number.
pub open spec fn reg_text(r: u8) -> Seq<char> {
    "$"@ + dec_digits(r as nat)
}

fn push_reg(s: &mut String, r: u8)
    ensures
        final(s)@ == old(s)@ + reg_text(r),
{
    s.append("$");
    push_dec(s, r as u32);
    assert(s@ =~= old(s)@ + reg_text(r));
}

/// The coprocessor number of a coprocessor instruction.
pub open spec fn cop_number(w: u32) -> nat {
    (op_of(w) & 3u8) as nat
}

/// The assembly text of a decoded instruction. Registers are printed as
/// numbers, offsets and arithmetic immediates as signed decimals, other
/// immediates and addresses in hexadecimal.
pub open spec fn disasm_spec(m: Mnemonic, w: u32) -> Seq<char> {
    let sp = " "@;
    let sep = ", "@;
    let name = mnemonic_name(m);
    let simm = dec_signed((imm_of(w) as i16) as int);
    let himm = "0x"@ + hex_digits(imm_of(w) as nat, 4);
    match m {
        Mnemonic::ADD | Mnemonic::ADDU | Mnemonic::AND | Mnemonic::NOR | Mnemonic::OR
        | Mnemonic::SLLV | Mnemonic::SLT | Mnemonic::SLTU | Mnemonic::SRAV | Mnemonic::SRLV
        | Mnemonic::SUB | Mnemonic::SUBU | Mnemonic::XOR => name + sp + reg_text(rd_of(w)) + sep
            + reg_text(rs_of(w)) + sep + reg_text(rt_of(w)),
        Mnemonic::ADDI | Mnemonic::ADDIU | Mnemonic::ANDI | Mnemonic::ORI | Mnemonic::SLTI
        | Mnemonic::SLTIU | Mnemonic::XORI => name + sp + reg_text(rt_of(w)) + sep + reg_text(
            rs_of(w),
        ) + sep + simm,
        Mnemonic::BEQ | Mnemonic::BNE => name + sp + reg_text(rs_of(w)) + sep + reg_text(rt_of(w))
            + sep + himm,
        Mnemonic::BGEZ | Mnemonic::BGEZAL | Mnemonic::BGTZ | Mnemonic::BLEZ | Mnemonic::BLTZ
        | Mnemonic::BLTZAL => name + sp + reg_text(rs_of(w)) + sep + simm,
        Mnemonic::CFCz => "CFC"@ + digit(cop_number(w)) + sp + reg_text(rt_of(w)) + sep + reg_text(
            rd_of(w),
        ),
        Mnemonic::CTCz => "CTC"@ + digit(cop_number(w)) + sp + reg_text(rt_of(w)) + sep + reg_text(
            rd_of(w),
        ),
        Mnemonic::MFCz => "MFC"@ + digit(cop_number(w)) + sp + reg_text(rt_of(w)) + sep + reg_text(
            rd_of(w),
        ),
        Mnemonic::MTCz => "MTC"@ + digit(cop_number(w)) + sp + reg_text(rt_of(w)) + sep + reg_text(
            rd_of(w),
        ),
        Mnemonic::COPz => "COP"@ + digit(cop_number(w)) + sp + "0x"@ + hex_digits(
            (w & 0x01FF_FFFFu32) as nat,
            8,
        ),
        Mnemonic::DIV | Mnemonic::DIVU | Mnemonic::MULT | Mnemonic::MULTU => name + sp + reg_text(
            rs_of(w),
        ) + sep + reg_text(rt_of(w)),
        Mnemonic::J | Mnemonic::JAL => name + sp + "$_"@ + hex_digits(
            (target_of(w) << 2u32) as nat,
            7,
        ),
        Mnemonic::JALR => name + sp + reg_text(rd_of(w)) + sep + reg_text(rs_of(w)),
        Mnemonic::JR | Mnemonic::MTHI | Mnemonic::MTLO => name + sp + reg_text(rs_of(w)),
        Mnemonic::MFHI | Mnemonic::MFLO => name + sp + reg_text(rd_of(w)),
        Mnemonic::LB | Mnemonic::LBU | Mnemonic::LH | Mnemonic::LHU | Mnemonic::LW | Mnemonic::LWL
        | Mnemonic::LWR | Mnemonic::SB | Mnemonic::SH | Mnemonic::SW | Mnemonic::SWL
        | Mnemonic::SWR => name + sp + reg_text(rt_of(w)) + sep + simm + "("@ + reg_text(rs_of(w))
            + ")"@,
        Mnemonic::LUI => name + sp + reg_text(rt_of(w)) + sep + himm,
        Mnemonic::LWCz => "LWC"@ + digit(cop_number(w)) + sp + reg_text(rt_of(w)) + sep + himm
            + "("@ + reg_text(rs_of(w)) + ")"@,
        Mnemonic::SWCz => "SWC"@ + digit(cop_number(w)) + sp + reg_text(rt_of(w)) + sep + himm
            + "("@ + reg_text(rs_of(w)) + ")"@,
        Mnemonic::SLL | Mnemonic::SRA | Mnemonic::SRL => name + sp + reg_text(rd_of(w)) + sep
            + reg_text(rt_of(w)) + sep + dec_digits(shamt_of(w) as nat),
        Mnemonic::BREAK | Mnemonic::SYSCALL | Mnemonic::ILLEGAL => name,
    }
}


fn disasm_r_instr(m: Mnemonic, instr: Instruction) -> (r: String)
    ensures
        r@ == mnemonic_name(m) + " "@ + reg_text(rd_of(instr.0)) + ", "@ + reg_text(rs_of(instr.0))
            + ", "@ + reg_text(rt_of(instr.0)),
{
    let mut s = String::from_str(name_str(m));
    s.append(" ");
    push_reg(&mut s, instr.rd());
    s.append(", ");
    push_reg(&mut s, instr.rs());
    s.append(", ");
    push_reg(&mut s, instr.rt());
    s
}

fn disasm_i_instr(m: Mnemonic, instr: Instruction) -> (r: String)
    ensures
        r@ == mnemonic_name(m) + " "@ + reg_text(rt_of(instr.0)) + ", "@ + reg_text(rs_of(instr.0))
            + ", "@ + dec_signed((imm_of(instr.0) as i16) as int),
{
    let mut s = String::from_str(name_str(m));
    s.append(" ");
    push_reg(&mut s, instr.rt());
    s.append(", ");
    push_reg(&mut s, instr.rs());
    s.append(", ");
    push_signed(&mut s, instr.immediate() as i16);
    s
}

fn disasm_branch_instr(m: Mnemonic, instr: Instruction) -> (r: String)
    ensures
        r@ == mnemonic_name(m) + " "@ + reg_text(rs_of(instr.0)) + ", "@ + dec_signed(
            (imm_of(instr.0) as i16) as int,
        ),
{
    let mut s = String::from_str(name_str(m));
    s.append(" ");
    push_reg(&mut s, instr.rs());
    s.append(", ");
    push_signed(&mut s, instr.immediate() as i16);
    s
}

fn disasm_bare_instr(m: Mnemonic) -> (r: String)
    ensures
        r@ == mnemonic_name(m),
{
    String::from_str(name_str(m))
}

fn disasm_bus_instr(m: Mnemonic, instr: Instruction) -> (r: String)
    ensures
        r@ == mnemonic_name(m) + " "@ + reg_text(rt_of(instr.0)) + ", "@ + dec_signed(
            (imm_of(instr.0) as i16) as int,
        ) + "("@ + reg_text(rs_of(instr.0)) + ")"@,
{
    let mut s = String::from_str(name_str(m));
    s.append(" ");
    push_reg(&mut s, instr.rt());
    s.append(", ");
    push_signed(&mut s, instr.immediate() as i16);
    s.append("(");
    push_reg(&mut s, instr.rs());
    s.append(")");
    s
}

/// DIV and MULT name only their two sources.
fn disasm_math_instr(m: Mnemonic, instr: Instruction) -> (r: String)
    ensures
        r@ == mnemonic_name(m) + " "@ + reg_text(rs_of(instr.0)) + ", "@ + reg_text(rt_of(instr.0)),
{
    let mut s = String::from_str(name_str(m));
    s.append(" ");
    push_reg(&mut s, instr.rs());
    s.append(", ");
    push_reg(&mut s, instr.rt());
    s
}

fn disasm_j_instr(m: Mnemonic, instr: Instruction) -> (r: String)
    ensures
        r@ == mnemonic_name(m) + " "@ + "$_"@ + hex_digits((target_of(instr.0) << 2u32) as nat, 7),
{
    let mut s = String::from_str(name_str(m));
    s.append(" ");
    s.append("$_");
    push_hex(&mut s, instr.target() << 2u32, 7);
    s
}

/// `prefix` and the coprocessor number, then rt and rd.
fn disasm_cop_move(prefix: &str, instr: Instruction) -> (r: String)
    ensures
        r@ == prefix@ + digit(cop_number(instr.0)) + " "@ + reg_text(rt_of(instr.0)) + ", "@
            + reg_text(rd_of(instr.0)),
{
    let mut s = String::from_str(prefix);
    s.append(digit_str((instr.op() & 3u8) as u32));
    s.append(" ");
    push_reg(&mut s, instr.rt());
    s.append(", ");
    push_reg(&mut s, instr.rd());
    s
}

/// `prefix` and the coprocessor number, then rt and the immediate offset from rs.
fn disasm_cop_bus(prefix: &str, instr: Instruction) -> (r: String)
    ensures
        r@ == prefix@ + digit(cop_number(instr.0)) + " "@ + reg_text(rt_of(instr.0)) + ", "@ + (
        "0x"@ + hex_digits(imm_of(instr.0) as nat, 4)) + "("@ + reg_text(rs_of(instr.0)) + ")"@,
{
    let mut s = String::from_str(prefix);
    s.append(digit_str((instr.op() & 3u8) as u32));
    s.append(" ");
    push_reg(&mut s, instr.rt());
    s.append(", ");
    s.append("0x");
    push_hex(&mut s, instr.immediate() as u32, 4);
    s.append("(");
    push_reg(&mut s, instr.rs());
    s.append(")");
    proof {
        let a = prefix@ + digit(cop_number(instr.0)) + " "@ + reg_text(rt_of(instr.0)) + ", "@;
        assert(s@ =~= a + ("0x"@ + hex_digits(imm_of(instr.0) as nat, 4)) + "("@ + reg_text(
            rs_of(instr.0),
        ) + ")"@);
    }
    s
}

/// Two registers and an immediate in hexadecimal (BEQ, BNE).
fn disasm_hex_branch(m: Mnemonic, instr: Instruction) -> (r: String)
    ensures
        r@ == mnemonic_name(m) + " "@ + reg_text(rs_of(instr.0)) + ", "@ + reg_text(rt_of(instr.0))
            + ", "@ + ("0x"@ + hex_digits(imm_of(instr.0) as nat, 4)),
{
    let mut s = String::from_str(name_str(m));
    s.append(" ");
    push_reg(&mut s, instr.rs());
    s.append(", ");
    push_reg(&mut s, instr.rt());
    s.append(", ");
    s.append("0x");
    push_hex(&mut s, instr.immediate() as u32, 4);
    proof {
        let a = mnemonic_name(m) + " "@ + reg_text(rs_of(instr.0)) + ", "@ + reg_text(
            rt_of(instr.0),
        ) + ", "@;
        assert(s@ =~= a + ("0x"@ + hex_digits(imm_of(instr.0) as nat, 4)));
    }
    s
}

/// One register and an immediate in hexadecimal (LUI).
fn disasm_lui(m: Mnemonic, instr: Instruction) -> (r: String)
    ensures
        r@ == mnemonic_name(m) + " "@ + reg_text(rt_of(instr.0)) + ", "@ + ("0x"@ + hex_digits(
            imm_of(instr.0) as nat,
            4,
        )),
{
    let mut s = String::from_str(name_str(m));
    s.append(" ");
    push_reg(&mut s, instr.rt());
    s.append(", ");
    s.append("0x");
    push_hex(&mut s, instr.immediate() as u32, 4);
    proof {
        let a = mnemonic_name(m) + " "@ + reg_text(rt_of(instr.0)) + ", "@;
        assert(s@ =~= a + ("0x"@ + hex_digits(imm_of(instr.0) as nat, 4)));
    }
    s
}

/// A name and one register.
fn disasm_one_reg(m: Mnemonic, reg: u8) -> (r: String)
    ensures
        r@ == mnemonic_name(m) + " "@ + reg_text(reg),
{
    let mut s = String::from_str(name_str(m));
    s.append(" ");
    push_reg(&mut s, reg);
    s
}

/// A name and two registers.
fn disasm_two_regs(m: Mnemonic, a: u8, b: u8) -> (r: String)
    ensures
        r@ == mnemonic_name(m) + " "@ + reg_text(a) + ", "@ + reg_text(b),
{
    let mut s = String::from_str(name_str(m));
    s.append(" ");
    push_reg(&mut s, a);
    s.append(", ");
    push_reg(&mut s, b);
    s
}

/// Shifts by a constant amount: rd, rt and the amount.
fn disasm_shift(m: Mnemonic, instr: Instruction) -> (r: String)
    ensures
        r@ == mnemonic_name(m) + " "@ + reg_text(rd_of(instr.0)) + ", "@ + reg_text(rt_of(instr.0))
            + ", "@ + dec_digits(shamt_of(instr.0) as nat),
{
    let mut s = String::from_str(name_str(m));
    s.append(" ");
    push_reg(&mut s, instr.rd());
    s.append(", ");
    push_reg(&mut s, instr.rt());
    s.append(", ");
    push_dec(&mut s, instr.shamt() as u32);
    s
}

/// The MIPS assembly text of an instruction. Registers are given as numbers,
/// and pseudo-instructions (such as NOP) are not recognised.
pub fn disasm_instr(mnemonic: Mnemonic, instr: Instruction) -> (r: String)
    ensures
        r@ == disasm_spec(mnemonic, instr.0),
{
    match mnemonic {
        Mnemonic::ADD | Mnemonic::ADDU | Mnemonic::AND | Mnemonic::NOR | Mnemonic::OR
        | Mnemonic::SLLV | Mnemonic::SLT | Mnemonic::SLTU | Mnemonic::SRAV | Mnemonic::SRLV
        | Mnemonic::SUB | Mnemonic::SUBU | Mnemonic::XOR => disasm_r_instr(mnemonic, instr),
        Mnemonic::ADDI | Mnemonic::ADDIU | Mnemonic::ANDI | Mnemonic::ORI | Mnemonic::SLTI
        | Mnemonic::SLTIU | Mnemonic::XORI => disasm_i_instr(mnemonic, instr),
        Mnemonic::BEQ | Mnemonic::BNE => disasm_hex_branch(mnemonic, instr),
        Mnemonic::BGEZ | Mnemonic::BGEZAL | Mnemonic::BGTZ | Mnemonic::BLEZ | Mnemonic::BLTZ
        | Mnemonic::BLTZAL => disasm_branch_instr(mnemonic, instr),
        Mnemonic::CFCz => disasm_cop_move("CFC", instr),
        Mnemonic::CTCz => disasm_cop_move("CTC", instr),
        Mnemonic::MFCz => disasm_cop_move("MFC", instr),
        Mnemonic::MTCz => disasm_cop_move("MTC", instr),
        Mnemonic::COPz => {
            let mut s = String::from_str("COP");
            s.append(digit_str((instr.op() & 3u8) as u32));
            s.append(" ");
            s.append("0x");
            push_hex(&mut s, instr.0 & 0x01FF_FFFFu32, 8);
            proof {
                let a = "COP"@ + digit(cop_number(instr.0)) + " "@;
                assert(s@ =~= a + "0x"@ + hex_digits((instr.0 & 0x01FF_FFFFu32) as nat, 8));
            }
            s
        },
        Mnemonic::DIV | Mnemonic::DIVU | Mnemonic::MULT | Mnemonic::MULTU => disasm_math_instr(
            mnemonic,
            instr,
        ),
        Mnemonic::J | Mnemonic::JAL => {
            let r = disasm_j_instr(mnemonic, instr);
            assert(r@ =~= disasm_spec(mnemonic, instr.0));
            r
        },
        Mnemonic::JALR => disasm_two_regs(mnemonic, instr.rd(), instr.rs()),
        Mnemonic::JR | Mnemonic::MTHI | Mnemonic::MTLO => disasm_one_reg(mnemonic, instr.rs()),
        Mnemonic::MFHI | Mnemonic::MFLO => disasm_one_reg(mnemonic, instr.rd()),
        Mnemonic::LB | Mnemonic::LBU | Mnemonic::LH | Mnemonic::LHU | Mnemonic::LW | Mnemonic::LWL
        | Mnemonic::LWR | Mnemonic::SB | Mnemonic::SH | Mnemonic::SW | Mnemonic::SWL
        | Mnemonic::SWR => disasm_bus_instr(mnemonic, instr),
        Mnemonic::LUI => disasm_lui(mnemonic, instr),
        Mnemonic::LWCz => disasm_cop_bus("LWC", instr),
        Mnemonic::SWCz => disasm_cop_bus("SWC", instr),
        Mnemonic::SLL | Mnemonic::SRA | Mnemonic::SRL => disasm_shift(mnemonic, instr),
        Mnemonic::BREAK | Mnemonic::SYSCALL | Mnemonic::ILLEGAL => disasm_bare_instr(mnemonic),
    }
}


/// The registers whose values are worth showing beside an instruction.
#[derive(Debug, Eq, PartialEq, Copy, Clone)]
pub enum ReferencedRegisters {
    Nothing,
    One(usize),
    Two(usize, usize),
}

pub open spec fn referenced_spec(m: Mnemonic, w: u32) -> ReferencedRegisters {
    let rs = rs_of(w) as usize;
    let rt = rt_of(w) as usize;
    let rd = rd_of(w) as usize;
    match m {
        Mnemonic::ADD | Mnemonic::ADDU | Mnemonic::AND | Mnemonic::NOR | Mnemonic::OR
        | Mnemonic::SLLV | Mnemonic::SLT | Mnemonic::SLTU | Mnemonic::SRAV | Mnemonic::SRLV
        | Mnemonic::SUB | Mnemonic::SUBU | Mnemonic::XOR => ReferencedRegisters::Two(rt, rs),
        Mnemonic::BEQ | Mnemonic::BNE | Mnemonic::DIV | Mnemonic::DIVU | Mnemonic::MULT
        | Mnemonic::MULTU => ReferencedRegisters::Two(rs, rt),
        Mnemonic::BREAK | Mnemonic::CFCz | Mnemonic::COPz | Mnemonic::CTCz | Mnemonic::J
        | Mnemonic::JAL | Mnemonic::LUI | Mnemonic::MFCz | Mnemonic::MTCz | Mnemonic::SWCz
        | Mnemonic::SYSCALL | Mnemonic::ILLEGAL => ReferencedRegisters::Nothing,
        Mnemonic::MFHI | Mnemonic::MFLO => ReferencedRegisters::One(rd),
        Mnemonic::SLL | Mnemonic::SRA | Mnemonic::SRL => ReferencedRegisters::One(rt),
        _ => ReferencedRegisters::One(rs),
    }
}

/// The source registers an instruction reads, for debugging output.
pub fn get_referenced_registers(mnemonic: Mnemonic, instr: Instruction) -> (r: ReferencedRegisters)
    ensures
        r == referenced_spec(mnemonic, instr.0),
        match r {
            ReferencedRegisters::One(a) => a < 32,
            ReferencedRegisters::Two(a, b) => a < 32 && b < 32,
            ReferencedRegisters::Nothing => true,
        },
{
    let rs = instr.rs() as usize;
    let rt = instr.rt() as usize;
    let rd = instr.rd() as usize;
    match mnemonic {
        Mnemonic::ADD | Mnemonic::ADDU | Mnemonic::AND | Mnemonic::NOR | Mnemonic::OR
        | Mnemonic::SLLV | Mnemonic::SLT | Mnemonic::SLTU | Mnemonic::SRAV | Mnemonic::SRLV
        | Mnemonic::SUB | Mnemonic::SUBU | Mnemonic::XOR => ReferencedRegisters::Two(rt, rs),
        Mnemonic::BEQ | Mnemonic::BNE | Mnemonic::DIV | Mnemonic::DIVU | Mnemonic::MULT
        | Mnemonic::MULTU => ReferencedRegisters::Two(rs, rt),
        Mnemonic::BREAK | Mnemonic::CFCz | Mnemonic::COPz | Mnemonic::CTCz | Mnemonic::J
        | Mnemonic::JAL | Mnemonic::LUI | Mnemonic::MFCz | Mnemonic::MTCz | Mnemonic::SWCz
        | Mnemonic::SYSCALL | Mnemonic::ILLEGAL => ReferencedRegisters::Nothing,
        Mnemonic::MFHI | Mnemonic::MFLO => ReferencedRegisters::One(rd),
        Mnemonic::SLL | Mnemonic::SRA | Mnemonic::SRL => ReferencedRegisters::One(rt),
        _ => ReferencedRegisters::One(rs),
    }
}

/// `n` spaces.
pub open spec fn spaces(n: nat) -> Seq<char>
    decreases n,
{
    if n == 0 {
        Seq::empty()
    } else {
        spaces((n - 1) as nat) + " "@
    }
}

/// `s`, padded with spaces to at least `n` characters.
pub open spec fn pad_to(s: Seq<char>, n: nat) -> Seq<char> {
    if s.len() >= n {
        s
    } else {
        s + spaces((n - s.len()) as nat)
    }
}

/// A register and its value: `$r=0xVVVVVVVV`.
pub open spec fn reg_value_text(r: usize, v: u32) -> Seq<char> {
    "$"@ + dec_digits(r as nat) + "=0x"@ + hex_digits(v as nat, 8)
}

fn push_reg_value(s: &mut String, r: usize, v: u32)
    requires
        r < 32,
    ensures
        final(s)@ == old(s)@ + reg_value_text(r, v),
{
    s.append("$");
    push_dec(s, r as u32);
    s.append("=0x");
    push_hex(s, v, 8);
    assert(s@ =~= old(s)@ + reg_value_text(r, v));
}

/// The disassembly padded to 30 columns, then the values of the registers the
/// instruction reads.
pub open spec fn pprint_spec(m: Mnemonic, w: u32, regs: Seq<u32>) -> Seq<char> {
    let state_str = match referenced_spec(m, w) {
        ReferencedRegisters::Nothing => Seq::empty(),
        ReferencedRegisters::One(a) => reg_value_text(a, regs[a as int]),
        ReferencedRegisters::Two(a, b) => reg_value_text(a, regs[a as int]) + ", "@
            + reg_value_text(b, regs[b as int]),
    };
    pad_to(disasm_spec(m, w), 30) + "; "@ + state_str
}

/// The disassembly of an instruction together with the values of the
/// registers it reads.
pub fn pprint_instr(mnemonic: Mnemonic, instr: Instruction, state: &CpuState) -> (r: String)
    ensures
        r@ == pprint_spec(mnemonic, instr.0, state.registers@),
{
    let mut s = disasm_instr(mnemonic, instr);
    let len = s.as_str().unicode_len();
    if len < 30 {
        let mut k: usize = 0;
        while k < 30 - len
            invariant
                len < 30,
                k <= 30 - len,
                s@ == disasm_spec(mnemonic, instr.0) + spaces(k as nat),
                len == disasm_spec(mnemonic, instr.0).len(),
            decreases 30 - len - k,
        {
            s.append(" ");
            k = k + 1;
        }
    } else {
        assert(s@ =~= disasm_spec(mnemonic, instr.0) + spaces(0));
    }
    assert(s@ == pad_to(disasm_spec(mnemonic, instr.0), 30));
    s.append("; ");
    let ghost head = s@;
    match get_referenced_registers(mnemonic, instr) {
        ReferencedRegisters::Nothing => {
            assert(s@ =~= head + Seq::<char>::empty());
        },
        ReferencedRegisters::One(a) => {
            push_reg_value(&mut s, a, state.registers[a]);
        },
        ReferencedRegisters::Two(a, b) => {
            push_reg_value(&mut s, a, state.registers[a]);
            s.append(", ");
            push_reg_value(&mut s, b, state.registers[b]);
            assert(s@ =~= head + (reg_value_text(a, state.registers@[a as int]) + ", "@
                + reg_value_text(b, state.registers@[b as int])));
        },
    }
    s
}

} // verus!
