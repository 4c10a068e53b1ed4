//! The R3000 execution engine: register file, delay slots and the step.
use vstd::prelude::*;
use vstd::wrapping::u32_specs;
use crate::bus::{BusDevice, SizedData, read_agrees, valid_width};
use crate::cop0::{
    self, Cop0, Cop0Model, CACHE_ISOLATE, cop_instr_spec, exception_entry, exception_vector,
    mfc_spec, mtc_spec,
};
use crate::cpustructs::{
    CpuState, Exception, FatalError, Instruction, MagicAddress, Mnemonic, magic_address_spec,
    imm_of, op_of, rd_of, rs_of, rt_of, shamt_of, target_of, lemma_fields_bounded,
};
use crate::decode::{decode_instruction, decode_spec};
use crate::motherboard::{BoardModel, Motherboard, board_wf, bus_read_spec, bus_write_spec};

verus! {

/// The whole observable CPU state as mathematical values.
pub struct CpuModel {
    pub regs: Seq<u32>,
    pub hi: u32,
    pub lo: u32,
    pub pc: u32,
    pub wait: u32,
    pub next_instruction: (u32, u32),
    pub next_load: (usize, u32),
    pub is_branch_delay: bool,
    pub cycles: u64,
    pub cop0: Cop0Model,
}

/// Well-formed CPU state: 32 registers, the first reading zero, and a pending
/// load that names a register.
pub open spec fn cpu_wf(c: CpuModel) -> bool {
    &&& c.regs.len() == 32
    &&& c.regs[0] == 0
    &&& c.next_load.0 < 32
}

/// The state after writing `v` to register `i`; register 0 stays zero.
pub open spec fn with_reg(c: CpuModel, i: int, v: u32) -> CpuModel {
    CpuModel { regs: c.regs.update(i, v).update(0, 0u32), ..c }
}

/// The CPU of the console.
pub struct CpuR3000 {
    pub state: CpuState,
    pub cycles: u64,
    pub cop0: Cop0,
}

impl View for CpuR3000 {
    type V = CpuModel;

    open spec fn view(&self) -> CpuModel {
        CpuModel {
            regs: self.state.registers@,
            hi: self.state.hi,
            lo: self.state.lo,
            pc: self.state.pc,
            wait: self.state.wait,
            next_instruction: self.state.next_instruction,
            next_load: self.state.next_load,
            is_branch_delay: self.state.is_branch_delay,
            cycles: self.cycles,
            cop0: self.cop0@,
        }
    }
}

/// A device that owns a CPU, such as the motherboard.
pub trait WithCpu {
    fn cpu(&self) -> &CpuR3000;

    fn cpu_mut(&mut self) -> &mut CpuR3000;
}

impl CpuR3000 {
    /// The state of a CPU at power-on.
    pub open spec fn new_spec() -> CpuModel {
        CpuModel {
            regs: Seq::new(32, |_i: int| 0u32),
            hi: 0,
            lo: 0,
            pc: magic_address_spec(MagicAddress::ResetVector),
            wait: 0,
            next_instruction: (0u32, 0u32),
            next_load: (0usize, 0u32),
            is_branch_delay: false,
            cycles: 0,
            cop0: Cop0Model { sr: 0, cause: 0, epc: 0 },
        }
    }

    /// The CPU at power-on: registers, HI and LO zero, PC at the reset vector.
    pub fn new() -> (r: CpuR3000)
        ensures
            r@ == CpuR3000::new_spec(),
            cpu_wf(r@),
    {
        let r = CpuR3000 { state: CpuState::poweron(), cycles: 0, cop0: Cop0::new() };
        assert(r@.regs =~= Seq::new(32, |_i: int| 0u32));
        r
    }
}

/// Write a register; writes to register 0 are discarded.
pub fn write_reg(cpu: &mut CpuR3000, addr: usize, data: u32)
    requires
        addr < 32,
    ensures
        final(cpu)@ == with_reg(old(cpu)@, addr as int, data),
{
    cpu.state.registers[addr] = data;
    cpu.state.registers[0] = 0;
}

/// Read a register.
pub fn get_reg(cpu: &CpuR3000, addr: usize) -> (r: u32)
    requires
        addr < 32,
    ensures
        r == cpu@.regs[addr as int],
{
    cpu.state.registers[addr]
}


/// The 16-bit immediate sign-extended to 32 bits.
pub open spec fn sext16(imm: u16) -> u32 {
    (imm as i16) as u32
}

pub open spec fn rs_val(c: CpuModel, w: u32) -> u32 {
    c.regs[rs_of(w) as int]
}

pub open spec fn rt_val(c: CpuModel, w: u32) -> u32 {
    c.regs[rt_of(w) as int]
}

/// The effective address of a load or store: base register plus signed offset.
pub open spec fn effective_address(c: CpuModel, w: u32) -> u32 {
    u32_specs::wrapping_add(rs_val(c, w), sext16(imm_of(w)))
}

pub open spec fn is_alu_reg(mn: Mnemonic) -> bool {
    match mn {
        Mnemonic::ADDU | Mnemonic::SUBU | Mnemonic::AND | Mnemonic::OR | Mnemonic::XOR
        | Mnemonic::NOR | Mnemonic::SLT | Mnemonic::SLTU | Mnemonic::SLLV | Mnemonic::SRLV
        | Mnemonic::SRAV | Mnemonic::SLL | Mnemonic::SRL | Mnemonic::SRA => true,
        _ => false,
    }
}

/// The result of a register-format operation without overflow trap, from the
/// values of rs and rt and the shift amount.
pub open spec fn alu_reg_value(mn: Mnemonic, a: u32, b: u32, sh: u32) -> u32 {
    match mn {
        Mnemonic::ADDU => u32_specs::wrapping_add(a, b),
        Mnemonic::SUBU => u32_specs::wrapping_sub(a, b),
        Mnemonic::AND => a & b,
        Mnemonic::OR => a | b,
        Mnemonic::XOR => a ^ b,
        Mnemonic::NOR => !(a | b),
        Mnemonic::SLT => if (a as i32) < (b as i32) { 1u32 } else { 0u32 },
        Mnemonic::SLTU => if a < b { 1u32 } else { 0u32 },
        Mnemonic::SLLV => b << (a & 0x1Fu32),
        Mnemonic::SRLV => b >> (a & 0x1Fu32),
        Mnemonic::SRAV => ((b as i32) >> (a & 0x1Fu32)) as u32,
        Mnemonic::SLL => b << sh,
        Mnemonic::SRL => b >> sh,
        Mnemonic::SRA => ((b as i32) >> sh) as u32,
        _ => 0u32,
    }
}

pub open spec fn is_alu_imm(mn: Mnemonic) -> bool {
    match mn {
        Mnemonic::ADDIU | Mnemonic::ANDI | Mnemonic::ORI | Mnemonic::XORI | Mnemonic::SLTI
        | Mnemonic::SLTIU | Mnemonic::LUI => true,
        _ => false,
    }
}

/// The result of an immediate-format operation without overflow trap, from the
/// value of rs and the immediate. Arithmetic and comparisons sign-extend the
/// immediate, logical operations zero-extend it.
pub open spec fn alu_imm_value(mn: Mnemonic, a: u32, imm: u16) -> u32 {
    match mn {
        Mnemonic::ADDIU => u32_specs::wrapping_add(a, sext16(imm)),
        Mnemonic::ANDI => a & (imm as u32),
        Mnemonic::ORI => a | (imm as u32),
        Mnemonic::XORI => a ^ (imm as u32),
        Mnemonic::SLTI => if (a as i32) < (sext16(imm) as i32) { 1u32 } else { 0u32 },
        Mnemonic::SLTIU => if a < sext16(imm) { 1u32 } else { 0u32 },
        Mnemonic::LUI => (imm as u32) << 16u32,
        _ => 0u32,
    }
}

/// The signed sum, or `None` where it does not fit in 32 bits.
pub open spec fn signed_sum(a: i32, b: i32) -> Option<u32> {
    if i32::MIN <= a + b <= i32::MAX {
        Some(((a + b) as i32) as u32)
    } else {
        None
    }
}

/// The signed difference, or `None` where it does not fit in 32 bits.
pub open spec fn signed_difference(a: i32, b: i32) -> Option<u32> {
    if i32::MIN <= a - b <= i32::MAX {
        Some(((a - b) as i32) as u32)
    } else {
        None
    }
}

pub open spec fn abs(x: int) -> int {
    if x < 0 { -x } else { x }
}

/// The quotient rounded toward zero.
pub open spec fn trunc_quot(n: int, d: int) -> int {
    if (n < 0) != (d < 0) { -(abs(n) / abs(d)) } else { abs(n) / abs(d) }
}

/// The remainder of division rounded toward zero; it has the sign of `n`.
pub open spec fn trunc_rem(n: int, d: int) -> int {
    if n < 0 { -(abs(n) % abs(d)) } else { abs(n) % abs(d) }
}

/// (HI, LO) after a signed division of `n` by `d`. Division by zero leaves
/// the numerator in HI and -1 or +1 in LO; INT_MIN / -1 gives INT_MIN.
pub open spec fn div_result(n: u32, d: u32) -> (u32, u32) {
    if (d as i32) == 0 {
        (n, if (n as i32) >= 0 { 0xFFFF_FFFFu32 } else { 1u32 })
    } else if (n as i32) == i32::MIN && (d as i32) == -1 {
        (0u32, 0x8000_0000u32)
    } else {
        (
            trunc_rem(n as i32 as int, d as i32 as int) as u32,
            trunc_quot(n as i32 as int, d as i32 as int) as u32,
        )
    }
}

/// (HI, LO) after an unsigned division; division by zero leaves the numerator
/// in HI and all ones in LO.
pub open spec fn divu_result(n: u32, d: u32) -> (u32, u32) {
    if d == 0 {
        (n, 0xFFFF_FFFFu32)
    } else {
        (n % d, n / d)
    }
}

/// (HI, LO) of the full 64-bit signed product.
pub open spec fn mult_result(a: u32, b: u32) -> (u32, u32) {
    let p = ((a as i32) * (b as i32)) as u64;
    ((p >> 32u64) as u32, p as u32)
}

/// (HI, LO) of the full 64-bit unsigned product.
pub open spec fn multu_result(a: u32, b: u32) -> (u32, u32) {
    let p = (a * b) as u64;
    ((p >> 32u64) as u32, p as u32)
}

/// Whether a conditional branch is taken, given rs and rt.
pub open spec fn branch_taken(mn: Mnemonic, a: u32, b: u32) -> bool {
    match mn {
        Mnemonic::BEQ => a == b,
        Mnemonic::BNE => a != b,
        Mnemonic::BGEZ | Mnemonic::BGEZAL => (a as i32) >= 0,
        Mnemonic::BGTZ => (a as i32) > 0,
        Mnemonic::BLEZ => (a as i32) <= 0,
        _ => (a as i32) < 0,
    }
}

pub open spec fn is_branch(mn: Mnemonic) -> bool {
    match mn {
        Mnemonic::BEQ | Mnemonic::BNE | Mnemonic::BGEZ | Mnemonic::BGEZAL | Mnemonic::BGTZ
        | Mnemonic::BLEZ | Mnemonic::BLTZ | Mnemonic::BLTZAL => true,
        _ => false,
    }
}

/// The PC a taken branch leaves behind: the target minus 4, so that the
/// advance at the end of the step lands on the target.
pub open spec fn branch_pc(pc: u32, imm: u16) -> u32 {
    u32_specs::wrapping_sub(u32_specs::wrapping_add(pc, sext16(imm) << 2u32), 4)
}

/// A conditional branch: the linking forms first write PC to r31; all of them
/// latch the delay slot.
pub open spec fn branch_spec(c: CpuModel, mn: Mnemonic, w: u32) -> CpuModel {
    let c1 = if mn == Mnemonic::BGEZAL || mn == Mnemonic::BLTZAL {
        with_reg(c, 31, c.pc)
    } else {
        c
    };
    let taken = branch_taken(mn, rs_val(c1, w), rt_val(c1, w));
    CpuModel {
        pc: if taken { branch_pc(c1.pc, imm_of(w)) } else { c1.pc },
        is_branch_delay: true,
        ..c1
    }
}

/// The PC a J or JAL leaves behind: the low 28 bits replaced by the target.
pub open spec fn jump_pc(pc: u32, target: u32) -> u32 {
    u32_specs::wrapping_sub((target << 2u32) | (pc & 0xF000_0000u32), 4)
}

pub open spec fn is_jump(mn: Mnemonic) -> bool {
    match mn {
        Mnemonic::J | Mnemonic::JAL | Mnemonic::JR | Mnemonic::JALR => true,
        _ => false,
    }
}

/// A jump: the linking forms first write the address after the delay slot to
/// r31; all of them latch the delay slot.
pub open spec fn jump_spec(c: CpuModel, mn: Mnemonic, w: u32) -> CpuModel {
    let c1 = if mn == Mnemonic::JAL || mn == Mnemonic::JALR {
        with_reg(c, 31, u32_specs::wrapping_add(c.pc, 4))
    } else {
        c
    };
    CpuModel {
        pc: if mn == Mnemonic::J || mn == Mnemonic::JAL {
            jump_pc(c1.pc, target_of(w))
        } else {
            u32_specs::wrapping_sub(rs_val(c1, w), 4)
        },
        is_branch_delay: true,
        ..c1
    }
}

pub open spec fn is_cop(mn: Mnemonic) -> bool {
    match mn {
        Mnemonic::COPz | Mnemonic::MTCz | Mnemonic::MFCz | Mnemonic::CFCz | Mnemonic::CTCz
        | Mnemonic::LWCz | Mnemonic::SWCz => true,
        _ => false,
    }
}

/// A coprocessor instruction. Coprocessor 0 runs its operations and register
/// moves, and has no control registers or loads and stores; coprocessor 2 is
/// not emulated; coprocessors 1 and 3 are unusable.
pub open spec fn cop_spec(c: CpuModel, mn: Mnemonic, w: u32) -> Result<
    (CpuModel, Option<Exception>),
    FatalError,
> {
    let z = op_of(w) & 3u8;
    if z == 2 {
        Err(FatalError::GeometryInstruction(w))
    } else if z != 0 || !(mn == Mnemonic::COPz || mn == Mnemonic::MTCz || mn == Mnemonic::MFCz) {
        Ok((c, Some(Exception::CoprocessorUnusable)))
    } else if mn == Mnemonic::COPz {
        match cop_instr_spec(c.cop0, w) {
            Ok(c0) => Ok((CpuModel { cop0: c0, ..c }, None)),
            Err(e) => Err(e),
        }
    } else if mn == Mnemonic::MTCz {
        match mtc_spec(c.cop0, rd_of(w) as usize, rt_val(c, w)) {
            Ok(c0) => Ok((CpuModel { cop0: c0, ..c }, None)),
            Err(e) => Err(e),
        }
    } else {
        match mfc_spec(c.cop0, rd_of(w) as usize) {
            Ok(v) => Ok((CpuModel { next_load: (rt_of(w) as usize, v), ..c }, None)),
            Err(e) => Err(e),
        }
    }
}

pub open spec fn is_mem_op(mn: Mnemonic) -> bool {
    match mn {
        Mnemonic::LB | Mnemonic::LBU | Mnemonic::LH | Mnemonic::LHU | Mnemonic::LW
        | Mnemonic::LWL | Mnemonic::LWR | Mnemonic::SB | Mnemonic::SH | Mnemonic::SW
        | Mnemonic::SWL | Mnemonic::SWR => true,
        _ => false,
    }
}

/// What an instruction that does not touch the bus does to the CPU: the new
/// state and the exception it raises, if any.
pub open spec fn cpu_op_spec(c: CpuModel, mn: Mnemonic, w: u32) -> Result<
    (CpuModel, Option<Exception>),
    FatalError,
> {
    if is_alu_reg(mn) {
        Ok(
            (
                with_reg(
                    c,
                    rd_of(w) as int,
                    alu_reg_value(mn, rs_val(c, w), rt_val(c, w), shamt_of(w) as u32),
                ),
                None,
            ),
        )
    } else if is_alu_imm(mn) {
        Ok((with_reg(c, rt_of(w) as int, alu_imm_value(mn, rs_val(c, w), imm_of(w))), None))
    } else if is_branch(mn) {
        Ok((branch_spec(c, mn, w), None))
    } else if is_jump(mn) {
        Ok((jump_spec(c, mn, w), None))
    } else if is_cop(mn) {
        cop_spec(c, mn, w)
    } else {
        match mn {
            Mnemonic::ADD | Mnemonic::SUB | Mnemonic::ADDI => {
                let (v, dest) = if mn == Mnemonic::ADD {
                    (signed_sum(rs_val(c, w) as i32, rt_val(c, w) as i32), rd_of(w))
                } else if mn == Mnemonic::SUB {
                    (signed_difference(rs_val(c, w) as i32, rt_val(c, w) as i32), rd_of(w))
                } else {
                    (signed_sum(rs_val(c, w) as i32, sext16(imm_of(w)) as i32), rt_of(w))
                };
                match v {
                    Some(x) => Ok((with_reg(c, dest as int, x), None)),
                    None => Ok((c, Some(Exception::IntegerOverflow))),
                }
            },
            Mnemonic::DIV => {
                let (hi, lo) = div_result(rs_val(c, w), rt_val(c, w));
                Ok((CpuModel { hi, lo, ..c }, None))
            },
            Mnemonic::DIVU => {
                let (hi, lo) = divu_result(rs_val(c, w), rt_val(c, w));
                Ok((CpuModel { hi, lo, ..c }, None))
            },
            Mnemonic::MULT => {
                let (hi, lo) = mult_result(rs_val(c, w), rt_val(c, w));
                Ok((CpuModel { hi, lo, ..c }, None))
            },
            Mnemonic::MULTU => {
                let (hi, lo) = multu_result(rs_val(c, w), rt_val(c, w));
                Ok((CpuModel { hi, lo, ..c }, None))
            },
            Mnemonic::MFHI => Ok((with_reg(c, rd_of(w) as int, c.hi), None)),
            Mnemonic::MFLO => Ok((with_reg(c, rd_of(w) as int, c.lo), None)),
            Mnemonic::MTHI => Ok((CpuModel { hi: rs_val(c, w), ..c }, None)),
            Mnemonic::MTLO => Ok((CpuModel { lo: rs_val(c, w), ..c }, None)),
            Mnemonic::SYSCALL => Ok((c, Some(Exception::Syscall))),
            Mnemonic::BREAK => Ok((c, Some(Exception::Breakpoint))),
            _ => Ok((c, Some(Exception::ReservedInstruction))),
        }
    }
}

pub proof fn lemma_shift_mask(a: u32)
    ensures
        a & 0x1Fu32 < 32,
        a & 3u32 < 4,
{
    assert(a & 0x1Fu32 < 32 && a & 3u32 < 4) by (bit_vector);
}

fn op_alu_reg(cpu: &mut CpuR3000, mn: Mnemonic, instr: Instruction)
    requires
        is_alu_reg(mn),
        cpu_wf(old(cpu)@),
    ensures
        final(cpu)@ == with_reg(
            old(cpu)@,
            rd_of(instr.0) as int,
            alu_reg_value(mn, rs_val(old(cpu)@, instr.0), rt_val(old(cpu)@, instr.0), shamt_of(instr.0) as u32),
        ),
{
    let a = get_reg(cpu, instr.rs() as usize);
    let b = get_reg(cpu, instr.rt() as usize);
    let sh = instr.shamt() as u32;
    proof {
        lemma_shift_mask(a);
    }
    let v: u32 = match mn {
        Mnemonic::ADDU => a.wrapping_add(b),
        Mnemonic::SUBU => a.wrapping_sub(b),
        Mnemonic::AND => a & b,
        Mnemonic::OR => a | b,
        Mnemonic::XOR => a ^ b,
        Mnemonic::NOR => !(a | b),
        Mnemonic::SLT => if (a as i32) < (b as i32) { 1 } else { 0 },
        Mnemonic::SLTU => if a < b { 1 } else { 0 },
        Mnemonic::SLLV => b << (a & 0x1Fu32),
        Mnemonic::SRLV => b >> (a & 0x1Fu32),
        Mnemonic::SRAV => ((b as i32) >> (a & 0x1Fu32)) as u32,
        Mnemonic::SLL => b << sh,
        Mnemonic::SRL => b >> sh,
        Mnemonic::SRA => ((b as i32) >> sh) as u32,
        _ => 0,
    };
    write_reg(cpu, instr.rd() as usize, v);
}

fn op_alu_imm(cpu: &mut CpuR3000, mn: Mnemonic, instr: Instruction)
    requires
        is_alu_imm(mn),
        cpu_wf(old(cpu)@),
    ensures
        final(cpu)@ == with_reg(
            old(cpu)@,
            rt_of(instr.0) as int,
            alu_imm_value(mn, rs_val(old(cpu)@, instr.0), imm_of(instr.0)),
        ),
{
    let a = get_reg(cpu, instr.rs() as usize);
    let imm = instr.immediate();
    let sext = (imm as i16) as u32;
    let v: u32 = match mn {
        Mnemonic::ADDIU => a.wrapping_add(sext),
        Mnemonic::ANDI => a & (imm as u32),
        Mnemonic::ORI => a | (imm as u32),
        Mnemonic::XORI => a ^ (imm as u32),
        Mnemonic::SLTI => if (a as i32) < (sext as i32) { 1 } else { 0 },
        Mnemonic::SLTIU => if a < sext { 1 } else { 0 },
        Mnemonic::LUI => (imm as u32) << 16u32,
        _ => 0,
    };
    write_reg(cpu, instr.rt() as usize, v);
}


/// ADD, SUB and ADDI: signed arithmetic that traps on overflow and then leaves
/// the destination unchanged.
fn op_checked(cpu: &mut CpuR3000, mn: Mnemonic, instr: Instruction) -> (r: Option<Exception>)
    requires
        mn == Mnemonic::ADD || mn == Mnemonic::SUB || mn == Mnemonic::ADDI,
        cpu_wf(old(cpu)@),
    ensures
        cpu_op_spec(old(cpu)@, mn, instr.0) == Ok::<(CpuModel, Option<Exception>), FatalError>(
            (final(cpu)@, r),
        ),
{
    let a = get_reg(cpu, instr.rs() as usize) as i32;
    let (res, dest) = match mn {
        Mnemonic::ADD => (a.checked_add(get_reg(cpu, instr.rt() as usize) as i32), instr.rd()),
        Mnemonic::SUB => (a.checked_sub(get_reg(cpu, instr.rt() as usize) as i32), instr.rd()),
        _ => (a.checked_add(((instr.immediate() as i16) as u32) as i32), instr.rt()),
    };
    match res {
        Some(v) => {
            write_reg(cpu, dest as usize, v as u32);
            None
        },
        None => Some(Exception::IntegerOverflow),
    }
}

fn op_div(cpu: &mut CpuR3000, instr: Instruction)
    requires
        cpu_wf(old(cpu)@),
    ensures
        final(cpu)@ == (CpuModel {
            hi: div_result(rs_val(old(cpu)@, instr.0), rt_val(old(cpu)@, instr.0)).0,
            lo: div_result(rs_val(old(cpu)@, instr.0), rt_val(old(cpu)@, instr.0)).1,
            ..old(cpu)@
        }),
{
    let n = get_reg(cpu, instr.rs() as usize);
    let d = get_reg(cpu, instr.rt() as usize);
    let numerator = n as i32;
    let denominator = d as i32;
    // division by zero does not trap: the CPU leaves garbage in HI and LO
    if denominator == 0 {
        cpu.state.hi = n;
        cpu.state.lo = if numerator >= 0 { 0xFFFF_FFFF } else { 0x0000_0001 };
        return ;
    }
    // INT_MIN / -1 does not fit either
    if numerator == i32::MIN && denominator == -1 {
        cpu.state.hi = 0;
        cpu.state.lo = 0x8000_0000;
        return ;
    }
    let n64 = numerator as i64;
    let d64 = denominator as i64;
    let na: u64 = if n64 < 0 { (-n64) as u64 } else { n64 as u64 };
    let da: u64 = if d64 < 0 { (-d64) as u64 } else { d64 as u64 };
    let q0 = na / da;
    let r0 = na % da;
    assert(q0 <= na && r0 < da) by (nonlinear_arith)
        requires
            q0 == na / da,
            r0 == na % da,
            da > 0,
    ;
    let q: i64 = if (n64 < 0) != (d64 < 0) { -(q0 as i64) } else { q0 as i64 };
    let rem: i64 = if n64 < 0 { -(r0 as i64) } else { r0 as i64 };
    cpu.state.hi = rem as u32;
    cpu.state.lo = q as u32;
}

fn op_divu(cpu: &mut CpuR3000, instr: Instruction)
    requires
        cpu_wf(old(cpu)@),
    ensures
        final(cpu)@ == (CpuModel {
            hi: divu_result(rs_val(old(cpu)@, instr.0), rt_val(old(cpu)@, instr.0)).0,
            lo: divu_result(rs_val(old(cpu)@, instr.0), rt_val(old(cpu)@, instr.0)).1,
            ..old(cpu)@
        }),
{
    let numerator = get_reg(cpu, instr.rs() as usize);
    let denominator = get_reg(cpu, instr.rt() as usize);
    if denominator == 0 {
        cpu.state.hi = numerator;
        cpu.state.lo = 0xFFFF_FFFF;
        return ;
    }
    cpu.state.hi = numerator % denominator;
    cpu.state.lo = numerator / denominator;
}

fn op_mult(cpu: &mut CpuR3000, instr: Instruction, signed: bool)
    requires
        cpu_wf(old(cpu)@),
    ensures
        final(cpu)@ == (CpuModel {
            hi: if signed {
                mult_result(rs_val(old(cpu)@, instr.0), rt_val(old(cpu)@, instr.0)).0
            } else {
                multu_result(rs_val(old(cpu)@, instr.0), rt_val(old(cpu)@, instr.0)).0
            },
            lo: if signed {
                mult_result(rs_val(old(cpu)@, instr.0), rt_val(old(cpu)@, instr.0)).1
            } else {
                multu_result(rs_val(old(cpu)@, instr.0), rt_val(old(cpu)@, instr.0)).1
            },
            ..old(cpu)@
        }),
{
    let a = get_reg(cpu, instr.rs() as usize);
    let b = get_reg(cpu, instr.rt() as usize);
    let v: u64 = if signed {
        let x = (a as i32) as i64;
        let y = (b as i32) as i64;
        assert(-0x4000_0000_0000_0000 <= x * y <= 0x4000_0000_0000_0000) by (nonlinear_arith)
            requires
                -0x8000_0000 <= x <= 0x7FFF_FFFF,
                -0x8000_0000 <= y <= 0x7FFF_FFFF,
        ;
        (x * y) as u64
    } else {
        let x = a as u64;
        let y = b as u64;
        assert(x * y <= 0xFFFF_FFFE_0000_0001) by (nonlinear_arith)
            requires
                x <= 0xFFFF_FFFF,
                y <= 0xFFFF_FFFF,
        ;
        x * y
    };
    cpu.state.hi = (v >> 32u64) as u32;
    cpu.state.lo = v as u32;
}

fn op_branch(cpu: &mut CpuR3000, mn: Mnemonic, instr: Instruction)
    requires
        is_branch(mn),
        cpu_wf(old(cpu)@),
    ensures
        final(cpu)@ == branch_spec(old(cpu)@, mn, instr.0),
{
    let link = match mn {
        Mnemonic::BGEZAL | Mnemonic::BLTZAL => true,
        _ => false,
    };
    if link {
        // the link register is written before the comparison
        let pc = cpu.state.pc;
        write_reg(cpu, 31, pc);
    }
    let a = get_reg(cpu, instr.rs() as usize);
    let b = get_reg(cpu, instr.rt() as usize);
    let taken = match mn {
        Mnemonic::BEQ => a == b,
        Mnemonic::BNE => a != b,
        Mnemonic::BGEZ | Mnemonic::BGEZAL => (a as i32) >= 0,
        Mnemonic::BGTZ => (a as i32) > 0,
        Mnemonic::BLEZ => (a as i32) <= 0,
        _ => (a as i32) < 0,
    };
    if taken {
        branch(cpu, instr.immediate());
    }
    cpu.state.is_branch_delay = true;
}

/// Point PC at the branch target minus 4, correcting for the advance at the
/// end of the step.
fn branch(cpu: &mut CpuR3000, offset: u16)
    ensures
        final(cpu)@ == (CpuModel { pc: branch_pc(old(cpu)@.pc, offset), ..old(cpu)@ }),
{
    let sext = (offset as i16) as u32;
    let new_pc = cpu.state.pc.wrapping_add(sext << 2u32);
    cpu.state.pc = new_pc.wrapping_sub(4);
}

fn op_jump(cpu: &mut CpuR3000, mn: Mnemonic, instr: Instruction)
    requires
        is_jump(mn),
        cpu_wf(old(cpu)@),
    ensures
        final(cpu)@ == jump_spec(old(cpu)@, mn, instr.0),
{
    let link = match mn {
        Mnemonic::JAL | Mnemonic::JALR => true,
        _ => false,
    };
    if link {
        // r31 receives the address after the delay slot
        let pc = cpu.state.pc;
        write_reg(cpu, 31, pc.wrapping_add(4));
    }
    match mn {
        Mnemonic::J | Mnemonic::JAL => {
            let target = instr.target() << 2u32;
            // keep the four most significant bits of the PC
            let new_pc = target | (cpu.state.pc & 0xF000_0000u32);
            cpu.state.pc = new_pc.wrapping_sub(4);
        },
        _ => {
            let jmp_to = get_reg(cpu, instr.rs() as usize);
            cpu.state.pc = jmp_to.wrapping_sub(4);
        },
    }
    cpu.state.is_branch_delay = true;
}

fn op_cop(cpu: &mut CpuR3000, mn: Mnemonic, instr: Instruction) -> (r: Result<
    Option<Exception>,
    FatalError,
>)
    requires
        is_cop(mn),
        cpu_wf(old(cpu)@),
    ensures
        match cop_spec(old(cpu)@, mn, instr.0) {
            Ok((c, e)) => r == Ok::<Option<Exception>, FatalError>(e) && final(cpu)@ == c,
            Err(e) => r == Err::<Option<Exception>, FatalError>(e),
        },
{
    let coproc = instr.op() & 3u8;
    if coproc == 2 {
        return Err(FatalError::GeometryInstruction(instr.0));
    }
    let is_cop0_move = match mn {
        Mnemonic::COPz | Mnemonic::MTCz | Mnemonic::MFCz => true,
        _ => false,
    };
    if coproc != 0 || !is_cop0_move {
        // CFC, CTC, LWC and SWC are invalid on coprocessor 0, and
        // coprocessors 1 and 3 do not exist
        return Ok(Some(Exception::CoprocessorUnusable));
    }
    if let Mnemonic::COPz = mn {
        match cop0::handle_cop_instr(cpu, instr) {
            Ok(()) => Ok(None),
            Err(e) => Err(e),
        }
    } else if let Mnemonic::MTCz = mn {
        let data = get_reg(cpu, instr.rt() as usize);
        match cpu.cop0.mtc(instr.rd() as usize, data) {
            Ok(()) => Ok(None),
            Err(e) => Err(e),
        }
    } else {
        match cpu.cop0.mfc(instr.rd() as usize) {
            Ok(v) => {
                // moves from a coprocessor are delayed like loads
                cpu.state.next_load = (instr.rt() as usize, v);
                Ok(None)
            },
            Err(e) => Err(e),
        }
    }
}


fn cpu_op(cpu: &mut CpuR3000, mn: Mnemonic, instr: Instruction) -> (r: Result<
    Option<Exception>,
    FatalError,
>)
    requires
        !is_mem_op(mn),
        cpu_wf(old(cpu)@),
    ensures
        match cpu_op_spec(old(cpu)@, mn, instr.0) {
            Ok((c, e)) => r == Ok::<Option<Exception>, FatalError>(e) && final(cpu)@ == c,
            Err(e) => r == Err::<Option<Exception>, FatalError>(e),
        },
{
    match mn {
        Mnemonic::ADDU | Mnemonic::SUBU | Mnemonic::AND | Mnemonic::OR | Mnemonic::XOR
        | Mnemonic::NOR | Mnemonic::SLT | Mnemonic::SLTU | Mnemonic::SLLV | Mnemonic::SRLV
        | Mnemonic::SRAV | Mnemonic::SLL | Mnemonic::SRL | Mnemonic::SRA => {
            op_alu_reg(cpu, mn, instr);
            Ok(None)
        },
        Mnemonic::ADDIU | Mnemonic::ANDI | Mnemonic::ORI | Mnemonic::XORI | Mnemonic::SLTI
        | Mnemonic::SLTIU | Mnemonic::LUI => {
            op_alu_imm(cpu, mn, instr);
            Ok(None)
        },
        Mnemonic::BEQ | Mnemonic::BNE | Mnemonic::BGEZ | Mnemonic::BGEZAL | Mnemonic::BGTZ
        | Mnemonic::BLEZ | Mnemonic::BLTZ | Mnemonic::BLTZAL => {
            op_branch(cpu, mn, instr);
            Ok(None)
        },
        Mnemonic::J | Mnemonic::JAL | Mnemonic::JR | Mnemonic::JALR => {
            op_jump(cpu, mn, instr);
            Ok(None)
        },
        Mnemonic::COPz | Mnemonic::MTCz | Mnemonic::MFCz | Mnemonic::CFCz | Mnemonic::CTCz
        | Mnemonic::LWCz | Mnemonic::SWCz => op_cop(cpu, mn, instr),
        Mnemonic::ADD | Mnemonic::SUB | Mnemonic::ADDI => Ok(op_checked(cpu, mn, instr)),
        Mnemonic::DIV => {
            op_div(cpu, instr);
            Ok(None)
        },
        Mnemonic::DIVU => {
            op_divu(cpu, instr);
            Ok(None)
        },
        Mnemonic::MULT => {
            op_mult(cpu, instr, true);
            Ok(None)
        },
        Mnemonic::MULTU => {
            op_mult(cpu, instr, false);
            Ok(None)
        },
        Mnemonic::MFHI => {
            let v = cpu.state.hi;
            write_reg(cpu, instr.rd() as usize, v);
            Ok(None)
        },
        Mnemonic::MFLO => {
            let v = cpu.state.lo;
            write_reg(cpu, instr.rd() as usize, v);
            Ok(None)
        },
        Mnemonic::MTHI => {
            cpu.state.hi = get_reg(cpu, instr.rs() as usize);
            Ok(None)
        },
        Mnemonic::MTLO => {
            cpu.state.lo = get_reg(cpu, instr.rs() as usize);
            Ok(None)
        },
        Mnemonic::SYSCALL => Ok(Some(Exception::Syscall)),
        Mnemonic::BREAK => Ok(Some(Exception::Breakpoint)),
        _ => Ok(Some(Exception::ReservedInstruction)),
    }
}

pub open spec fn is_load(mn: Mnemonic) -> bool {
    match mn {
        Mnemonic::LB | Mnemonic::LBU | Mnemonic::LH | Mnemonic::LHU | Mnemonic::LW => true,
        _ => false,
    }
}

pub open spec fn access_width(mn: Mnemonic) -> nat {
    match mn {
        Mnemonic::LB | Mnemonic::LBU | Mnemonic::SB => 1,
        Mnemonic::LH | Mnemonic::LHU | Mnemonic::SH => 2,
        _ => 4,
    }
}

/// The value a load deposits: signed forms sign-extend, unsigned forms
/// zero-extend.
pub open spec fn load_value(mn: Mnemonic, v: u32) -> u32 {
    match mn {
        Mnemonic::LB => ((v as u8) as i8) as u32,
        Mnemonic::LH => ((v as u16) as i16) as u32,
        _ => v,
    }
}

/// The value a store writes: the low byte, half-word or the whole word.
pub open spec fn store_value(mn: Mnemonic, v: u32) -> u32 {
    match mn {
        Mnemonic::SB => ((v & 0xFFu32) as u8) as u32,
        Mnemonic::SH => ((v & 0xFFFFu32) as u16) as u32,
        _ => v,
    }
}

/// The word of an unaligned left access: the high bytes of `cur` replaced by
/// the low bytes of `part`, according to the byte offset `k`.
pub open spec fn merge_left(cur: u32, part: u32, k: u32) -> u32 {
    if k == 0 {
        (cur & 0x00FF_FFFFu32) | (part << 24u32)
    } else if k == 1 {
        (cur & 0x0000_FFFFu32) | (part << 16u32)
    } else if k == 2 {
        (cur & 0x0000_00FFu32) | (part << 8u32)
    } else {
        (cur & 0x0000_0000u32) | part
    }
}

/// The word of an unaligned right access: the low bytes of `cur` replaced by
/// the high bytes of `part`, according to the byte offset `k`.
pub open spec fn merge_right(cur: u32, part: u32, k: u32) -> u32 {
    if k == 0 {
        (cur & 0x0000_0000u32) | part
    } else if k == 1 {
        (cur & 0xFF00_0000u32) | (part >> 8u32)
    } else if k == 2 {
        (cur & 0xFFFF_0000u32) | (part >> 16u32)
    } else {
        (cur & 0xFFFF_FF00u32) | (part >> 24u32)
    }
}

pub open spec fn cache_isolated(c: CpuModel) -> bool {
    c.cop0.sr & CACHE_ISOLATE != 0
}

/// What a load or store does to the machine. Loads deposit a pending load;
/// LWL and LWR write their register at once; stores are dropped while the
/// cache is isolated.
pub open spec fn mem_op_spec(b: BoardModel, mn: Mnemonic, w: u32) -> Result<BoardModel, FatalError> {
    let c = b.cpu;
    let addr = effective_address(c, w);
    let aligned = addr & 0xFFFF_FFFCu32;
    let k = addr & 3u32;
    if is_load(mn) {
        match bus_read_spec(b, access_width(mn), addr) {
            Ok(v) => Ok(
                BoardModel {
                    cpu: CpuModel { next_load: (rt_of(w) as usize, load_value(mn, v)), ..c },
                    ..b
                },
            ),
            Err(e) => Err(e),
        }
    } else if mn == Mnemonic::LWL || mn == Mnemonic::LWR {
        match bus_read_spec(b, 4, aligned) {
            Ok(m) => Ok(
                BoardModel {
                    cpu: with_reg(
                        c,
                        rt_of(w) as int,
                        if mn == Mnemonic::LWL {
                            merge_left(rt_val(c, w), m, k)
                        } else {
                            merge_right(rt_val(c, w), m, k)
                        },
                    ),
                    ..b
                },
            ),
            Err(e) => Err(e),
        }
    } else if cache_isolated(c) {
        Ok(b)
    } else if mn == Mnemonic::SWL || mn == Mnemonic::SWR {
        match bus_read_spec(b, 4, aligned) {
            Ok(m) => match bus_write_spec(
                b,
                4,
                aligned,
                if mn == Mnemonic::SWL {
                    merge_left(m, rt_val(c, w), k)
                } else {
                    merge_right(m, rt_val(c, w), k)
                },
            ) {
                Ok(ram) => Ok(BoardModel { ram, ..b }),
                Err(e) => Err(e),
            },
            Err(e) => Err(e),
        }
    } else {
        match bus_write_spec(b, access_width(mn), addr, store_value(mn, rt_val(c, w))) {
            Ok(ram) => Ok(BoardModel { ram, ..b }),
            Err(e) => Err(e),
        }
    }
}

/// What executing one decoded instruction does to the machine: the new state
/// and the exception raised, if any.
pub open spec fn execute_spec(b: BoardModel, mn: Mnemonic, w: u32) -> Result<
    (BoardModel, Option<Exception>),
    FatalError,
> {
    if is_mem_op(mn) {
        match mem_op_spec(b, mn, w) {
            Ok(b2) => Ok((b2, None)),
            Err(e) => Err(e),
        }
    } else {
        match cpu_op_spec(b.cpu, mn, w) {
            Ok((c, e)) => Ok((BoardModel { cpu: c, ..b }, e)),
            Err(e) => Err(e),
        }
    }
}

/// Read a datum through the bus.
fn read<D: SizedData>(mb: &mut Motherboard, addr: u32) -> (r: Result<D, FatalError>)
    ensures
        read_agrees(r, bus_read_spec(old(mb)@, D::spec_width(), addr)),
        final(mb)@ == old(mb)@,
{
    mb.read::<D>(addr)
}

/// Write a datum through the bus, unless the cache is isolated.
fn write<D: SizedData>(mb: &mut Motherboard, addr: u32, data: D) -> (r: Result<(), FatalError>)
    ensures
        if cache_isolated(old(mb)@.cpu) {
            r is Ok && final(mb)@ == old(mb)@
        } else {
            match bus_write_spec(old(mb)@, D::spec_width(), addr, data.spec_value()) {
                Ok(ram) => r is Ok && final(mb)@ == BoardModel { ram, ..old(mb)@ },
                Err(e) => r == Err::<(), FatalError>(e),
            }
        },
{
    if mb.cpu.cop0.is_cache_isolated() {
        // the data cache is not emulated: isolated stores go nowhere
        return Ok(());
    }
    mb.write(addr, data)
}

fn op_load(mb: &mut Motherboard, mn: Mnemonic, instr: Instruction) -> (r: Result<(), FatalError>)
    requires
        is_load(mn),
        board_wf(old(mb)@),
    ensures
        match mem_op_spec(old(mb)@, mn, instr.0) {
            Ok(b) => r is Ok && final(mb)@ == b,
            Err(e) => r == Err::<(), FatalError>(e),
        },
{
    let base = get_reg(&mb.cpu, instr.rs() as usize);
    let addr = base.wrapping_add((instr.immediate() as i16) as u32);
    let data: u32 = match mn {
        Mnemonic::LB => match read::<u8>(mb, addr) {
            Ok(v) => (v as i8) as u32,
            Err(e) => return Err(e),
        },
        Mnemonic::LBU => match read::<u8>(mb, addr) {
            Ok(v) => v as u32,
            Err(e) => return Err(e),
        },
        Mnemonic::LH => match read::<u16>(mb, addr) {
            Ok(v) => (v as i16) as u32,
            Err(e) => return Err(e),
        },
        Mnemonic::LHU => match read::<u16>(mb, addr) {
            Ok(v) => v as u32,
            Err(e) => return Err(e),
        },
        _ => match read::<u32>(mb, addr) {
            Ok(v) => v,
            Err(e) => return Err(e),
        },
    };
    mb.cpu.state.next_load = (instr.rt() as usize, data);
    Ok(())
}

/// LWL and LWR: merge the aligned word into the register, without load delay.
fn op_load_unaligned(mb: &mut Motherboard, mn: Mnemonic, instr: Instruction) -> (r: Result<
    (),
    FatalError,
>)
    requires
        mn == Mnemonic::LWL || mn == Mnemonic::LWR,
        board_wf(old(mb)@),
    ensures
        match mem_op_spec(old(mb)@, mn, instr.0) {
            Ok(b) => r is Ok && final(mb)@ == b,
            Err(e) => r == Err::<(), FatalError>(e),
        },
{
    let base = get_reg(&mb.cpu, instr.rs() as usize);
    let addr = base.wrapping_add((instr.immediate() as i16) as u32);
    let target = instr.rt() as usize;
    let current = get_reg(&mb.cpu, target);
    let word = match read::<u32>(mb, addr & 0xFFFF_FFFCu32) {
        Ok(v) => v,
        Err(e) => return Err(e),
    };
    let k = addr & 3u32;
    let new_val = if let Mnemonic::LWL = mn {
        if k == 0 {
            (current & 0x00FF_FFFFu32) | (word << 24u32)
        } else if k == 1 {
            (current & 0x0000_FFFFu32) | (word << 16u32)
        } else if k == 2 {
            (current & 0x0000_00FFu32) | (word << 8u32)
        } else {
            (current & 0x0000_0000u32) | word
        }
    } else {
        if k == 0 {
            (current & 0x0000_0000u32) | word
        } else if k == 1 {
            (current & 0xFF00_0000u32) | (word >> 8u32)
        } else if k == 2 {
            (current & 0xFFFF_0000u32) | (word >> 16u32)
        } else {
            (current & 0xFFFF_FF00u32) | (word >> 24u32)
        }
    };
    write_reg(&mut mb.cpu, target, new_val);
    Ok(())
}

fn op_store(mb: &mut Motherboard, mn: Mnemonic, instr: Instruction) -> (r: Result<(), FatalError>)
    requires
        mn == Mnemonic::SB || mn == Mnemonic::SH || mn == Mnemonic::SW,
        board_wf(old(mb)@),
    ensures
        match mem_op_spec(old(mb)@, mn, instr.0) {
            Ok(b) => r is Ok && final(mb)@ == b,
            Err(e) => r == Err::<(), FatalError>(e),
        },
{
    let base = get_reg(&mb.cpu, instr.rs() as usize);
    let addr = base.wrapping_add((instr.immediate() as i16) as u32);
    let v = get_reg(&mb.cpu, instr.rt() as usize);
    match mn {
        Mnemonic::SB => write::<u8>(mb, addr, (v & 0xFFu32) as u8),
        Mnemonic::SH => write::<u16>(mb, addr, (v & 0xFFFFu32) as u16),
        _ => write::<u32>(mb, addr, v),
    }
}

/// SWL and SWR: merge the register into the aligned word in memory.
fn op_store_unaligned(mb: &mut Motherboard, mn: Mnemonic, instr: Instruction) -> (r: Result<
    (),
    FatalError,
>)
    requires
        mn == Mnemonic::SWL || mn == Mnemonic::SWR,
        board_wf(old(mb)@),
    ensures
        match mem_op_spec(old(mb)@, mn, instr.0) {
            Ok(b) => r is Ok && final(mb)@ == b,
            Err(e) => r == Err::<(), FatalError>(e),
        },
{
    if mb.cpu.cop0.is_cache_isolated() {
        return Ok(());
    }
    let base = get_reg(&mb.cpu, instr.rs() as usize);
    let addr = base.wrapping_add((instr.immediate() as i16) as u32);
    let reg = get_reg(&mb.cpu, instr.rt() as usize);
    let current = match read::<u32>(mb, addr & 0xFFFF_FFFCu32) {
        Ok(v) => v,
        Err(e) => return Err(e),
    };
    let k = addr & 3u32;
    let new_val = if let Mnemonic::SWL = mn {
        if k == 0 {
            (current & 0x00FF_FFFFu32) | (reg << 24u32)
        } else if k == 1 {
            (current & 0x0000_FFFFu32) | (reg << 16u32)
        } else if k == 2 {
            (current & 0x0000_00FFu32) | (reg << 8u32)
        } else {
            (current & 0x0000_0000u32) | reg
        }
    } else {
        if k == 0 {
            (current & 0x0000_0000u32) | reg
        } else if k == 1 {
            (current & 0xFF00_0000u32) | (reg >> 8u32)
        } else if k == 2 {
            (current & 0xFFFF_0000u32) | (reg >> 16u32)
        } else {
            (current & 0xFFFF_FF00u32) | (reg >> 24u32)
        }
    };
    write::<u32>(mb, addr & 0xFFFF_FFFCu32, new_val)
}

/// Run the handler of a decoded instruction.
fn match_handler(mb: &mut Motherboard, mnemonic: Mnemonic, instr: Instruction) -> (r: Result<
    Option<Exception>,
    FatalError,
>)
    requires
        board_wf(old(mb)@),
    ensures
        match execute_spec(old(mb)@, mnemonic, instr.0) {
            Ok((b, e)) => r == Ok::<Option<Exception>, FatalError>(e) && final(mb)@ == b,
            Err(e) => r == Err::<Option<Exception>, FatalError>(e),
        },
{
    let res = match mnemonic {
        Mnemonic::LB | Mnemonic::LBU | Mnemonic::LH | Mnemonic::LHU | Mnemonic::LW => op_load(
            mb,
            mnemonic,
            instr,
        ),
        Mnemonic::LWL | Mnemonic::LWR => op_load_unaligned(mb, mnemonic, instr),
        Mnemonic::SB | Mnemonic::SH | Mnemonic::SW => op_store(mb, mnemonic, instr),
        Mnemonic::SWL | Mnemonic::SWR => op_store_unaligned(mb, mnemonic, instr),
        _ => return cpu_op(&mut mb.cpu, mnemonic, instr),
    };
    match res {
        Ok(()) => Ok(None),
        Err(e) => Err(e),
    }
}


/// The state after the instruction finished: PC advanced and one more cycle.
pub open spec fn retire(c: CpuModel) -> CpuModel {
    CpuModel {
        pc: u32_specs::wrapping_add(c.pc, 4),
        cycles: vstd::wrapping::u64_specs::wrapping_add(c.cycles, 1),
        ..c
    }
}

/// The CPU after the first half of a step: the fetched word is pending, the
/// branch-delay latch is clear and the pending load has been written back.
pub open spec fn fetch_stage(c: CpuModel, fetched: u32) -> CpuModel {
    with_reg(
        CpuModel {
            next_instruction: (fetched, c.pc),
            is_branch_delay: false,
            next_load: (0usize, 0u32),
            ..c
        },
        c.next_load.0 as int,
        c.next_load.1,
    )
}

/// One step of the engine. The pending instruction becomes current and the
/// word at PC is fetched as the new pending one; the branch-delay latch is
/// cleared and the pending load is written back; then the current instruction
/// runs. On success PC advances by 4. On an exception the pending load is
/// dropped, coprocessor 0 enters the exception, and the word at the vector
/// becomes the pending instruction with PC just past it.
pub open spec fn step_spec(b: BoardModel) -> Result<BoardModel, FatalError> {
    let c = b.cpu;
    let cur_word = c.next_instruction.0;
    let cur_pc = c.next_instruction.1;
    match bus_read_spec(b, 4, c.pc) {
        Err(e) => Err(e),
        Ok(fetched) => {
            let c1 = fetch_stage(c, fetched);
            match decode_spec(cur_word) {
                Err(e) => Err(e),
                Ok(mn) => match execute_spec(BoardModel { cpu: c1, ..b }, mn, cur_word) {
                    Err(e) => Err(e),
                    Ok((b2, None)) => Ok(BoardModel { cpu: retire(b2.cpu), ..b2 }),
                    Ok((b2, Some(exc))) => {
                        let c3 = CpuModel {
                            cycles: vstd::wrapping::u64_specs::wrapping_add(b2.cpu.cycles, 1),
                            next_load: (0usize, 0u32),
                            cop0: exception_entry(b2.cpu.cop0, exc, cur_pc, c.is_branch_delay),
                            ..b2.cpu
                        };
                        let vector = exception_vector(exc, c3.cop0.sr);
                        match bus_read_spec(BoardModel { cpu: c3, ..b2 }, 4, vector) {
                            Err(e) => Err(e),
                            Ok(word) => Ok(
                                BoardModel {
                                    cpu: CpuModel {
                                        next_instruction: (word, vector),
                                        pc: u32_specs::wrapping_add(vector, 4),
                                        ..c3
                                    },
                                    ..b2
                                },
                            ),
                        }
                    },
                },
            }
        },
    }
}

/// A store keeps the size of RAM.
proof fn lemma_write_keeps_len(b: BoardModel, w: nat, addr: u32, v: u32)
    requires
        valid_width(w),
        bus_write_spec(b, w, addr, v) is Ok,
    ensures
        bus_write_spec(b, w, addr, v)->Ok_0.len() == b.ram.len(),
{
    lemma_le_bytes_len(v, w);
}

proof fn lemma_le_bytes_len(v: u32, w: nat)
    requires
        valid_width(w),
    ensures
        crate::bus::le_bytes(v, w).len() == w,
{
}

/// Register 0 reads zero, RAM and BIOS keep their sizes and a pending load
/// names a register, after every step that does not stop the machine.
pub proof fn lemma_step_preserves_wf(b: BoardModel)
    requires
        board_wf(b),
        step_spec(b) is Ok,
    ensures
        board_wf(step_spec(b)->Ok_0),
        step_spec(b)->Ok_0.cpu.regs[0] == 0,
{
    let c = b.cpu;
    let fetched = bus_read_spec(b, 4, c.pc)->Ok_0;
    let c1 = fetch_stage(c, fetched);
    let b1 = BoardModel { cpu: c1, ..b };
    assert(board_wf(b1));
    let mn = decode_spec(c.next_instruction.0)->Ok_0;
    let w = c.next_instruction.0;
    lemma_fields_bounded(w);
    let addr = effective_address(c1, w);
    let aligned = addr & 0xFFFF_FFFCu32;
    let k = addr & 3u32;
    if is_mem_op(mn) {
        if !is_load(mn) && !(mn == Mnemonic::LWL || mn == Mnemonic::LWR) && !cache_isolated(c1) {
            if mn == Mnemonic::SWL || mn == Mnemonic::SWR {
                let m = bus_read_spec(b1, 4, aligned)->Ok_0;
                let nv = if mn == Mnemonic::SWL {
                    merge_left(m, rt_val(c1, w), k)
                } else {
                    merge_right(m, rt_val(c1, w), k)
                };
                lemma_write_keeps_len(b1, 4, aligned, nv);
            } else {
                lemma_write_keeps_len(b1, access_width(mn), addr, store_value(mn, rt_val(c1, w)));
            }
        }
    }
}

/// Burn a wait cycle if the CPU has to wait, and return whether it is in sync.
pub fn tick(mb: &mut Motherboard) -> (r: bool)
    ensures
        r == (old(mb)@.cpu.wait == 0),
        final(mb)@ == if r {
            old(mb)@
        } else {
            BoardModel {
                cpu: CpuModel { wait: (old(mb)@.cpu.wait - 1) as u32, ..old(mb)@.cpu },
                ..old(mb)@
            }
        },
{
    if mb.cpu.state.wait > 0 {
        mb.cpu.state.wait = mb.cpu.state.wait - 1;
        return false;
    }
    true
}

/// Advance the CPU by one instruction.
pub fn exec(mb: &mut Motherboard) -> (r: Result<(), FatalError>)
    requires
        board_wf(old(mb)@),
    ensures
        match step_spec(old(mb)@) {
            Ok(b) => r is Ok && final(mb)@ == b && board_wf(b),
            Err(e) => r == Err::<(), FatalError>(e),
        },
{
    let (cur_instruction, cur_pc) = mb.cpu.state.next_instruction;
    let next_pc = mb.cpu.state.pc;
    let is_in_delay_slot = mb.cpu.state.is_branch_delay;
    let ghost b0 = mb@;
    // queue the next instruction, which sits in the delay slot of a branch
    let next_instruction = match read::<u32>(mb, next_pc) {
        Ok(v) => v,
        Err(e) => return Err(e),
    };
    mb.cpu.state.next_instruction = (next_instruction, next_pc);
    mb.cpu.state.is_branch_delay = false;
    // write back the pending load, after the fetch and before the execute
    let (reg_idx, val) = mb.cpu.state.next_load;
    mb.cpu.state.next_load = (0, 0);
    write_reg(&mut mb.cpu, reg_idx, val);
    let (mnemonic, instruction) = match decode_instruction(cur_instruction) {
        Ok(d) => d,
        Err(e) => return Err(e),
    };
    let res = match match_handler(mb, mnemonic, instruction) {
        Ok(x) => x,
        Err(e) => return Err(e),
    };
    mb.cpu.cycles = mb.cpu.cycles.wrapping_add(1);
    match res {
        None => {
            mb.cpu.state.pc = mb.cpu.state.pc.wrapping_add(4);
        },
        Some(exc) => {
            // the pipeline is flushed, and coprocessor 0 picks the vector
            mb.cpu.state.next_load = (0, 0);
            let exc_addr = cop0::handle_exception(&mut mb.cpu, exc, cur_pc, is_in_delay_slot);
            let exc_instr = match read::<u32>(mb, exc_addr) {
                Ok(v) => v,
                Err(e) => return Err(e),
            };
            mb.cpu.state.next_instruction = (exc_instr, exc_addr);
            mb.cpu.state.pc = exc_addr.wrapping_add(4);
        },
    }
    proof {
        lemma_step_preserves_wf(b0);
    }
    Ok(())
}


/// Register 0 reads zero after any write to any register.
pub proof fn lemma_register_zero_reads_zero(c: CpuModel, i: int, v: u32)
    requires
        cpu_wf(c),
        0 <= i < 32,
    ensures
        with_reg(c, i, v).regs[0] == 0,
        cpu_wf(with_reg(c, i, v)),
{
}

proof fn lemma_wrapping_aligned(x: u32, y: u32)
    requires
        x % 4 == 0,
        y % 4 == 0,
    ensures
        u32_specs::wrapping_add(x, y) % 4 == 0,
        u32_specs::wrapping_sub(x, y) % 4 == 0,
{
}

proof fn lemma_targets_aligned(v: u32, t: u32, pc: u32)
    ensures
        (v << 2u32) % 4 == 0,
        ((t << 2u32) | (pc & 0xF000_0000u32)) % 4 == 0,
{
    assert((v << 2u32) % 4 == 0 && ((t << 2u32) | (pc & 0xF000_0000u32)) % 4 == 0) by (bit_vector);
}

/// The address a JR or JALR jumps to in this step: rs after the pending load
/// is written back (and, for JALR, after r31 is written).
pub open spec fn jump_register_target(b: BoardModel) -> u32 {
    let w = b.cpu.next_instruction.0;
    let c1 = fetch_stage(b.cpu, bus_read_spec(b, 4, b.cpu.pc)->Ok_0);
    if decode_spec(w) == Ok::<Mnemonic, FatalError>(Mnemonic::JALR) {
        rs_val(with_reg(c1, 31, u32_specs::wrapping_add(c1.pc, 4)), w)
    } else {
        rs_val(c1, w)
    }
}

/// After every step PC is a multiple of 4, unless the step ran a JR or JALR
/// to an unaligned register value (such a jump raises no exception here).
pub proof fn lemma_step_keeps_pc_aligned(b: BoardModel)
    requires
        board_wf(b),
        step_spec(b) is Ok,
        decode_spec(b.cpu.next_instruction.0) == Ok::<Mnemonic, FatalError>(Mnemonic::JR)
            || decode_spec(b.cpu.next_instruction.0) == Ok::<Mnemonic, FatalError>(Mnemonic::JALR)
            ==> jump_register_target(b) % 4 == 0,
    ensures
        step_spec(b)->Ok_0.cpu.pc % 4 == 0,
{
    let c = b.cpu;
    let w = c.next_instruction.0;
    let fetched = bus_read_spec(b, 4, c.pc)->Ok_0;
    let c1 = fetch_stage(c, fetched);
    let b1 = BoardModel { cpu: c1, ..b };
    let mn = decode_spec(w)->Ok_0;
    assert(c.pc % 4 == 0);
    assert(c1.pc == c.pc);
    lemma_fields_bounded(w);
    match execute_spec(b1, mn, w)->Ok_0 {
        (b2, None) => {
            assert(b2.cpu.pc % 4 == 0) by {
                if is_mem_op(mn) {
                } else if is_branch(mn) {
                    let c2 = if mn == Mnemonic::BGEZAL || mn == Mnemonic::BLTZAL {
                        with_reg(c1, 31, c1.pc)
                    } else {
                        c1
                    };
                    lemma_targets_aligned(sext16(imm_of(w)), 0, 0);
                    lemma_wrapping_aligned(c2.pc, sext16(imm_of(w)) << 2u32);
                    lemma_wrapping_aligned(u32_specs::wrapping_add(c2.pc, sext16(imm_of(w)) << 2u32), 4);
                } else if is_jump(mn) {
                    let c2 = if mn == Mnemonic::JAL || mn == Mnemonic::JALR {
                        with_reg(c1, 31, u32_specs::wrapping_add(c1.pc, 4))
                    } else {
                        c1
                    };
                    lemma_targets_aligned(0, target_of(w), c2.pc);
                    lemma_wrapping_aligned((target_of(w) << 2u32) | (c2.pc & 0xF000_0000u32), 4);
                    if mn == Mnemonic::JR || mn == Mnemonic::JALR {
                        assert(rs_val(c2, w) == jump_register_target(b));
                        lemma_wrapping_aligned(rs_val(c2, w), 4);
                    }
                }
            }
            lemma_wrapping_aligned(b2.cpu.pc, 4);
        },
        (b2, Some(exc)) => {
            let sr = exception_entry(b2.cpu.cop0, exc, c.next_instruction.1, c.is_branch_delay).sr;
            lemma_wrapping_aligned(exception_vector(exc, sr), 4);
        },
    }
}

/// ADD, SUB and ADDI whose signed result does not fit in 32 bits raise an
/// integer-overflow exception and leave every register, the destination
/// included, unchanged.
pub proof fn lemma_signed_overflow_traps(c: CpuModel, mn: Mnemonic, w: u32)
    requires
        mn == Mnemonic::ADD ==> signed_sum(rs_val(c, w) as i32, rt_val(c, w) as i32) is None,
        mn == Mnemonic::SUB ==> signed_difference(rs_val(c, w) as i32, rt_val(c, w) as i32) is None,
        mn == Mnemonic::ADDI ==> signed_sum(rs_val(c, w) as i32, sext16(imm_of(w)) as i32) is None,
        mn == Mnemonic::ADD || mn == Mnemonic::SUB || mn == Mnemonic::ADDI,
    ensures
        cpu_op_spec(c, mn, w) == Ok::<(CpuModel, Option<Exception>), FatalError>(
            (c, Some(Exception::IntegerOverflow)),
        ),
{
}

/// DIV of a positive numerator by zero: LO is all ones, HI the numerator,
/// and no exception.
pub proof fn lemma_div_by_zero(c: CpuModel, w: u32)
    requires
        rt_val(c, w) == 0,
        (rs_val(c, w) as i32) > 0,
    ensures
        cpu_op_spec(c, Mnemonic::DIV, w) == Ok::<(CpuModel, Option<Exception>), FatalError>(
            (CpuModel { hi: rs_val(c, w), lo: 0xFFFF_FFFFu32, ..c }, None),
        ),
{
}

/// DIV of INT_MIN by -1: LO is INT_MIN, HI zero, and no exception.
pub proof fn lemma_div_overflow(c: CpuModel, w: u32)
    requires
        rs_val(c, w) == 0x8000_0000u32,
        rt_val(c, w) == 0xFFFF_FFFFu32,
    ensures
        cpu_op_spec(c, Mnemonic::DIV, w) == Ok::<(CpuModel, Option<Exception>), FatalError>(
            (CpuModel { hi: 0u32, lo: 0x8000_0000u32, ..c }, None),
        ),
{
    let n = rs_val(c, w);
    let d = rt_val(c, w);
    assert(n == 0x8000_0000u32 && d == 0xFFFF_FFFFu32 ==> (n as i32) == i32::MIN && (d as i32)
        == -1i32) by (bit_vector);
}

/// A load does not write its register during its own step: the registers are
/// those after the earlier pending load is written back, and the loaded value
/// waits as the new pending load.
pub proof fn lemma_load_is_deferred(b: BoardModel)
    requires
        board_wf(b),
        step_spec(b) is Ok,
        decode_spec(b.cpu.next_instruction.0) matches Ok(m) && is_load(m),
    ensures
        step_spec(b)->Ok_0.cpu.regs == fetch_stage(b.cpu, bus_read_spec(b, 4, b.cpu.pc)->Ok_0).regs,
        step_spec(b)->Ok_0.cpu.next_load.0 == rt_of(b.cpu.next_instruction.0) as usize,
{
}

/// A branch or jump does not redirect the instruction that follows it: after
/// the step, the word fetched from the old PC (the delay slot) is the pending
/// instruction that the next step runs, flagged as sitting in a delay slot,
/// and only then does PC point at the target.
pub proof fn lemma_branch_delay_slot(b: BoardModel)
    requires
        board_wf(b),
        step_spec(b) is Ok,
        decode_spec(b.cpu.next_instruction.0) matches Ok(m) && (is_branch(m) || is_jump(m)),
    ensures
        step_spec(b)->Ok_0.cpu.next_instruction == (bus_read_spec(b, 4, b.cpu.pc)->Ok_0, b.cpu.pc),
        step_spec(b)->Ok_0.cpu.is_branch_delay,
        ({
            let w = b.cpu.next_instruction.0;
            let c1 = fetch_stage(b.cpu, bus_read_spec(b, 4, b.cpu.pc)->Ok_0);
            decode_spec(w) == Ok::<Mnemonic, FatalError>(Mnemonic::BNE) && rs_val(c1, w) != rt_val(
                c1,
                w,
            ) ==> step_spec(b)->Ok_0.cpu.pc == u32_specs::wrapping_add(
                b.cpu.pc,
                sext16(imm_of(w)) << 2u32,
            )
        }),
{
}

} // verus!
