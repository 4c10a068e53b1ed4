//! Instruction words, register indices, exceptions and the CPU register state.
use vstd::prelude::*;

verus! {

/// Magic addresses ("vectors") that the CPU jumps to.
#[derive(Copy, Clone, Eq, PartialEq, Debug)]
pub enum MagicAddress {
    /// KUSEG TLB miss exception (BEV = 0)
    TLBMiss,
    /// All other exceptions (BEV = 0)
    MiscException,
    /// KUSEG TLB miss exception (BEV = 1)
    TLBMissBev,
    /// All other exceptions (BEV = 1)
    MiscExceptionBev,
    /// Reset vector
    ResetVector,
}

pub open spec fn magic_address_spec(m: MagicAddress) -> u32 {
    match m {
        MagicAddress::TLBMiss => 0x8000_0000u32,
        MagicAddress::MiscException => 0x8000_0080u32,
        MagicAddress::TLBMissBev => 0xBFC0_0100u32,
        MagicAddress::MiscExceptionBev => 0xBFC0_0180u32,
        MagicAddress::ResetVector => 0xBFC0_0000u32,
    }
}

impl MagicAddress {
    /// The address this vector stands for.
    pub fn address(self) -> (r: u32)
        ensures
            r == magic_address_spec(self),
    {
        match self {
            MagicAddress::TLBMiss => 0x8000_0000,
            MagicAddress::MiscException => 0x8000_0080,
            MagicAddress::TLBMissBev => 0xBFC0_0100,
            MagicAddress::MiscExceptionBev => 0xBFC0_0180,
            MagicAddress::ResetVector => 0xBFC0_0000,
        }
    }
}

/// The conventional names of the 32 general-purpose registers.
#[derive(Debug, Eq, PartialEq, Copy, Clone)]
pub enum RegisterIndex {
    /// Hard-wired zero
    R0,
    /// Assembler temporary
    AT,
    V0,
    V1,
    A0,
    A1,
    A2,
    A3,
    T0,
    T1,
    T2,
    T3,
    T4,
    T5,
    T6,
    T7,
    S0,
    S1,
    S2,
    S3,
    S4,
    S5,
    S6,
    S7,
    T8,
    T9,
    K0,
    K1,
    /// Global pointer
    GP,
    /// Stack pointer
    SP,
    /// Frame pointer
    FP,
    /// Return address
    RA,
}

/// The register number of a conventional register name.
pub open spec fn register_number(r: RegisterIndex) -> usize {
    match r {
        RegisterIndex::R0 => 0,
        RegisterIndex::AT => 1,
        RegisterIndex::V0 => 2,
        RegisterIndex::V1 => 3,
        RegisterIndex::A0 => 4,
        RegisterIndex::A1 => 5,
        RegisterIndex::A2 => 6,
        RegisterIndex::A3 => 7,
        RegisterIndex::T0 => 8,
        RegisterIndex::T1 => 9,
        RegisterIndex::T2 => 10,
        RegisterIndex::T3 => 11,
        RegisterIndex::T4 => 12,
        RegisterIndex::T5 => 13,
        RegisterIndex::T6 => 14,
        RegisterIndex::T7 => 15,
        RegisterIndex::S0 => 16,
        RegisterIndex::S1 => 17,
        RegisterIndex::S2 => 18,
        RegisterIndex::S3 => 19,
        RegisterIndex::S4 => 20,
        RegisterIndex::S5 => 21,
        RegisterIndex::S6 => 22,
        RegisterIndex::S7 => 23,
        RegisterIndex::T8 => 24,
        RegisterIndex::T9 => 25,
        RegisterIndex::K0 => 26,
        RegisterIndex::K1 => 27,
        RegisterIndex::GP => 28,
        RegisterIndex::SP => 29,
        RegisterIndex::FP => 30,
        RegisterIndex::RA => 31,
    }
}

impl RegisterIndex {
    /// The register number of this name.
    pub fn index(self) -> (r: usize)
        ensures
            r == register_number(self),
            r < 32,
    {
        match self {
            RegisterIndex::R0 => 0,
            RegisterIndex::AT => 1,
            RegisterIndex::V0 => 2,
            RegisterIndex::V1 => 3,
            RegisterIndex::A0 => 4,
            RegisterIndex::A1 => 5,
            RegisterIndex::A2 => 6,
            RegisterIndex::A3 => 7,
            RegisterIndex::T0 => 8,
            RegisterIndex::T1 => 9,
            RegisterIndex::T2 => 10,
            RegisterIndex::T3 => 11,
            RegisterIndex::T4 => 12,
            RegisterIndex::T5 => 13,
            RegisterIndex::T6 => 14,
            RegisterIndex::T7 => 15,
            RegisterIndex::S0 => 16,
            RegisterIndex::S1 => 17,
            RegisterIndex::S2 => 18,
            RegisterIndex::S3 => 19,
            RegisterIndex::S4 => 20,
            RegisterIndex::S5 => 21,
            RegisterIndex::S6 => 22,
            RegisterIndex::S7 => 23,
            RegisterIndex::T8 => 24,
            RegisterIndex::T9 => 25,
            RegisterIndex::K0 => 26,
            RegisterIndex::K1 => 27,
            RegisterIndex::GP => 28,
            RegisterIndex::SP => 29,
            RegisterIndex::FP => 30,
            RegisterIndex::RA => 31,
        }
    }
}

/// The architectural register state of the CPU.
#[derive(Clone, Copy, Debug)]
pub struct CpuState {
    /// The general-purpose registers; entry 0 always reads as zero
    pub registers: [u32; 32],
    /// The HI register for DIV/MULT operations
    pub hi: u32,
    /// The LO register for DIV/MULT operations
    pub lo: u32,
    /// The address of the next instruction to fetch
    pub pc: u32,
    /// Idle cycles to burn before the next instruction
    pub wait: u32,
    /// The next instruction in the pipeline, as (word, address it was fetched from)
    pub next_instruction: (u32, u32),
    /// The pending delayed load, as (register index, value)
    pub next_load: (usize, u32),
    /// Latched by branches and jumps: the next instruction sits in a delay slot
    pub is_branch_delay: bool,
}

impl CpuState {
    /// The state at power-on: every register zero, PC at the reset vector.
    pub fn poweron() -> (r: CpuState)
        ensures
            r.pc == magic_address_spec(MagicAddress::ResetVector),
            forall|i: int| 0 <= i < 32 ==> #[trigger] r.registers@[i] == 0u32,
            r.hi == 0,
            r.lo == 0,
            r.wait == 0,
            r.next_instruction == (0u32, 0u32),
            r.next_load == (0usize, 0u32),
            !r.is_branch_delay,
    {
        CpuState {
            pc: MagicAddress::ResetVector.address(),
            registers: [0u32; 32],
            hi: 0,
            lo: 0,
            wait: 0,
            next_instruction: (0, 0),
            next_load: (0, 0),
            is_branch_delay: false,
        }
    }
}

/// The instruction mnemonics that the decoder can produce.
#[allow(non_camel_case_types)]
#[derive(Debug, Eq, PartialEq, Copy, Clone, Structural)]
pub enum Mnemonic {
    ADD,
    ADDI,
    ADDIU,
    ADDU,
    AND,
    ANDI,
    BEQ,
    BGEZ,
    BGEZAL,
    BGTZ,
    BLEZ,
    BLTZ,
    BLTZAL,
    BNE,
    BREAK,
    CFCz,
    COPz,
    CTCz,
    DIV,
    DIVU,
    J,
    JAL,
    JALR,
    JR,
    LB,
    LBU,
    LH,
    LHU,
    LUI,
    LW,
    LWCz,
    LWL,
    LWR,
    MFCz,
    MFHI,
    MFLO,
    MTCz,
    MTHI,
    MTLO,
    MULT,
    MULTU,
    NOR,
    OR,
    ORI,
    SB,
    SH,
    SLL,
    SLLV,
    SLT,
    SLTI,
    SLTIU,
    SLTU,
    SRA,
    SRAV,
    SRL,
    SRLV,
    SUB,
    SUBU,
    SW,
    SWCz,
    SWL,
    SWR,
    SYSCALL,
    XOR,
    XORI,
    /// A word with no defined meaning; raises a reserved-instruction exception
    ILLEGAL,
}

/// The three MIPS instruction encodings.
#[derive(Debug, Eq, PartialEq, Copy, Clone)]
pub enum InstructionFormat {
    Immediate,
    Jump,
    Register,
}

/// Processor exceptions, handled by coprocessor 0.
#[derive(Debug, Eq, PartialEq, Copy, Clone, Structural)]
pub enum Exception {
    Interrupt,
    TLBModification,
    TLBLoad,
    TLBStore,
    AddressLoad,
    AddressStore,
    ExtBusInstructionFetch,
    ExtBusDataLoad,
    Syscall,
    Breakpoint,
    ReservedInstruction,
    CoprocessorUnusable,
    IntegerOverflow,
}

pub open spec fn exception_code_spec(e: Exception) -> u32 {
    match e {
        Exception::Interrupt => 0x0,
        Exception::TLBModification => 0x1,
        Exception::TLBLoad => 0x2,
        Exception::TLBStore => 0x3,
        Exception::AddressLoad => 0x4,
        Exception::AddressStore => 0x5,
        Exception::ExtBusInstructionFetch => 0x6,
        Exception::ExtBusDataLoad => 0x7,
        Exception::Syscall => 0x8,
        Exception::Breakpoint => 0x9,
        Exception::ReservedInstruction => 0xA,
        Exception::CoprocessorUnusable => 0xB,
        Exception::IntegerOverflow => 0xC,
    }
}

impl Exception {
    /// The exception code written into the Cause register.
    pub fn code(self) -> (r: u32)
        ensures
            r == exception_code_spec(self),
            r < 16,
    {
        match self {
            Exception::Interrupt => 0x0,
            Exception::TLBModification => 0x1,
            Exception::TLBLoad => 0x2,
            Exception::TLBStore => 0x3,
            Exception::AddressLoad => 0x4,
            Exception::AddressStore => 0x5,
            Exception::ExtBusInstructionFetch => 0x6,
            Exception::ExtBusDataLoad => 0x7,
            Exception::Syscall => 0x8,
            Exception::Breakpoint => 0x9,
            Exception::ReservedInstruction => 0xA,
            Exception::CoprocessorUnusable => 0xB,
            Exception::IntegerOverflow => 0xC,
        }
    }
}

/// Host-visible fatal errors: conditions on which the emulator must stop.
#[derive(Debug, Eq, PartialEq, Copy, Clone, Structural)]
pub enum FatalError {
    /// A bus access whose address is not aligned to its width
    UnalignedAccess(u32),
    /// An address that maps to no device, or to a device not reachable from its segment
    UnmappedAddress(u32),
    /// A device that has no behaviour for this access
    UnhandledAccess(u32),
    /// A write to read-only memory (the BIOS)
    ReadOnlyWrite(u32),
    /// A nonzero write to a port whose only supported value is zero or its reset value
    UnsupportedPortWrite(u32, u32),
    /// Software tried to arm a hardware breakpoint register of coprocessor 0
    BreakpointEnabled(u32, u32),
    /// Software tried to raise an exception by writing the Cause register
    HardwareExceptionTriggered(u32),
    /// A coprocessor 0 register or operation that is not emulated
    UnhandledCop0(u32),
    /// An instruction of the geometry coprocessor, which is not emulated
    GeometryInstruction(u32),
    /// A word whose opcode selects a group in which its sub-field names nothing
    InvalidEncoding(u32),
}

//  Bit fields of an instruction word.
pub open spec fn op_of(w: u32) -> u8 {
    (w >> 26u32) as u8
}

pub open spec fn rs_of(w: u32) -> u8 {
    ((w >> 21u32) & 0x1Fu32) as u8
}

pub open spec fn rt_of(w: u32) -> u8 {
    ((w >> 16u32) & 0x1Fu32) as u8
}

pub open spec fn rd_of(w: u32) -> u8 {
    ((w >> 11u32) & 0x1Fu32) as u8
}

pub open spec fn shamt_of(w: u32) -> u8 {
    ((w >> 6u32) & 0x1Fu32) as u8
}

pub open spec fn funct_of(w: u32) -> u8 {
    (w & 0x3Fu32) as u8
}

pub open spec fn imm_of(w: u32) -> u16 {
    (w & 0xFFFFu32) as u16
}

pub open spec fn target_of(w: u32) -> u32 {
    w & 0x03FF_FFFFu32
}

/// Each field is its bits of the word, and fits its width.
pub proof fn lemma_fields_bounded(w: u32)
    ensures
        (w >> 26u32) < 64,
        (w >> 21u32) & 0x1Fu32 < 32,
        (w >> 16u32) & 0x1Fu32 < 32,
        (w >> 11u32) & 0x1Fu32 < 32,
        (w >> 6u32) & 0x1Fu32 < 32,
        w & 0x3Fu32 < 64,
        w & 0xFFFFu32 < 0x10000,
        w & 0x03FF_FFFFu32 < 0x0400_0000,
{
    assert((w >> 26u32) < 64 && (w >> 21u32) & 0x1Fu32 < 32 && (w >> 16u32) & 0x1Fu32 < 32 && (w
        >> 11u32) & 0x1Fu32 < 32 && (w >> 6u32) & 0x1Fu32 < 32 && w & 0x3Fu32 < 64 && w & 0xFFFFu32
        < 0x10000 && w & 0x03FF_FFFFu32 < 0x0400_0000) by (bit_vector);
}

/// A raw 32-bit MIPS-I instruction word.
#[derive(Eq, PartialEq, Copy, Clone, Debug)]
pub struct Instruction(pub u32);

impl Instruction {
    /// The whole word.
    pub fn word(&self) -> (r: u32)
        ensures
            r == self.0,
    {
        self.0
    }

    /// The primary opcode, bits 31..26.
    pub fn op(&self) -> (r: u8)
        ensures
            r == op_of(self.0),
            r < 64,
    {
        proof {
            lemma_fields_bounded(self.0);
        }
        (self.0 >> 26u32) as u8
    }

    /// The first source register, bits 25..21.
    pub fn rs(&self) -> (r: u8)
        ensures
            r == rs_of(self.0),
            r < 32,
    {
        proof {
            lemma_fields_bounded(self.0);
        }
        ((self.0 >> 21u32) & 0x1Fu32) as u8
    }

    /// The second source (or target) register, bits 20..16.
    pub fn rt(&self) -> (r: u8)
        ensures
            r == rt_of(self.0),
            r < 32,
    {
        proof {
            lemma_fields_bounded(self.0);
        }
        ((self.0 >> 16u32) & 0x1Fu32) as u8
    }

    /// The destination register, bits 15..11.
    pub fn rd(&self) -> (r: u8)
        ensures
            r == rd_of(self.0),
            r < 32,
    {
        proof {
            lemma_fields_bounded(self.0);
        }
        ((self.0 >> 11u32) & 0x1Fu32) as u8
    }

    /// The shift amount, bits 10..6.
    pub fn shamt(&self) -> (r: u8)
        ensures
            r == shamt_of(self.0),
            r < 32,
    {
        proof {
            lemma_fields_bounded(self.0);
        }
        ((self.0 >> 6u32) & 0x1Fu32) as u8
    }

    /// The function code of a register-format instruction, bits 5..0.
    pub fn funct(&self) -> (r: u8)
        ensures
            r == funct_of(self.0),
            r < 64,
    {
        proof {
            lemma_fields_bounded(self.0);
        }
        (self.0 & 0x3Fu32) as u8
    }

    /// The 16-bit immediate, bits 15..0, unsigned.
    pub fn immediate(&self) -> (r: u16)
        ensures
            r == imm_of(self.0),
    {
        (self.0 & 0xFFFFu32) as u16
    }

    /// The 26-bit jump target, bits 25..0.
    pub fn target(&self) -> (r: u32)
        ensures
            r == target_of(self.0),
            r < 0x0400_0000,
    {
        proof {
            lemma_fields_bounded(self.0);
        }
        self.0 & 0x03FF_FFFFu32
    }
}

} // verus!
