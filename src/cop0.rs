//! Coprocessor 0: status, cause and exception-return registers, and exception
//! vectoring. The hardware-breakpoint registers are inert: they accept zero only.
use vstd::prelude::*;
use crate::cpu::CpuR3000;
use crate::cpustructs::{
    Exception, FatalError, Instruction, MagicAddress, exception_code_spec, magic_address_spec,
    funct_of,
};

verus! {

/// SR flag: memory writes hit only the (isolated) cache.
pub const CACHE_ISOLATE: u32 = 0x0001_0000;
/// SR flag: boot exception vectors.
pub const BOOT_EXC_VECTORS: u32 = 0x0040_0000;
/// Cause flag: the exception was taken in a branch delay slot.
pub const CAUSE_BRANCH_DELAY: u32 = 0x8000_0000;
pub const BPC_IDX: usize = 3;
pub const BDA_IDX: usize = 5;
pub const JUMPDEST_IDX: usize = 6;
pub const DCIC_IDX: usize = 7;
pub const BDAM_IDX: usize = 9;
pub const BPCM_IDX: usize = 11;
pub const SR_IDX: usize = 12;
pub const CAUSE_IDX: usize = 13;
pub const EPC_IDX: usize = 14;
/// Function code of RFE within a COP0 operation.
pub const FUNCT_RFE: u8 = 0b010000;

/// The observable registers of coprocessor 0.
pub struct Cop0Model {
    pub sr: u32,
    pub cause: u32,
    pub epc: u32,
}

/// The system-control coprocessor.
pub struct Cop0 {
    /// R12 status register
    sr: u32,
    /// R13 cause register
    cause: u32,
    /// R14 exception return address
    epc: u32,
}

impl View for Cop0 {
    type V = Cop0Model;

    closed spec fn view(&self) -> Cop0Model {
        Cop0Model { sr: self.sr, cause: self.cause, epc: self.epc }
    }
}

pub open spec fn is_breakpoint_register(idx: usize) -> bool {
    idx == BPC_IDX || idx == BDA_IDX || idx == JUMPDEST_IDX || idx == DCIC_IDX || idx == BDAM_IDX
        || idx == BPCM_IDX
}

/// The effect of moving `data` into register `idx`: SR and EPC take any value;
/// the breakpoint registers and Cause take zero only; other registers are not
/// emulated.
pub open spec fn mtc_spec(c: Cop0Model, idx: usize, data: u32) -> Result<Cop0Model, FatalError> {
    if idx == SR_IDX {
        Ok(Cop0Model { sr: data, ..c })
    } else if is_breakpoint_register(idx) {
        if data != 0 {
            Err(FatalError::BreakpointEnabled(idx as u32, data))
        } else {
            Ok(c)
        }
    } else if idx == CAUSE_IDX {
        if data != 0 {
            Err(FatalError::HardwareExceptionTriggered(data))
        } else {
            Ok(Cop0Model { cause: data, ..c })
        }
    } else if idx == EPC_IDX {
        Ok(Cop0Model { epc: data, ..c })
    } else {
        Err(FatalError::UnhandledCop0(idx as u32))
    }
}

/// The value read from register `idx`: SR, Cause and EPC are readable.
pub open spec fn mfc_spec(c: Cop0Model, idx: usize) -> Result<u32, FatalError> {
    if idx == SR_IDX {
        Ok(c.sr)
    } else if idx == CAUSE_IDX {
        Ok(c.cause)
    } else if idx == EPC_IDX {
        Ok(c.epc)
    } else {
        Err(FatalError::UnhandledCop0(idx as u32))
    }
}

/// The mode stack (the low six bits of SR) pushed: shifted left by two, the
/// new entry zero (kernel mode, interrupts off).
pub open spec fn push_mode(sr: u32) -> u32 {
    (sr & !0x3Fu32) | (((sr & 0x3Fu32) << 2u32) & 0x3Fu32)
}

/// The mode stack popped: shifted right by two.
pub open spec fn pop_mode(sr: u32) -> u32 {
    (sr & !0x3Fu32) | ((sr & 0x3Fu32) >> 2u32)
}

pub open spec fn is_tlb_exception(e: Exception) -> bool {
    e == Exception::TLBModification || e == Exception::TLBLoad || e == Exception::TLBStore
}

pub open spec fn bev(sr: u32) -> bool {
    sr & BOOT_EXC_VECTORS != 0
}

/// The vector of an exception: TLB or general, in RAM or (with BEV) in ROM.
pub open spec fn exception_vector(e: Exception, sr: u32) -> u32 {
    if is_tlb_exception(e) {
        if bev(sr) {
            magic_address_spec(MagicAddress::TLBMissBev)
        } else {
            magic_address_spec(MagicAddress::TLBMiss)
        }
    } else {
        if bev(sr) {
            magic_address_spec(MagicAddress::MiscExceptionBev)
        } else {
            magic_address_spec(MagicAddress::MiscException)
        }
    }
}

/// Coprocessor 0 after entering exception `e` raised by the instruction at
/// `pc`: Cause holds the code (and the delay-slot flag), EPC the faulting
/// instruction or, in a delay slot, its branch, and the mode stack is pushed.
pub open spec fn exception_entry(c: Cop0Model, e: Exception, pc: u32, delay: bool) -> Cop0Model {
    Cop0Model {
        sr: push_mode(c.sr),
        cause: if delay {
            (exception_code_spec(e) << 2u32) | CAUSE_BRANCH_DELAY
        } else {
            exception_code_spec(e) << 2u32
        },
        epc: if delay {
            vstd::wrapping::u32_specs::wrapping_sub(pc, 4)
        } else {
            pc
        },
    }
}

impl Cop0 {
    /// Coprocessor 0 at power-on: all registers zero.
    pub fn new() -> (r: Cop0)
        ensures
            r@ == (Cop0Model { sr: 0, cause: 0, epc: 0 }),
    {
        Cop0 { sr: 0, cause: 0, epc: 0 }
    }

    /// The status register.
    pub fn sr(&self) -> (r: u32)
        ensures
            r == self@.sr,
    {
        self.sr
    }

    /// The cause register.
    pub fn cause(&self) -> (r: u32)
        ensures
            r == self@.cause,
    {
        self.cause
    }

    /// The exception return address.
    pub fn epc(&self) -> (r: u32)
        ensures
            r == self@.epc,
    {
        self.epc
    }

    pub fn is_cache_isolated(&self) -> (r: bool)
        ensures
            r == (self@.sr & CACHE_ISOLATE != 0),
    {
        self.sr & CACHE_ISOLATE != 0
    }

    pub fn is_bev(&self) -> (r: bool)
        ensures
            r == bev(self@.sr),
    {
        self.sr & BOOT_EXC_VECTORS != 0
    }

    /// Move `data` into register `regidx`.
    pub fn mtc(&mut self, regidx: usize, data: u32) -> (r: Result<(), FatalError>)
        ensures
            match mtc_spec(old(self)@, regidx, data) {
                Ok(c) => r is Ok && final(self)@ == c,
                Err(e) => r == Err::<(), FatalError>(e) && final(self)@ == old(self)@,
            },
    {
        if regidx == SR_IDX {
            self.sr = data;
        } else if regidx == BPC_IDX || regidx == BDA_IDX || regidx == JUMPDEST_IDX || regidx
            == DCIC_IDX || regidx == BDAM_IDX || regidx == BPCM_IDX {
            // a nonzero value would arm a breakpoint, which is not emulated
            if data != 0 {
                return Err(FatalError::BreakpointEnabled(regidx as u32, data));
            }
        } else if regidx == CAUSE_IDX {
            if data != 0 {
                return Err(FatalError::HardwareExceptionTriggered(data));
            }
            self.cause = data;
        } else if regidx == EPC_IDX {
            self.epc = data;
        } else {
            return Err(FatalError::UnhandledCop0(regidx as u32));
        }
        Ok(())
    }

    /// Read register `regidx`.
    pub fn mfc(&self, regidx: usize) -> (r: Result<u32, FatalError>)
        ensures
            r == mfc_spec(self@, regidx),
    {
        if regidx == SR_IDX {
            Ok(self.sr)
        } else if regidx == CAUSE_IDX {
            Ok(self.cause)
        } else if regidx == EPC_IDX {
            Ok(self.epc)
        } else {
            Err(FatalError::UnhandledCop0(regidx as u32))
        }
    }
}

/// Set up coprocessor 0 for an exception raised by the instruction at `pc`, and
/// return the address of the exception vector.
pub fn handle_exception(cpu: &mut CpuR3000, exc: Exception, pc: u32, is_delay_slot: bool) -> (r:
    u32)
    ensures
        final(cpu).cop0@ == exception_entry(old(cpu).cop0@, exc, pc, is_delay_slot),
        r == exception_vector(exc, final(cpu).cop0@.sr),
        final(cpu).state == old(cpu).state,
        final(cpu).cycles == old(cpu).cycles,
{
    let cop0 = &mut cpu.cop0;
    cop0.cause = exc.code() << 2u32;
    // advance the mode stack
    let mode = cop0.sr & 0x3Fu32;
    cop0.sr = (cop0.sr & !0x3Fu32) | ((mode << 2u32) & 0x3Fu32);
    cop0.epc = pc;
    if is_delay_slot {
        // the return address is the branch whose delay slot faulted
        cop0.cause = cop0.cause | CAUSE_BRANCH_DELAY;
        cop0.epc = pc.wrapping_sub(4);
    }
    let is_tlb_exc = match exc {
        Exception::TLBModification | Exception::TLBLoad | Exception::TLBStore => true,
        _ => false,
    };
    let is_bev = cop0.sr & BOOT_EXC_VECTORS != 0;
    if is_tlb_exc {
        if is_bev {
            MagicAddress::TLBMissBev.address()
        } else {
            MagicAddress::TLBMiss.address()
        }
    } else {
        if is_bev {
            MagicAddress::MiscExceptionBev.address()
        } else {
            MagicAddress::MiscException.address()
        }
    }
}

/// The effect of a COP0 operation: RFE pops the mode stack; the TLB operations
/// and anything else are not emulated.
pub open spec fn cop_instr_spec(c: Cop0Model, w: u32) -> Result<Cop0Model, FatalError> {
    if funct_of(w) == FUNCT_RFE {
        Ok(Cop0Model { sr: pop_mode(c.sr), ..c })
    } else {
        Err(FatalError::UnhandledCop0(w))
    }
}

/// Execute a COP0 operation.
pub fn handle_cop_instr(cpu: &mut CpuR3000, instr: Instruction) -> (r: Result<(), FatalError>)
    ensures
        match cop_instr_spec(old(cpu).cop0@, instr.0) {
            Ok(c) => r is Ok && final(cpu).cop0@ == c,
            Err(e) => r == Err::<(), FatalError>(e) && final(cpu).cop0@ == old(cpu).cop0@,
        },
        final(cpu).state == old(cpu).state,
        final(cpu).cycles == old(cpu).cycles,
{
    if instr.funct() == FUNCT_RFE {
        let cop = &mut cpu.cop0;
        let mode = cop.sr & 0x3Fu32;
        cop.sr = (cop.sr & !0x3Fu32) | (mode >> 2u32);
        Ok(())
    } else {
        // TLBP, TLBR, TLBWI, TLBWR and unknown operations
        Err(FatalError::UnhandledCop0(instr.0))
    }
}

} // verus!
