//! The memory-control registers: base addresses and access delays of the
//! expansion areas. Base addresses are fixed; delay settings are accepted and
//! ignored.
use vstd::prelude::*;
use crate::bus::{BusDevice, SizedData, width_modulus, read_agrees, peek_agrees};
use crate::cpustructs::FatalError;

verus! {

pub const EXP1_BASE_ADDR_PORT: u32 = 0x0;
pub const EXP2_BASE_ADDR_PORT: u32 = 0x4;
pub const EXP1_DELAY_PORT: u32 = 0x8;
pub const EXP3_DELAY_PORT: u32 = 0xC;
pub const BIOS_DELAY_PORT: u32 = 0x10;
pub const SPU_DELAY_PORT: u32 = 0x14;
pub const CDROM_DELAY_PORT: u32 = 0x18;
pub const EXP2_DELAY_PORT: u32 = 0x1C;
pub const COM_DELAY_PORT: u32 = 0x20;
pub const I_STAT_PORT: u32 = 0x70;
pub const I_MASK_PORT: u32 = 0x74;
pub const EXP1_BASE: u32 = 0x1F00_0000;
pub const EXP2_BASE: u32 = 0x1F80_2000;

/// What a read of the memory-control registers yields: 32-bit reads of the
/// base-address ports give the fixed bases, the interrupt ports read zero, and
/// everything else is not emulated.
pub open spec fn memctrl_read_spec(w: nat, addr: u32) -> Result<u32, FatalError> {
    if w != 4 {
        Err(FatalError::UnhandledAccess(addr))
    } else if addr == EXP1_BASE_ADDR_PORT {
        Ok(EXP1_BASE)
    } else if addr == EXP2_BASE_ADDR_PORT {
        Ok(EXP2_BASE)
    } else if addr == I_MASK_PORT || addr == I_STAT_PORT {
        Ok(0)
    } else {
        Err(FatalError::UnhandledAccess(addr))
    }
}

/// What a peek yields: the base addresses, and absence for everything else.
pub open spec fn memctrl_peek_spec(w: nat, addr: u32) -> Option<u32> {
    if w == 4 && addr == EXP1_BASE_ADDR_PORT {
        Some(EXP1_BASE)
    } else if w == 4 && addr == EXP2_BASE_ADDR_PORT {
        Some(EXP2_BASE)
    } else {
        None
    }
}

/// Whether a write is refused: a base address may only be written with its
/// fixed value, and the interrupt mask only with zero.
pub open spec fn memctrl_write_spec(w: nat, addr: u32, v: u32) -> Result<(), FatalError> {
    if addr == EXP1_BASE_ADDR_PORT && v as nat != EXP1_BASE as nat % width_modulus(w) {
        Err(FatalError::UnsupportedPortWrite(addr, v))
    } else if addr == EXP2_BASE_ADDR_PORT && v as nat != EXP2_BASE as nat % width_modulus(w) {
        Err(FatalError::UnsupportedPortWrite(addr, v))
    } else if addr == I_MASK_PORT && v != 0 {
        Err(FatalError::UnsupportedPortWrite(addr, v))
    } else {
        Ok(())
    }
}

/// Interface for the memory-controller parameters and read-delay timings.
pub struct MemoryController {}

impl MemoryController {
    pub fn new() -> MemoryController {
        MemoryController {  }
    }
}

impl BusDevice for MemoryController {
    fn read<T: SizedData>(&mut self, addr: u32) -> (r: Result<T, FatalError>)
        ensures
            read_agrees(r, memctrl_read_spec(T::spec_width(), addr)),
    {
        if T::width() != 4 {
            return Err(FatalError::UnhandledAccess(addr));
        }
        let v: u32 = if addr == EXP1_BASE_ADDR_PORT {
            EXP1_BASE
        } else if addr == EXP2_BASE_ADDR_PORT {
            EXP2_BASE
        } else if addr == I_MASK_PORT || addr == I_STAT_PORT {
            0
        } else {
            return Err(FatalError::UnhandledAccess(addr));
        };
        Ok(T::from_u32(v))
    }

    fn peek<T: SizedData>(&self, addr: u32) -> (r: Result<Option<T>, FatalError>)
        ensures
            peek_agrees(r, Ok(memctrl_peek_spec(T::spec_width(), addr))),
    {
        if T::width() != 4 {
            return Ok(None);
        }
        if addr == EXP1_BASE_ADDR_PORT {
            Ok(Some(T::from_u32(EXP1_BASE)))
        } else if addr == EXP2_BASE_ADDR_PORT {
            Ok(Some(T::from_u32(EXP2_BASE)))
        } else {
            Ok(None)
        }
    }

    fn write<T: SizedData>(&mut self, addr: u32, data: T) -> (r: Result<(), FatalError>)
        ensures
            r == memctrl_write_spec(T::spec_width(), addr, data.spec_value()),
    {
        let v = data.to_u32();
        if addr == EXP1_BASE_ADDR_PORT && v != T::from_u32(EXP1_BASE).to_u32() {
            Err(FatalError::UnsupportedPortWrite(addr, v))
        } else if addr == EXP2_BASE_ADDR_PORT && v != T::from_u32(EXP2_BASE).to_u32() {
            Err(FatalError::UnsupportedPortWrite(addr, v))
        } else if addr == I_MASK_PORT && v != 0 {
            Err(FatalError::UnsupportedPortWrite(addr, v))
        } else {
            Ok(())
        }
    }
}

} // verus!
