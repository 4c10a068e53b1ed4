//! Execution core of a MIPS-I R3000 based game console: the instruction
//! decoder, the address map, the system-control coprocessor, the CPU step and
//! the bus that ties them to the devices.

pub mod cpustructs;
pub mod decode;
pub mod memorymap;
pub mod bus;
pub mod ram;
pub mod rom;
pub mod memctrl;
pub mod gpu;
pub mod cop0;
pub mod cpu;
pub mod motherboard;
pub mod dma_channel;
pub mod dma;
pub mod disasm;
