//! Execution core of a VR4300-style 64-bit MIPS processor: instruction
//! decoding, the coprocessor-0 control registers, kseg1 address translation,
//! the physical memory map and the fetch-decode-execute step.

pub mod cpu;
pub mod fault;
pub mod interconnect;

pub use cpu::cp0::Cp0;
pub use cpu::{virt_addr_to_phys_addr, Cpu, CpuState};
pub use cpu::instruction::{Instruction, Opcode};
pub use cpu::reg_config::{DataTransferPattern, Endianness, RegConfig};
pub use cpu::reg_status::{
    DiagnosticStatus, ExceptionVectorLocation, InterruptMask, Mode, RegStatus,
};
pub use fault::Fault;
pub use interconnect::Interconnect;
