use vstd::prelude::*;

verus! {

/// A condition that stops emulation. Each variant carries what is needed
/// to reproduce it.
#[derive(Debug, Clone, Copy, PartialEq, Eq, Structural)]
pub enum Fault {
    /// The primary opcode field of `word` names no supported instruction.
    UnrecognizedInstruction { word: u32 },
    /// The virtual address lies outside every supported segment.
    UnsupportedSegment { virt_addr: u64 },
    /// The physical address belongs to no memory region or register.
    UnrecognizedPhysAddr { phys_addr: u32 },
    /// A write to a coprocessor-0 register that is not modelled.
    UnimplementedCp0Reg { index: u32, data: u64 },
    /// A Config register value whose transfer-pattern field is reserved.
    InvalidDataTransferPattern { raw: u32 },
    /// A Status register value whose KSU field holds the reserved pattern.
    InvalidMode { raw: u32 },
}

} // verus!
