use vstd::prelude::*;

use byteorder::{BigEndian, ByteOrder};

use crate::fault::Fault;

verus! {

/// Size in bytes of the boot ROM image.
pub const PIF_ROM_SIZE: usize = 2048;
/// Number of RAM cells.
pub const RAM_SIZE: usize = 4 * 1024 * 1024;
/// First physical address of the boot ROM.
pub const PIF_ROM_START: u32 = 0x1fc0_0000;
/// First physical address past the boot ROM.
pub const PIF_ROM_END: u32 = 0x1fc0_07c0;
/// Physical address of the RSP status register.
pub const SP_STATUS_REG: u32 = 0x0404_0010;
/// Power-on value of the RSP status register: the RSP is halted.
pub const SP_STATUS_POWER_ON: u32 = 0x1;

/// The 32-bit value of four bytes, the first most significant.
pub open spec fn be_u32(b0: u8, b1: u8, b2: u8, b3: u8) -> u32 {
    (b0 as int * 0x100_0000 + b1 as int * 0x1_0000 + b2 as int * 0x100 + b3 as int) as u32
}

/// Relies on byteorder's `BigEndian::read_u32`: the first four bytes of its
/// argument, most significant first (it panics on fewer than four).
#[verifier::external_body]
fn read_u32_be(bytes: &[u8], at: usize) -> (r: u32)
    requires
        at + 4 <= bytes@.len(),
    ensures
        r == be_u32(bytes@[at as int], bytes@[at + 1], bytes@[at + 2], bytes@[at + 3]),
{
    BigEndian::read_u32(&bytes[at..])
}

/// What the physical memory map holds.
pub struct InterconnectView {
    pub pif_rom: Seq<u8>,
    pub ram: Seq<u16>,
    pub rsp_status: u32,
}

impl InterconnectView {
    pub open spec fn wf(self) -> bool {
        self.pif_rom.len() == PIF_ROM_SIZE && self.ram.len() == RAM_SIZE
    }

    /// The word that a read at `addr` returns: big-endian from the boot
    /// ROM, the RSP status register, or a fault naming the address.
    pub open spec fn read_word(self, addr: u32) -> Result<u32, Fault> {
        if PIF_ROM_START <= addr < PIF_ROM_END {
            let o = addr - PIF_ROM_START;
            Ok(be_u32(self.pif_rom[o], self.pif_rom[o + 1], self.pif_rom[o + 2], self.pif_rom[o + 3]))
        } else if addr == SP_STATUS_REG {
            Ok(self.rsp_status)
        } else {
            Err(Fault::UnrecognizedPhysAddr { phys_addr: addr })
        }
    }
}

/// A read between the RSP status register and the boot ROM faults with the
/// address read.
pub proof fn lemma_unmapped_read_faults(m: InterconnectView, addr: u32)
    requires
        SP_STATUS_REG < addr < PIF_ROM_START,
    ensures
        m.read_word(addr) == Err::<u32, Fault>(Fault::UnrecognizedPhysAddr { phys_addr: addr }),
{
}

/// The physical memory map: boot ROM, RAM and the RSP status register.
pub struct Interconnect {
    pif_rom: Vec<u8>,
    // RAM is kept in 16-bit cells, one per address.
    ram: Vec<u16>,
    rsp_status: u32,
}

impl View for Interconnect {
    type V = InterconnectView;

    closed spec fn view(&self) -> InterconnectView {
        InterconnectView { pif_rom: self.pif_rom@, ram: self.ram@, rsp_status: self.rsp_status }
    }
}

impl Interconnect {
    /// Takes the boot ROM image, zeroes RAM and powers on the registers.
    pub fn new(pif_rom: Vec<u8>) -> (r: Interconnect)
        requires
            pif_rom@.len() == PIF_ROM_SIZE,
        ensures
            r@.wf(),
            r@.pif_rom == pif_rom@,
            r@.ram == Seq::new(RAM_SIZE as nat, |i: int| 0u16),
            r@.rsp_status == SP_STATUS_POWER_ON,
    {
        let ram = vec![0u16; RAM_SIZE];
        let r = Interconnect { pif_rom, ram, rsp_status: SP_STATUS_POWER_ON };
        assert(r@.ram =~= Seq::new(RAM_SIZE as nat, |i: int| 0u16));
        r
    }

    /// Reads the 32-bit word at physical address `addr`.
    pub fn read_word(&self, addr: u32) -> (r: Result<u32, Fault>)
        requires
            self@.wf(),
        ensures
            r == self@.read_word(addr),
    {
        if addr >= PIF_ROM_START && addr < PIF_ROM_END {
            let rel_addr = addr - PIF_ROM_START;
            Ok(read_u32_be(self.pif_rom.as_slice(), rel_addr as usize))
        } else if addr == SP_STATUS_REG {
            Ok(self.rsp_status)
        } else {
            Err(Fault::UnrecognizedPhysAddr { phys_addr: addr })
        }
    }
}

} // verus!
