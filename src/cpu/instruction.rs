use vstd::prelude::*;

use crate::fault::Fault;

verus! {

/// Primary opcode values, bits 31..26 of an instruction word.
pub const OPCODE_ANDI: u32 = 0b001100;
pub const OPCODE_ORI: u32 = 0b001101;
pub const OPCODE_LUI: u32 = 0b001111;
pub const OPCODE_COP0: u32 = 0b010000;
pub const OPCODE_BEQL: u32 = 0b010100;
pub const OPCODE_LW: u32 = 0b100011;

/// The closed set of instructions this core executes.
#[derive(Debug, Clone, Copy, PartialEq, Eq, Structural)]
pub enum Opcode {
    Andi,
    Ori,
    Lui,
    Mtc0,
    Beql,
    Lw,
}

/// The instruction that a primary opcode field names, if any.
pub open spec fn opcode_of(field: u32) -> Option<Opcode> {
    if field == OPCODE_ANDI {
        Some(Opcode::Andi)
    } else if field == OPCODE_ORI {
        Some(Opcode::Ori)
    } else if field == OPCODE_LUI {
        Some(Opcode::Lui)
    } else if field == OPCODE_COP0 {
        Some(Opcode::Mtc0)
    } else if field == OPCODE_BEQL {
        Some(Opcode::Beql)
    } else if field == OPCODE_LW {
        Some(Opcode::Lw)
    } else {
        None
    }
}

impl Opcode {
    /// Looks up the instruction named by a primary opcode field.
    pub fn from_u32(field: u32) -> (r: Option<Opcode>)
        ensures
            r == opcode_of(field),
    {
        match field {
            OPCODE_ANDI => Some(Opcode::Andi),
            OPCODE_ORI => Some(Opcode::Ori),
            OPCODE_LUI => Some(Opcode::Lui),
            OPCODE_COP0 => Some(Opcode::Mtc0),
            OPCODE_BEQL => Some(Opcode::Beql),
            OPCODE_LW => Some(Opcode::Lw),
            _ => None,
        }
    }
}

/// A 32-bit instruction word, read through fixed bit windows.
pub struct Instruction(pub u32);

/// Bits 31..26.
pub open spec fn opcode_field(word: u32) -> u32 {
    (word >> 26u32) & 0x3f
}

/// Bits 25..21: the source register.
pub open spec fn rs_field(word: u32) -> u32 {
    (word >> 21u32) & 0x1f
}

/// Bits 20..16: the target register.
pub open spec fn rt_field(word: u32) -> u32 {
    (word >> 16u32) & 0x1f
}

/// Bits 15..11: the destination register.
pub open spec fn rd_field(word: u32) -> u32 {
    (word >> 11u32) & 0x1f
}

/// Bits 15..0: the immediate or branch offset.
pub open spec fn imm_field(word: u32) -> u32 {
    word & 0xffff
}

/// What decoding `word` yields: its instruction, or a fault naming the word.
pub open spec fn decode(word: u32) -> Result<Opcode, Fault> {
    match opcode_of(opcode_field(word)) {
        Some(op) => Ok(op),
        None => Err(Fault::UnrecognizedInstruction { word }),
    }
}

impl Instruction {
    pub fn opcode(&self) -> (r: Result<Opcode, Fault>)
        ensures
            r == decode(self.0),
    {
        match Opcode::from_u32((self.0 >> 26) & 0b111111) {
            Some(op) => Ok(op),
            None => Err(Fault::UnrecognizedInstruction { word: self.0 }),
        }
    }

    /// Source register index.
    pub fn rs(&self) -> (r: u32)
        ensures
            r == rs_field(self.0),
            r < 32,
    {
        let w = self.0;
        assert((w >> 21u32) & 0x1f < 32) by (bit_vector);
        (self.0 >> 21) & 0b11111
    }

    /// Target register index.
    pub fn rt(&self) -> (r: u32)
        ensures
            r == rt_field(self.0),
            r < 32,
    {
        let w = self.0;
        assert((w >> 16u32) & 0x1f < 32) by (bit_vector);
        (self.0 >> 16) & 0b11111
    }

    /// Destination register index.
    pub fn rd(&self) -> (r: u32)
        ensures
            r == rd_field(self.0),
            r < 32,
    {
        let w = self.0;
        assert((w >> 11u32) & 0x1f < 32) by (bit_vector);
        (self.0 >> 11) & 0b11111
    }

    /// The 16-bit immediate, zero-extended.
    pub fn imm(&self) -> (r: u32)
        ensures
            r == imm_field(self.0),
            r <= 0xffff,
    {
        let w = self.0;
        assert(w & 0xffff <= 0xffff) by (bit_vector);
        self.0 & 0xffff
    }

    /// The 16-bit branch or load offset, as stored in the word.
    pub fn offset(&self) -> (r: u32)
        ensures
            r == imm_field(self.0),
            r <= 0xffff,
    {
        self.imm()
    }
}

} // verus!
