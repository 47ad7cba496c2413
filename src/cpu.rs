use vstd::prelude::*;

pub mod bits;
pub mod cp0;
pub mod instruction;
pub mod reg_config;
pub mod reg_status;

use crate::cpu::cp0::{Cp0, CP0_REG_CONFIG, CP0_REG_STATUS};
use crate::cpu::instruction::{
    decode, imm_field, opcode_field, opcode_of, rd_field, rs_field, rt_field, Instruction, Opcode,
};
use crate::cpu::reg_config::{decode_config, DataTransferPattern, Endianness, RegConfig};
use crate::cpu::reg_status::{decode_status, RegStatus};
use crate::fault::Fault;
use crate::interconnect::{Interconnect, InterconnectView};

verus! {

/// Number of general-purpose (and of floating-point) registers.
pub const NUM_GPR: usize = 32;
/// Program counter after a power-on reset.
pub const RESET_VECTOR: u64 = 0xffff_ffff_bfc0_0000;
/// First virtual address of kseg1.
pub const KSEG1_BASE: u64 = 0xffff_ffff_a000_0000;
/// Bits 31..29 of a kseg1 address.
pub const KSEG1_SELECTOR: u64 = 0b101;

/// `x + d`, modulo 2^64.
pub open spec fn add_wrapping(x: u64, d: int) -> u64 {
    ((x + d) % 0x1_0000_0000_0000_0000int) as u64
}

/// The signed value of the low 16 bits.
pub open spec fn signed16(v: u32) -> int {
    (v as i16) as int
}

/// A 32-bit value sign-extended to 64 bits.
pub open spec fn sign_extended_32(v: u32) -> u64 {
    (v as i32) as u64
}

/// The physical address of a virtual one: only kseg1 (bits 31..29 equal to
/// 0b101) is mapped, onto the low 29 bits.
pub open spec fn translate(virt_addr: u64) -> Result<u32, Fault> {
    if (virt_addr >> 29u64) & 0x7 == KSEG1_SELECTOR {
        Ok((virt_addr & 0x1fff_ffff) as u32)
    } else {
        Err(Fault::UnsupportedSegment { virt_addr })
    }
}

/// Translates a virtual address to a physical one.
pub fn virt_addr_to_phys_addr(virt_addr: u64) -> (r: Result<u32, Fault>)
    ensures
        r == translate(virt_addr),
        r is Ok && virt_addr >= KSEG1_BASE ==> r == Ok::<u32, Fault>(
            (virt_addr - KSEG1_BASE) as u32,
        ),
{
    if (virt_addr >> 29) & 0b111 == KSEG1_SELECTOR {
        assert(virt_addr >= 0xffff_ffff_a000_0000u64 && (virt_addr >> 29u64) & 0x7 == 5
            ==> virt_addr - 0xffff_ffff_a000_0000u64 == virt_addr & 0x1fff_ffff) by (bit_vector);
        Ok((virt_addr & 0x1fff_ffff) as u32)
    } else {
        Err(Fault::UnsupportedSegment { virt_addr })
    }
}

/// The processor state: registers, coprocessor 0 and the memory map.
pub struct CpuState {
    pub gpr: Seq<u64>,
    /// Floating-point registers, as their raw 64-bit patterns.
    pub fpr: Seq<u64>,
    pub pc: u64,
    pub hi: u64,
    pub lo: u64,
    pub llbit: bool,
    pub fcr0: u32,
    pub fcr31: u32,
    pub status: RegStatus,
    pub config: RegConfig,
    pub mem: InterconnectView,
}

impl CpuState {
    pub open spec fn wf(self) -> bool {
        self.gpr.len() == NUM_GPR && self.fpr.len() == NUM_GPR && self.mem.wf()
    }

    /// General-purpose register `i`; register 0 always reads as zero.
    pub open spec fn read_gpr(self, i: int) -> u64 {
        if i == 0 {
            0
        } else {
            self.gpr[i]
        }
    }

    /// The state after writing `v` to register `i`; writes to register 0
    /// are dropped.
    pub open spec fn write_gpr(self, i: int, v: u64) -> CpuState {
        if i == 0 {
            self
        } else {
            CpuState { gpr: self.gpr.update(i, v), ..self }
        }
    }

    /// The word at a virtual address.
    pub open spec fn fetch(self, virt_addr: u64) -> Result<u32, Fault> {
        match translate(virt_addr) {
            Ok(phys_addr) => self.mem.read_word(phys_addr),
            Err(e) => Err(e),
        }
    }

    /// A move to coprocessor-0 register `index`.
    pub open spec fn write_cp0(self, index: u32, data: u64) -> Result<CpuState, Fault> {
        if index == CP0_REG_STATUS {
            match decode_status(data as u32) {
                Ok(s) => Ok(CpuState { status: s, ..self }),
                Err(e) => Err(e),
            }
        } else if index == CP0_REG_CONFIG {
            match decode_config(data as u32) {
                Ok(c) => Ok(CpuState { config: c, ..self }),
                Err(e) => Err(e),
            }
        } else {
            Err(Fault::UnimplementedCp0Reg { index, data })
        }
    }

    /// Dispatches one instruction word, without advancing the PC. The
    /// outcome is `Ok(true)` when a likely branch was taken: the PC then
    /// holds the branch target, where its delay slot is run. On a fault the
    /// state is unchanged.
    pub open spec fn execute(self, word: u32) -> (CpuState, Result<bool, Fault>) {
        let rs = rs_field(word) as int;
        let rt = rt_field(word) as int;
        let imm = imm_field(word);
        match decode(word) {
            Err(e) => (self, Err(e)),
            Ok(Opcode::Andi) => (self.write_gpr(rt, self.read_gpr(rs) & (imm as u64)), Ok(false)),
            Ok(Opcode::Ori) => (self.write_gpr(rt, self.read_gpr(rs) | (imm as u64)), Ok(false)),
            Ok(Opcode::Lui) => (self.write_gpr(rt, sign_extended_32(imm << 16u32)), Ok(false)),
            Ok(Opcode::Mtc0) => match self.write_cp0(rd_field(word), self.read_gpr(rt)) {
                Ok(s) => (s, Ok(false)),
                Err(e) => (self, Err(e)),
            },
            Ok(Opcode::Beql) => if self.read_gpr(rs) == self.read_gpr(rt) {
                (CpuState { pc: add_wrapping(self.pc, 4 * signed16(imm)), ..self }, Ok(true))
            } else {
                (self, Ok(false))
            },
            Ok(Opcode::Lw) => match self.fetch(add_wrapping(self.read_gpr(rs), signed16(imm))) {
                Ok(w) => (self.write_gpr(rt, sign_extended_32(w)), Ok(false)),
                Err(e) => (self, Err(e)),
            },
        }
    }

    /// Fetches and dispatches the instruction at the PC, then advances the
    /// PC by four unless a likely branch was taken.
    pub open spec fn step(self) -> (CpuState, Result<bool, Fault>) {
        match self.fetch(self.pc) {
            Err(e) => (self, Err(e)),
            Ok(word) => {
                let (s, r) = self.execute(word);
                match r {
                    Ok(false) => (CpuState { pc: (s.pc + 4) as u64, ..s }, Ok(false)),
                    _ => (s, r),
                }
            },
        }
    }

    /// One instruction: a step, and when it took a likely branch, a second
    /// step that runs the delay slot at the branch target. A likely branch
    /// taken inside that delay slot leaves the PC at its own target.
    pub open spec fn run_instruction(self) -> (CpuState, Result<(), Fault>) {
        let (s, r) = self.step();
        match r {
            Err(e) => (s, Err(e)),
            Ok(false) => (s, Ok(())),
            Ok(true) => {
                let (s2, r2) = s.step();
                match r2 {
                    Err(e) => (s2, Err(e)),
                    Ok(_) => (s2, Ok(())),
                }
            },
        }
    }

    /// Up to `n` instructions, stopping at the first fault.
    pub open spec fn run(self, n: nat) -> (CpuState, Result<(), Fault>)
        decreases n,
    {
        if n == 0 {
            (self, Ok(()))
        } else {
            let (s, r) = self.run_instruction();
            match r {
                Ok(()) => s.run((n - 1) as nat),
                Err(e) => (s, Err(e)),
            }
        }
    }
}

/// Writing register 0 and reading it back gives zero.
pub proof fn lemma_gpr_zero_hardwired(s: CpuState, v: u64)
    ensures
        s.write_gpr(0, v).read_gpr(0) == 0,
{
}

/// Writing a register other than 0 and reading it back gives the value written.
pub proof fn lemma_gpr_write_read(s: CpuState, i: int, v: u64)
    requires
        s.wf(),
        1 <= i < NUM_GPR,
    ensures
        s.write_gpr(i, v).read_gpr(i) == v,
{
}

/// A word whose primary opcode names no supported instruction faults with
/// that word when executed, and so does the step that fetches it.
pub proof fn lemma_unrecognized_opcode_faults(s: CpuState, word: u32)
    requires
        opcode_of(opcode_field(word)) is None,
    ensures
        s.execute(word) == (s, Err::<bool, Fault>(Fault::UnrecognizedInstruction { word })),
        s.fetch(s.pc) == Ok::<u32, Fault>(word) ==> s.step() == (
        s,
        Err::<bool, Fault>(Fault::UnrecognizedInstruction { word }),
        ),
{
}

/// A taken branch-likely with offset 1 runs the instruction right after it,
/// as its delay slot, and leaves the PC past that instruction.
pub proof fn lemma_beql_taken_runs_delay_slot(s: CpuState, word: u32, slot: u32)
    requires
        s.wf(),
        s.fetch(s.pc) == Ok::<u32, Fault>(word),
        decode(word) == Ok::<Opcode, Fault>(Opcode::Beql),
        imm_field(word) == 1,
        s.read_gpr(rs_field(word) as int) == s.read_gpr(rt_field(word) as int),
        s.fetch((s.pc + 4) as u64) == Ok::<u32, Fault>(slot),
        s.execute(slot).1 == Ok::<bool, Fault>(false),
    ensures
        s.pc + 8 <= u64::MAX,
        s.run_instruction() == (
        CpuState { pc: (s.pc + 8) as u64, ..s.execute(slot).0 },
        Ok::<(), Fault>(()),
        ),
{
    let pc = s.pc;
    assert((pc >> 29u64) & 0x7 == 5 ==> pc < 0xffff_ffff_ffff_fff0u64) by (bit_vector);
    assert(signed16(1) == 1) by (bit_vector);
    let t = CpuState { pc: (pc + 4) as u64, ..s };
    assert(s.execute(word) == (t, Ok::<bool, Fault>(true)));
    lemma_execute_ignores_pc(s, slot, (pc + 4) as u64);
}

/// An instruction that is not a taken likely branch neither reads nor
/// writes the PC.
proof fn lemma_execute_ignores_pc(s: CpuState, word: u32, pc: u64)
    requires
        s.execute(word).1 == Ok::<bool, Fault>(false),
    ensures
        s.execute(word).0.pc == s.pc,
        (CpuState { pc, ..s }).execute(word) == (
        CpuState { pc, ..s.execute(word).0 },
        Ok::<bool, Fault>(false),
        ),
{
    let t = CpuState { pc, ..s };
    assert(forall|i: int, v: u64| #[trigger] t.write_gpr(i, v) == CpuState { pc, ..s.write_gpr(i, v) });
    assert(forall|a: u64| #[trigger] t.fetch(a) == s.fetch(a));
    assert(forall|i: int| #[trigger] t.read_gpr(i) == s.read_gpr(i));
}

/// A branch-likely that is not taken only advances the PC by four: the
/// instruction after it is neither fetched nor run.
pub proof fn lemma_beql_not_taken_annuls_delay_slot(s: CpuState, word: u32)
    requires
        s.wf(),
        s.fetch(s.pc) == Ok::<u32, Fault>(word),
        decode(word) == Ok::<Opcode, Fault>(Opcode::Beql),
        s.read_gpr(rs_field(word) as int) != s.read_gpr(rt_field(word) as int),
    ensures
        s.run_instruction() == (CpuState { pc: (s.pc + 4) as u64, ..s }, Ok::<(), Fault>(())),
{
}

/// A VR4300 processor with its memory map.
pub struct Cpu {
    reg_gpr: [u64; NUM_GPR],
    reg_fpr: [u64; NUM_GPR],
    reg_pc: u64,
    reg_hi: u64,
    reg_lo: u64,
    reg_llbit: bool,
    reg_fcr0: u32,
    reg_fcr31: u32,
    cp0: Cp0,
    interconnect: Interconnect,
}

impl View for Cpu {
    type V = CpuState;

    closed spec fn view(&self) -> CpuState {
        CpuState {
            gpr: self.reg_gpr@,
            fpr: self.reg_fpr@,
            pc: self.reg_pc,
            hi: self.reg_hi,
            lo: self.reg_lo,
            llbit: self.reg_llbit,
            fcr0: self.reg_fcr0,
            fcr31: self.reg_fcr31,
            status: self.cp0.spec_status(),
            config: self.cp0.spec_config(),
            mem: self.interconnect@,
        }
    }
}

impl Cpu {
    /// A processor with every register zero, and both coprocessor-0
    /// registers as a raw zero decodes, over the given memory map.
    pub fn new(interconnect: Interconnect) -> (r: Cpu)
        requires
            interconnect@.wf(),
        ensures
            r@.wf(),
            r@.gpr == Seq::new(NUM_GPR as nat, |i: int| 0u64),
            r@.fpr == Seq::new(NUM_GPR as nat, |i: int| 0u64),
            r@.pc == 0 && r@.hi == 0 && r@.lo == 0 && !r@.llbit,
            r@.fcr0 == 0 && r@.fcr31 == 0,
            decode_status(0) == Ok::<RegStatus, Fault>(r@.status),
            decode_config(0) == Ok::<RegConfig, Fault>(r@.config),
            r@.mem == interconnect@,
    {
        let r = Cpu {
            reg_gpr: [0; NUM_GPR],
            reg_fpr: [0; NUM_GPR],
            reg_pc: 0,
            reg_hi: 0,
            reg_lo: 0,
            reg_llbit: false,
            reg_fcr0: 0,
            reg_fcr31: 0,
            cp0: Cp0::new(),
            interconnect,
        };
        assert(r@.gpr =~= Seq::new(NUM_GPR as nat, |i: int| 0u64));
        assert(r@.fpr =~= Seq::new(NUM_GPR as nat, |i: int| 0u64));
        r
    }

    /// Power-on reset: Config takes its reset defaults and the PC the reset
    /// vector; everything else keeps its value.
    pub fn power_on_reset(&mut self)
        ensures
            final(self)@ == (CpuState {
                pc: RESET_VECTOR,
                config: RegConfig {
                    data_transfer_pattern: DataTransferPattern::Normal,
                    endianness: Endianness::Big,
                    ..old(self)@.config
                },
                ..old(self)@
            }),
    {
        self.cp0.power_on_reset();
        self.reg_pc = RESET_VECTOR;
    }

    /// Reads general-purpose register `index`.
    pub fn read_gpr(&self, index: usize) -> (r: u64)
        requires
            index < NUM_GPR,
        ensures
            r == self@.read_gpr(index as int),
    {
        if index == 0 {
            0
        } else {
            self.reg_gpr[index]
        }
    }

    /// Writes general-purpose register `index`; a write to register 0 is
    /// dropped.
    pub fn write_gpr(&mut self, index: usize, value: u64)
        requires
            index < NUM_GPR,
        ensures
            final(self)@ == old(self)@.write_gpr(index as int, value),
    {
        if index != 0 {
            self.reg_gpr[index] = value;
        }
        proof {
            if index != 0 {
                assert(self@.gpr =~= old(self)@.gpr.update(index as int, value));
            }
        }
    }

    /// Reads the word at a virtual address.
    fn read_word(&self, virt_addr: u64) -> (r: Result<u32, Fault>)
        requires
            self@.wf(),
        ensures
            r == self@.fetch(virt_addr),
    {
        let phys_addr = virt_addr_to_phys_addr(virt_addr)?;
        self.interconnect.read_word(phys_addr)
    }

    /// Fetches, decodes and executes the instruction at the PC. A taken
    /// likely branch also runs its delay slot, the instruction at the branch
    /// target, before the PC advances.
    pub fn run_instruction(&mut self) -> (r: Result<(), Fault>)
        requires
            old(self)@.wf(),
        ensures
            (final(self)@, r) == old(self)@.run_instruction(),
            final(self)@.wf(),
    {
        let taken = self.step()?;
        if taken {
            self.step()?;
        }
        Ok(())
    }

    /// Runs up to `max_instructions` instructions, stopping at the first
    /// fault.
    pub fn run(&mut self, max_instructions: u64) -> (r: Result<(), Fault>)
        requires
            old(self)@.wf(),
        ensures
            (final(self)@, r) == old(self)@.run(max_instructions as nat),
            final(self)@.wf(),
    {
        let mut left = max_instructions;
        while left > 0
            invariant
                self@.wf(),
                old(self)@.run(max_instructions as nat) == self@.run(left as nat),
            decreases left,
        {
            self.run_instruction()?;
            left = left - 1;
        }
        Ok(())
    }

    /// Fetches and dispatches the instruction at the PC; the PC advances by
    /// four unless a likely branch was taken.
    fn step(&mut self) -> (r: Result<bool, Fault>)
        requires
            old(self)@.wf(),
        ensures
            (final(self)@, r) == old(self)@.step(),
            final(self)@.wf(),
    {
        let word = self.read_word(self.reg_pc)?;
        let pc = self.reg_pc;
        assert((pc >> 29u64) & 0x7 == 5 ==> pc < 0xffff_ffff_ffff_fffcu64) by (bit_vector);
        let taken = self.execute(Instruction(word))?;
        if !taken {
            self.reg_pc = self.reg_pc + 4;
        }
        Ok(taken)
    }

    /// Executes one instruction word without advancing the PC.
    fn execute(&mut self, instr: Instruction) -> (r: Result<bool, Fault>)
        requires
            old(self)@.wf(),
        ensures
            (final(self)@, r) == old(self)@.execute(instr.0),
            final(self)@.wf(),
    {
        let opcode = instr.opcode()?;
        match opcode {
            Opcode::Andi => {
                let res = self.read_gpr(instr.rs() as usize) & (instr.imm() as u64);
                self.write_gpr(instr.rt() as usize, res);
                Ok(false)
            },
            Opcode::Ori => {
                let res = self.read_gpr(instr.rs() as usize) | (instr.imm() as u64);
                self.write_gpr(instr.rt() as usize, res);
                Ok(false)
            },
            Opcode::Lui => {
                let value = ((instr.imm() << 16) as i32) as u64;
                self.write_gpr(instr.rt() as usize, value);
                Ok(false)
            },
            Opcode::Mtc0 => {
                let data = self.read_gpr(instr.rt() as usize);
                self.cp0.write_reg(instr.rd(), data)?;
                Ok(false)
            },
            Opcode::Beql => {
                if self.read_gpr(instr.rs() as usize) == self.read_gpr(instr.rt() as usize) {
                    let displacement = ((instr.offset() as i16) as i64) * 4;
                    self.reg_pc = self.reg_pc.wrapping_add_signed(displacement);
                    Ok(true)
                } else {
                    Ok(false)
                }
            },
            Opcode::Lw => {
                let offset = (instr.offset() as i16) as i64;
                let virt_addr = self.read_gpr(instr.rs() as usize).wrapping_add_signed(offset);
                let word = self.read_word(virt_addr)?;
                self.write_gpr(instr.rt() as usize, (word as i32) as u64);
                Ok(false)
            },
        }
    }

    /// The program counter.
    pub fn pc(&self) -> (r: u64)
        ensures
            r == self@.pc,
    {
        self.reg_pc
    }

    /// The HI multiply/divide result register.
    pub fn hi(&self) -> (r: u64)
        ensures
            r == self@.hi,
    {
        self.reg_hi
    }

    /// The LO multiply/divide result register.
    pub fn lo(&self) -> (r: u64)
        ensures
            r == self@.lo,
    {
        self.reg_lo
    }

    /// The load-linked bit.
    pub fn llbit(&self) -> (r: bool)
        ensures
            r == self@.llbit,
    {
        self.reg_llbit
    }

    /// Floating-point control register 0, the implementation number.
    pub fn fcr0(&self) -> (r: u32)
        ensures
            r == self@.fcr0,
    {
        self.reg_fcr0
    }

    /// Floating-point control register 31, control and status.
    pub fn fcr31(&self) -> (r: u32)
        ensures
            r == self@.fcr31,
    {
        self.reg_fcr31
    }

    /// The raw 64-bit pattern of floating-point register `index`.
    pub fn fpr_bits(&self, index: usize) -> (r: u64)
        requires
            index < NUM_GPR,
        ensures
            r == self@.fpr[index as int],
    {
        self.reg_fpr[index]
    }

    /// Coprocessor 0.
    pub fn cp0(&self) -> (r: &Cp0)
        ensures
            r.spec_status() == self@.status,
            r.spec_config() == self@.config,
    {
        &self.cp0
    }

    /// The memory map.
    pub fn interconnect(&self) -> (r: &Interconnect)
        ensures
            r@ == self@.mem,
    {
        &self.interconnect
    }
}

} // verus!
