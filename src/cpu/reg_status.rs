use vstd::prelude::*;

use crate::cpu::bits::{bit_of, flag_at, flag_bit, lemma_bit_of_flag_at, read_flag};
use crate::fault::Fault;

verus! {

/// The bits of Status that the typed register holds: all but bits 23, 19,
/// 17 and 16.
pub const STATUS_FIELDS_MASK: u32 = 0xff74_ffff;
/// KSU field values.
pub const KSU_KERNEL: u32 = 0b00;
pub const KSU_SUPERVISOR: u32 = 0b01;
pub const KSU_USER: u32 = 0b10;

/// BEV: where TLB miss and general exceptions are vectored.
#[derive(Debug, Clone, Copy, PartialEq, Eq, Structural)]
pub enum ExceptionVectorLocation {
    Normal,
    Bootstrap,
}

/// KSU: the operating mode.
#[derive(Debug, Clone, Copy, PartialEq, Eq, Structural)]
pub enum Mode {
    Kernel,
    Supervisor,
    User,
}

/// DS: the diagnostic status sub-fields, bits 24..18.
#[derive(Debug, Clone, Copy, PartialEq, Eq)]
pub struct DiagnosticStatus {
    /// ITS, bit 24.
    pub instruction_trace_support: bool,
    /// BEV, bit 22.
    pub tlb_general_exception_vector_location: ExceptionVectorLocation,
    /// TS, bit 21.
    pub tlb_shutdown: bool,
    /// SR, bit 20.
    pub soft_reset_or_nmi_occurred: bool,
    /// CH, bit 18.
    pub condition_bit: bool,
}

/// IM(7:0): the interrupt mask, bits 15..8.
#[derive(Debug, Clone, Copy, PartialEq, Eq)]
pub struct InterruptMask {
    /// IM(7), bit 15.
    pub timer_interrupt: bool,
    /// IM(6:2), bits 10..14 in this order.
    pub external_interrupt_write_req: [bool; 5],
    /// IM(1:0), bits 8 and 9 in this order.
    pub software_interrupt_cause_reg: [bool; 2],
}

/// Coprocessor-0 register 12, Status, in typed form.
#[derive(Debug, Clone, Copy, PartialEq, Eq)]
pub struct RegStatus {
    /// CU3..CU0, bits 28..31 in this order.
    pub coprocessor_usability: [bool; 4],
    /// RP, bit 27.
    pub low_power: bool,
    /// FR, bit 26.
    pub additional_fp_regs: bool,
    /// RE, bit 25.
    pub reverse_endian: bool,
    /// DS, bits 24..18.
    pub diagnostic_status: DiagnosticStatus,
    /// IM, bits 15..8.
    pub interrupt_mask: InterruptMask,
    /// KX, bit 7.
    pub kernel_mode_64bit_addressing: bool,
    /// SX, bit 6.
    pub supervisor_mode_64bit_addressing: bool,
    /// UX, bit 5.
    pub user_mode_64bit_addressing: bool,
    /// KSU, bits 4..3.
    pub mode: Mode,
    /// ERL, bit 2.
    pub error_level: bool,
    /// EXL, bit 1.
    pub exception_level: bool,
    /// IE, bit 0.
    pub interrupts_enabled: bool,
}

pub open spec fn ksu_field(raw: u32) -> u32 {
    (raw >> 3u32) & 0x3
}

pub open spec fn decode_mode(raw: u32) -> Result<Mode, Fault> {
    if ksu_field(raw) == KSU_KERNEL {
        Ok(Mode::Kernel)
    } else if ksu_field(raw) == KSU_SUPERVISOR {
        Ok(Mode::Supervisor)
    } else if ksu_field(raw) == KSU_USER {
        Ok(Mode::User)
    } else {
        Err(Fault::InvalidMode { raw })
    }
}

pub open spec fn decode_exception_vector_location(raw: u32) -> ExceptionVectorLocation {
    if flag_at(raw, 22) {
        ExceptionVectorLocation::Bootstrap
    } else {
        ExceptionVectorLocation::Normal
    }
}

pub open spec fn decode_diagnostic_status(raw: u32) -> DiagnosticStatus {
    DiagnosticStatus {
        instruction_trace_support: flag_at(raw, 24),
        tlb_general_exception_vector_location: decode_exception_vector_location(raw),
        tlb_shutdown: flag_at(raw, 21),
        soft_reset_or_nmi_occurred: flag_at(raw, 20),
        condition_bit: flag_at(raw, 18),
    }
}

pub open spec fn decode_interrupt_mask(raw: u32) -> InterruptMask {
    InterruptMask {
        timer_interrupt: flag_at(raw, 15),
        external_interrupt_write_req: [
            flag_at(raw, 10),
            flag_at(raw, 11),
            flag_at(raw, 12),
            flag_at(raw, 13),
            flag_at(raw, 14),
        ],
        software_interrupt_cause_reg: [flag_at(raw, 8), flag_at(raw, 9)],
    }
}

/// The typed Status register that a raw value stands for, or the fault that
/// the reserved KSU pattern raises.
pub open spec fn decode_status(raw: u32) -> Result<RegStatus, Fault> {
    match decode_mode(raw) {
        Ok(mode) => Ok(
            RegStatus {
                coprocessor_usability: [
                    flag_at(raw, 28),
                    flag_at(raw, 29),
                    flag_at(raw, 30),
                    flag_at(raw, 31),
                ],
                low_power: flag_at(raw, 27),
                additional_fp_regs: flag_at(raw, 26),
                reverse_endian: flag_at(raw, 25),
                diagnostic_status: decode_diagnostic_status(raw),
                interrupt_mask: decode_interrupt_mask(raw),
                kernel_mode_64bit_addressing: flag_at(raw, 7),
                supervisor_mode_64bit_addressing: flag_at(raw, 6),
                user_mode_64bit_addressing: flag_at(raw, 5),
                mode,
                error_level: flag_at(raw, 2),
                exception_level: flag_at(raw, 1),
                interrupts_enabled: flag_at(raw, 0),
            },
        ),
        Err(e) => Err(e),
    }
}

/// Bits 31..24 of Status: CU3..CU0, RP, FR, RE, ITS.
#[verifier::opaque]
pub open spec fn status_high_byte(s: RegStatus) -> u32 {
    (bit_of(s.coprocessor_usability[3]) << 7u32) | (bit_of(s.coprocessor_usability[2]) << 6u32)
        | (bit_of(s.coprocessor_usability[1]) << 5u32) | (bit_of(s.coprocessor_usability[0])
        << 4u32) | (bit_of(s.low_power) << 3u32) | (bit_of(s.additional_fp_regs) << 2u32) | (
    bit_of(s.reverse_endian) << 1u32) | bit_of(s.diagnostic_status.instruction_trace_support)
}

/// Bits 7..0 of Status: KX, SX, UX, KSU, ERL, EXL, IE.
#[verifier::opaque]
pub open spec fn status_low_byte(s: RegStatus) -> u32 {
    (bit_of(s.kernel_mode_64bit_addressing) << 7u32) | (bit_of(s.supervisor_mode_64bit_addressing)
        << 6u32) | (bit_of(s.user_mode_64bit_addressing) << 5u32) | (s.mode.spec_bits() << 3u32)
        | (bit_of(s.error_level) << 2u32) | (bit_of(s.exception_level) << 1u32) | bit_of(
        s.interrupts_enabled,
    )
}

/// Raw Status values that hold only modelled fields and a defined mode.
pub open spec fn is_canonical_status(raw: u32) -> bool {
    raw & !STATUS_FIELDS_MASK == 0 && ksu_field(raw) != 0b11
}

impl Mode {
    pub open spec fn spec_bits(self) -> u32 {
        match self {
            Mode::Kernel => KSU_KERNEL,
            Mode::Supervisor => KSU_SUPERVISOR,
            Mode::User => KSU_USER,
        }
    }

    /// The KSU field value of this mode.
    pub fn bits(&self) -> (r: u32)
        ensures
            r == self.spec_bits(),
    {
        match self {
            Mode::Kernel => KSU_KERNEL,
            Mode::Supervisor => KSU_SUPERVISOR,
            Mode::User => KSU_USER,
        }
    }

    /// Reads the KSU field of a raw Status value.
    pub fn decode(raw: u32) -> (r: Result<Mode, Fault>)
        ensures
            r == decode_mode(raw),
    {
        match (raw >> 3) & 0b11 {
            KSU_KERNEL => Ok(Mode::Kernel),
            KSU_SUPERVISOR => Ok(Mode::Supervisor),
            KSU_USER => Ok(Mode::User),
            _ => Err(Fault::InvalidMode { raw }),
        }
    }
}

impl ExceptionVectorLocation {
    pub fn is_bootstrap(&self) -> (r: bool)
        ensures
            r == (*self == ExceptionVectorLocation::Bootstrap),
    {
        match self {
            ExceptionVectorLocation::Bootstrap => true,
            ExceptionVectorLocation::Normal => false,
        }
    }

    /// Reads the BEV bit of a raw Status value.
    pub fn decode(raw: u32) -> (r: ExceptionVectorLocation)
        ensures
            r == decode_exception_vector_location(raw),
    {
        if read_flag(raw, 22) {
            ExceptionVectorLocation::Bootstrap
        } else {
            ExceptionVectorLocation::Normal
        }
    }
}

impl DiagnosticStatus {
    /// Bits 23..16 of Status: BEV, TS, SR, CH in bits 6, 5, 4, 2.
    #[verifier::opaque]
    pub open spec fn spec_byte(self) -> u32 {
        (bit_of(self.tlb_general_exception_vector_location == ExceptionVectorLocation::Bootstrap)
            << 6u32)
                | (bit_of(self.tlb_shutdown) << 5u32)
                | (bit_of(self.soft_reset_or_nmi_occurred)
            << 4u32) | (bit_of(self.condition_bit) << 2u32)
    }

    fn encode_byte(&self) -> (r: u32)
        ensures
            r == self.spec_byte(),
    {
        proof {
            reveal(DiagnosticStatus::spec_byte);
        }
        (flag_bit(self.tlb_general_exception_vector_location.is_bootstrap()) << 6) | (flag_bit(
            self.tlb_shutdown,
        ) << 5) | (flag_bit(self.soft_reset_or_nmi_occurred) << 4) | (flag_bit(self.condition_bit)
            << 2)
    }
    /// Reads the DS sub-fields of a raw Status value.
    pub fn decode(raw: u32) -> (r: DiagnosticStatus)
        ensures
            r == decode_diagnostic_status(raw),
    {
        DiagnosticStatus {
            instruction_trace_support: read_flag(raw, 24),
            tlb_general_exception_vector_location: ExceptionVectorLocation::decode(raw),
            tlb_shutdown: read_flag(raw, 21),
            soft_reset_or_nmi_occurred: read_flag(raw, 20),
            condition_bit: read_flag(raw, 18),
        }
    }
}

impl InterruptMask {
    /// Bits 15..8 of Status.
    #[verifier::opaque]
    pub open spec fn spec_byte(self) -> u32 {
        (bit_of(self.timer_interrupt) << 7u32) | (bit_of(self.external_interrupt_write_req[4])
            << 6u32) | (bit_of(self.external_interrupt_write_req[3]) << 5u32) | (bit_of(
            self.external_interrupt_write_req[2],
        ) << 4u32) | (bit_of(self.external_interrupt_write_req[1]) << 3u32) | (bit_of(
            self.external_interrupt_write_req[0],
        ) << 2u32) | (bit_of(self.software_interrupt_cause_reg[1]) << 1u32) | bit_of(
            self.software_interrupt_cause_reg[0],
        )
    }

    fn encode_byte(&self) -> (r: u32)
        ensures
            r == self.spec_byte(),
    {
        proof {
            reveal(InterruptMask::spec_byte);
        }
        (flag_bit(self.timer_interrupt) << 7)
            | (flag_bit(self.external_interrupt_write_req[4]) << 6)
            | (flag_bit(self.external_interrupt_write_req[3]) << 5) | (flag_bit(
            self.external_interrupt_write_req[2],
        ) << 4) | (flag_bit(self.external_interrupt_write_req[1]) << 3) | (flag_bit(
            self.external_interrupt_write_req[0],
        ) << 2) | (flag_bit(self.software_interrupt_cause_reg[1]) << 1) | flag_bit(
            self.software_interrupt_cause_reg[0],
        )
    }
    /// Reads the IM field of a raw Status value.
    pub fn decode(raw: u32) -> (r: InterruptMask)
        ensures
            r == decode_interrupt_mask(raw),
    {
        InterruptMask {
            timer_interrupt: read_flag(raw, 15),
            external_interrupt_write_req: [
                read_flag(raw, 10),
                read_flag(raw, 11),
                read_flag(raw, 12),
                read_flag(raw, 13),
                read_flag(raw, 14),
            ],
            software_interrupt_cause_reg: [read_flag(raw, 8), read_flag(raw, 9)],
        }
    }
}

impl RegStatus {
    /// The raw 32-bit value of this register.
    pub open spec fn spec_encode(self) -> u32 {
        (status_high_byte(self) << 24u32) | (self.diagnostic_status.spec_byte() << 16u32) | (
        self.interrupt_mask.spec_byte() << 8u32) | status_low_byte(self)
    }

    /// Decodes a raw Status value, failing on the reserved KSU pattern.
    pub fn decode(raw: u32) -> (r: Result<RegStatus, Fault>)
        ensures
            r == decode_status(raw),
    {
        match Mode::decode(raw) {
            Ok(mode) => Ok(
                RegStatus {
                    coprocessor_usability: [
                        read_flag(raw, 28),
                        read_flag(raw, 29),
                        read_flag(raw, 30),
                        read_flag(raw, 31),
                    ],
                    low_power: read_flag(raw, 27),
                    additional_fp_regs: read_flag(raw, 26),
                    reverse_endian: read_flag(raw, 25),
                    diagnostic_status: DiagnosticStatus::decode(raw),
                    interrupt_mask: InterruptMask::decode(raw),
                    kernel_mode_64bit_addressing: read_flag(raw, 7),
                    supervisor_mode_64bit_addressing: read_flag(raw, 6),
                    user_mode_64bit_addressing: read_flag(raw, 5),
                    mode,
                    error_level: read_flag(raw, 2),
                    exception_level: read_flag(raw, 1),
                    interrupts_enabled: read_flag(raw, 0),
                },
            ),
            Err(e) => Err(e),
        }
    }

    fn encode_high_byte(&self) -> (r: u32)
        ensures
            r == status_high_byte(*self),
    {
        proof {
            reveal(status_high_byte);
        }
        (flag_bit(self.coprocessor_usability[3]) << 7) | (flag_bit(self.coprocessor_usability[2])
            << 6) | (flag_bit(self.coprocessor_usability[1]) << 5) | (flag_bit(
            self.coprocessor_usability[0],
        ) << 4) | (flag_bit(self.low_power) << 3) | (flag_bit(self.additional_fp_regs) << 2) | (
        flag_bit(self.reverse_endian) << 1) | flag_bit(
            self.diagnostic_status.instruction_trace_support,
        )
    }

    fn encode_low_byte(&self) -> (r: u32)
        ensures
            r == status_low_byte(*self),
    {
        proof {
            reveal(status_low_byte);
        }
        (flag_bit(self.kernel_mode_64bit_addressing) << 7) | (flag_bit(
            self.supervisor_mode_64bit_addressing,
        ) << 6) | (flag_bit(self.user_mode_64bit_addressing) << 5) | (self.mode.bits() << 3) | (
        flag_bit(self.error_level) << 2) | (flag_bit(self.exception_level) << 1) | flag_bit(
            self.interrupts_enabled,
        )
    }

    /// Encodes this register as its raw 32-bit value.
    pub fn encode(&self) -> (r: u32)
        ensures
            r == self.spec_encode(),
    {
        let high = self.encode_high_byte();
        let diagnostic = self.diagnostic_status.encode_byte();
        let mask = self.interrupt_mask.encode_byte();
        let low = self.encode_low_byte();
        (high << 24) | (diagnostic << 16) | (mask << 8) | low
    }
}

/// Each flag of the high byte sits at its bit.
proof fn lemma_high_byte_fields(s: RegStatus)
    ensures
        status_high_byte(s) < 256,
        flag_at(status_high_byte(s), 7) == (s.coprocessor_usability[3]),
        flag_at(status_high_byte(s), 6) == (s.coprocessor_usability[2]),
        flag_at(status_high_byte(s), 5) == (s.coprocessor_usability[1]),
        flag_at(status_high_byte(s), 4) == (s.coprocessor_usability[0]),
        flag_at(status_high_byte(s), 3) == (s.low_power),
        flag_at(status_high_byte(s), 2) == (s.additional_fp_regs),
        flag_at(status_high_byte(s), 1) == (s.reverse_endian),
        flag_at(status_high_byte(s), 0) == (s.diagnostic_status.instruction_trace_support),
{
    reveal(status_high_byte);
    let a7 = bit_of(s.coprocessor_usability[3]);
    let a6 = bit_of(s.coprocessor_usability[2]);
    let a5 = bit_of(s.coprocessor_usability[1]);
    let a4 = bit_of(s.coprocessor_usability[0]);
    let a3 = bit_of(s.low_power);
    let a2 = bit_of(s.additional_fp_regs);
    let a1 = bit_of(s.reverse_endian);
    let a0 = bit_of(s.diagnostic_status.instruction_trace_support);
    let b = status_high_byte(s);
    assert(b < 256 &&
        ((b >> 7u32) & 1 == a7) &&
        ((b >> 6u32) & 1 == a6) &&
        ((b >> 5u32) & 1 == a5) &&
        ((b >> 4u32) & 1 == a4) &&
        ((b >> 3u32) & 1 == a3) &&
        ((b >> 2u32) & 1 == a2) &&
        ((b >> 1u32) & 1 == a1) &&
        ((b >> 0u32) & 1 == a0)) by (bit_vector)
        requires
            b == (a7 << 7u32)
                | (a6 << 6u32)
                | (a5 << 5u32)
                | (a4 << 4u32)
                | (a3 << 3u32)
                | (a2 << 2u32)
                | (a1 << 1u32)
                | a0,
            a7 <= 1, a6 <= 1, a5 <= 1, a4 <= 1, a3 <= 1, a2 <= 1, a1 <= 1, a0 <= 1,
    ;
}

/// Each flag and the mode of the low byte sit at their bits.
proof fn lemma_low_byte_fields(s: RegStatus)
    ensures
        status_low_byte(s) < 256,
        flag_at(status_low_byte(s), 7) == (s.kernel_mode_64bit_addressing),
        flag_at(status_low_byte(s), 6) == (s.supervisor_mode_64bit_addressing),
        flag_at(status_low_byte(s), 5) == (s.user_mode_64bit_addressing),
        flag_at(status_low_byte(s), 2) == (s.error_level),
        flag_at(status_low_byte(s), 1) == (s.exception_level),
        flag_at(status_low_byte(s), 0) == (s.interrupts_enabled),
        (status_low_byte(s) >> 3u32) & 0x3 == s.mode.spec_bits(),
{
    reveal(status_low_byte);
    let a7 = bit_of(s.kernel_mode_64bit_addressing);
    let a6 = bit_of(s.supervisor_mode_64bit_addressing);
    let a5 = bit_of(s.user_mode_64bit_addressing);
    let a2 = bit_of(s.error_level);
    let a1 = bit_of(s.exception_level);
    let a0 = bit_of(s.interrupts_enabled);
    let m = s.mode.spec_bits();
    let b = status_low_byte(s);
    assert(b < 256 &&
        ((b >> 7u32) & 1 == a7) &&
        ((b >> 6u32) & 1 == a6) &&
        ((b >> 5u32) & 1 == a5) &&
        ((b >> 2u32) & 1 == a2) &&
        ((b >> 1u32) & 1 == a1) &&
        ((b >> 0u32) & 1 == a0) &&
        ((b >> 3u32) & 0x3 == m)) by (bit_vector)
        requires
            b == (a7 << 7u32)
                | (a6 << 6u32)
                | (a5 << 5u32)
                | (m << 3u32)
                | (a2 << 2u32)
                | (a1 << 1u32)
                | a0,
            a7 <= 1, a6 <= 1, a5 <= 1, m <= 2, a2 <= 1, a1 <= 1, a0 <= 1,
    ;
}

/// Each diagnostic flag sits at its bit of the DS byte.
proof fn lemma_diagnostic_byte_fields(d: DiagnosticStatus)
    ensures
        d.spec_byte() < 256,
        flag_at(d.spec_byte(), 6) == (d.tlb_general_exception_vector_location == ExceptionVectorLocation::Bootstrap),
        flag_at(d.spec_byte(), 5) == (d.tlb_shutdown),
        flag_at(d.spec_byte(), 4) == (d.soft_reset_or_nmi_occurred),
        flag_at(d.spec_byte(), 2) == (d.condition_bit),
{
    reveal(DiagnosticStatus::spec_byte);
    let a6 = bit_of(d.tlb_general_exception_vector_location == ExceptionVectorLocation::Bootstrap);
    let a5 = bit_of(d.tlb_shutdown);
    let a4 = bit_of(d.soft_reset_or_nmi_occurred);
    let a2 = bit_of(d.condition_bit);
    let b = d.spec_byte();
    assert(b < 256 &&
        ((b >> 6u32) & 1 == a6) &&
        ((b >> 5u32) & 1 == a5) &&
        ((b >> 4u32) & 1 == a4) &&
        ((b >> 2u32) & 1 == a2)) by (bit_vector)
        requires
            b == (a6 << 6u32) | (a5 << 5u32) | (a4 << 4u32) | (a2 << 2u32),
            a6 <= 1, a5 <= 1, a4 <= 1, a2 <= 1,
    ;
}

/// Each interrupt-mask flag sits at its bit of the IM byte.
proof fn lemma_interrupt_mask_byte_fields(m: InterruptMask)
    ensures
        m.spec_byte() < 256,
        flag_at(m.spec_byte(), 7) == (m.timer_interrupt),
        flag_at(m.spec_byte(), 6) == (m.external_interrupt_write_req[4]),
        flag_at(m.spec_byte(), 5) == (m.external_interrupt_write_req[3]),
        flag_at(m.spec_byte(), 4) == (m.external_interrupt_write_req[2]),
        flag_at(m.spec_byte(), 3) == (m.external_interrupt_write_req[1]),
        flag_at(m.spec_byte(), 2) == (m.external_interrupt_write_req[0]),
        flag_at(m.spec_byte(), 1) == (m.software_interrupt_cause_reg[1]),
        flag_at(m.spec_byte(), 0) == (m.software_interrupt_cause_reg[0]),
{
    reveal(InterruptMask::spec_byte);
    let a7 = bit_of(m.timer_interrupt);
    let a6 = bit_of(m.external_interrupt_write_req[4]);
    let a5 = bit_of(m.external_interrupt_write_req[3]);
    let a4 = bit_of(m.external_interrupt_write_req[2]);
    let a3 = bit_of(m.external_interrupt_write_req[1]);
    let a2 = bit_of(m.external_interrupt_write_req[0]);
    let a1 = bit_of(m.software_interrupt_cause_reg[1]);
    let a0 = bit_of(m.software_interrupt_cause_reg[0]);
    let b = m.spec_byte();
    assert(b < 256 &&
        ((b >> 7u32) & 1 == a7) &&
        ((b >> 6u32) & 1 == a6) &&
        ((b >> 5u32) & 1 == a5) &&
        ((b >> 4u32) & 1 == a4) &&
        ((b >> 3u32) & 1 == a3) &&
        ((b >> 2u32) & 1 == a2) &&
        ((b >> 1u32) & 1 == a1) &&
        ((b >> 0u32) & 1 == a0)) by (bit_vector)
        requires
            b == (a7 << 7u32)
                | (a6 << 6u32)
                | (a5 << 5u32)
                | (a4 << 4u32)
                | (a3 << 3u32)
                | (a2 << 2u32)
                | (a1 << 1u32)
                | a0,
            a7 <= 1, a6 <= 1, a5 <= 1, a4 <= 1, a3 <= 1, a2 <= 1, a1 <= 1, a0 <= 1,
    ;
}

/// Re-encoding the flags decoded from bits 31..24 gives those bits back.
proof fn lemma_high_byte_of_raw(raw: u32)
    requires
        decode_status(raw) is Ok,
    ensures
        status_high_byte(decode_status(raw).unwrap()) == (raw >> 24u32) & 0xff,
{
    reveal(status_high_byte);
    lemma_bit_of_flag_at(raw, 31);
    lemma_bit_of_flag_at(raw, 30);
    lemma_bit_of_flag_at(raw, 29);
    lemma_bit_of_flag_at(raw, 28);
    lemma_bit_of_flag_at(raw, 27);
    lemma_bit_of_flag_at(raw, 26);
    lemma_bit_of_flag_at(raw, 25);
    lemma_bit_of_flag_at(raw, 24);
    assert((((raw >> 31u32) & 1) << 7u32)
        | (((raw >> 30u32) & 1) << 6u32)
        | (((raw >> 29u32) & 1) << 5u32)
        | (((raw >> 28u32) & 1) << 4u32)
        | (((raw >> 27u32) & 1) << 3u32)
        | (((raw >> 26u32) & 1) << 2u32)
        | (((raw >> 25u32) & 1) << 1u32)
        | ((raw >> 24u32) & 1) == (raw >> 24u32) & 0xff) by (bit_vector);
}

/// Re-encoding the fields decoded from bits 7..0 gives those bits back.
proof fn lemma_low_byte_of_raw(raw: u32)
    requires
        decode_status(raw) is Ok,
    ensures
        status_low_byte(decode_status(raw).unwrap()) == (raw >> 0u32) & 0xff,
{
    reveal(status_low_byte);
    lemma_bit_of_flag_at(raw, 7);
    lemma_bit_of_flag_at(raw, 6);
    lemma_bit_of_flag_at(raw, 5);
    lemma_bit_of_flag_at(raw, 2);
    lemma_bit_of_flag_at(raw, 1);
    lemma_bit_of_flag_at(raw, 0);
    assert(decode_status(raw).unwrap().mode.spec_bits() == ksu_field(raw));
    assert((((raw >> 7u32) & 1) << 7u32)
        | (((raw >> 6u32) & 1) << 6u32)
        | (((raw >> 5u32) & 1) << 5u32)
        | (((raw >> 3u32) & 0x3) << 3u32)
        | (((raw >> 2u32) & 1) << 2u32)
        | (((raw >> 1u32) & 1) << 1u32)
        | ((raw >> 0u32) & 1) == (raw >> 0u32) & 0xff) by (bit_vector);
}

/// Re-encoding the DS flags gives bits 23..16 back when the unmodelled
/// bits among them are clear.
proof fn lemma_diagnostic_byte_of_raw(raw: u32)
    requires
        raw & 0x008b_0000 == 0,
    ensures
        decode_diagnostic_status(raw).spec_byte() == (raw >> 16u32) & 0xff,
{
    reveal(DiagnosticStatus::spec_byte);
    lemma_bit_of_flag_at(raw, 22);
    lemma_bit_of_flag_at(raw, 21);
    lemma_bit_of_flag_at(raw, 20);
    lemma_bit_of_flag_at(raw, 18);
    assert(raw & 0x008b_0000u32 == 0 ==> (((raw >> 22u32) & 1) << 6u32)
        | (((raw >> 21u32) & 1) << 5u32)
        | (((raw >> 20u32) & 1) << 4u32)
        | (((raw >> 18u32) & 1) << 2u32) == (raw >> 16u32) & 0xff) by (bit_vector);
}

/// Re-encoding the IM flags gives bits 15..8 back.
proof fn lemma_interrupt_mask_byte_of_raw(raw: u32)
    requires
        true,
    ensures
        decode_interrupt_mask(raw).spec_byte() == (raw >> 8u32) & 0xff,
{
    reveal(InterruptMask::spec_byte);
    lemma_bit_of_flag_at(raw, 15);
    lemma_bit_of_flag_at(raw, 14);
    lemma_bit_of_flag_at(raw, 13);
    lemma_bit_of_flag_at(raw, 12);
    lemma_bit_of_flag_at(raw, 11);
    lemma_bit_of_flag_at(raw, 10);
    lemma_bit_of_flag_at(raw, 9);
    lemma_bit_of_flag_at(raw, 8);
    assert((((raw >> 15u32) & 1) << 7u32)
        | (((raw >> 14u32) & 1) << 6u32)
        | (((raw >> 13u32) & 1) << 5u32)
        | (((raw >> 12u32) & 1) << 4u32)
        | (((raw >> 11u32) & 1) << 3u32)
        | (((raw >> 10u32) & 1) << 2u32)
        | (((raw >> 9u32) & 1) << 1u32)
        | ((raw >> 8u32) & 1) == (raw >> 8u32) & 0xff) by (bit_vector);
}

/// Where the four bytes of a Status word land.
proof fn lemma_status_word(w: u32, h: u32, d: u32, i: u32, l: u32)
    requires
        w == (h << 24u32) | (d << 16u32) | (i << 8u32) | l,
        h < 256,
        d < 256,
        i < 256,
        l < 256,
    ensures
        (w >> 31u32) & 1 == (h >> 7u32) & 1,
        (w >> 30u32) & 1 == (h >> 6u32) & 1,
        (w >> 29u32) & 1 == (h >> 5u32) & 1,
        (w >> 28u32) & 1 == (h >> 4u32) & 1,
        (w >> 27u32) & 1 == (h >> 3u32) & 1,
        (w >> 26u32) & 1 == (h >> 2u32) & 1,
        (w >> 25u32) & 1 == (h >> 1u32) & 1,
        (w >> 24u32) & 1 == (h >> 0u32) & 1,
        (w >> 22u32) & 1 == (d >> 6u32) & 1,
        (w >> 21u32) & 1 == (d >> 5u32) & 1,
        (w >> 20u32) & 1 == (d >> 4u32) & 1,
        (w >> 18u32) & 1 == (d >> 2u32) & 1,
        (w >> 15u32) & 1 == (i >> 7u32) & 1,
        (w >> 14u32) & 1 == (i >> 6u32) & 1,
        (w >> 13u32) & 1 == (i >> 5u32) & 1,
        (w >> 12u32) & 1 == (i >> 4u32) & 1,
        (w >> 11u32) & 1 == (i >> 3u32) & 1,
        (w >> 10u32) & 1 == (i >> 2u32) & 1,
        (w >> 9u32) & 1 == (i >> 1u32) & 1,
        (w >> 8u32) & 1 == (i >> 0u32) & 1,
        (w >> 7u32) & 1 == (l >> 7u32) & 1,
        (w >> 6u32) & 1 == (l >> 6u32) & 1,
        (w >> 5u32) & 1 == (l >> 5u32) & 1,
        (w >> 2u32) & 1 == (l >> 2u32) & 1,
        (w >> 1u32) & 1 == (l >> 1u32) & 1,
        (w >> 0u32) & 1 == (l >> 0u32) & 1,
        (w >> 3u32) & 0x3 == (l >> 3u32) & 0x3,
{
    assert(((w >> 31u32) & 1 == (h >> 7u32) & 1) &&
        ((w >> 30u32) & 1 == (h >> 6u32) & 1) &&
        ((w >> 29u32) & 1 == (h >> 5u32) & 1) &&
        ((w >> 28u32) & 1 == (h >> 4u32) & 1) &&
        ((w >> 27u32) & 1 == (h >> 3u32) & 1) &&
        ((w >> 26u32) & 1 == (h >> 2u32) & 1) &&
        ((w >> 25u32) & 1 == (h >> 1u32) & 1) &&
        ((w >> 24u32) & 1 == (h >> 0u32) & 1) &&
        ((w >> 22u32) & 1 == (d >> 6u32) & 1) &&
        ((w >> 21u32) & 1 == (d >> 5u32) & 1) &&
        ((w >> 20u32) & 1 == (d >> 4u32) & 1) &&
        ((w >> 18u32) & 1 == (d >> 2u32) & 1) &&
        ((w >> 15u32) & 1 == (i >> 7u32) & 1) &&
        ((w >> 14u32) & 1 == (i >> 6u32) & 1) &&
        ((w >> 13u32) & 1 == (i >> 5u32) & 1) &&
        ((w >> 12u32) & 1 == (i >> 4u32) & 1) &&
        ((w >> 11u32) & 1 == (i >> 3u32) & 1) &&
        ((w >> 10u32) & 1 == (i >> 2u32) & 1) &&
        ((w >> 9u32) & 1 == (i >> 1u32) & 1) &&
        ((w >> 8u32) & 1 == (i >> 0u32) & 1) &&
        ((w >> 7u32) & 1 == (l >> 7u32) & 1) &&
        ((w >> 6u32) & 1 == (l >> 6u32) & 1) &&
        ((w >> 5u32) & 1 == (l >> 5u32) & 1) &&
        ((w >> 2u32) & 1 == (l >> 2u32) & 1) &&
        ((w >> 1u32) & 1 == (l >> 1u32) & 1) &&
        ((w >> 0u32) & 1 == (l >> 0u32) & 1) &&
        ((w >> 3u32) & 0x3 == (l >> 3u32) & 0x3)) by (bit_vector)
        requires
            w == (h << 24u32) | (d << 16u32) | (i << 8u32) | l,
            h < 256,
            d < 256,
            i < 256,
            l < 256,
    ;
}

/// Encoding a typed Status register and decoding the result gives the same
/// register back.
pub proof fn lemma_status_encode_decode(s: RegStatus)
    ensures
        decode_status(s.spec_encode()) == Ok::<RegStatus, Fault>(s),
{
    let h = status_high_byte(s);
    let d = s.diagnostic_status.spec_byte();
    let i = s.interrupt_mask.spec_byte();
    let l = status_low_byte(s);
    lemma_high_byte_fields(s);
    lemma_low_byte_fields(s);
    lemma_diagnostic_byte_fields(s.diagnostic_status);
    lemma_interrupt_mask_byte_fields(s.interrupt_mask);
    let e = s.spec_encode();
    lemma_status_word(e, h, d, i, l);
    assert(flag_at(e, 0) == s.interrupts_enabled);
    assert(decode_mode(e) == Ok::<Mode, Fault>(s.mode));
    let ds = decode_diagnostic_status(e);
    assert(ds == s.diagnostic_status);
    let im = decode_interrupt_mask(e);
    assert(im.external_interrupt_write_req =~= s.interrupt_mask.external_interrupt_write_req);
    assert(im.software_interrupt_cause_reg =~= s.interrupt_mask.software_interrupt_cause_reg);
    assert(im == s.interrupt_mask);
    let cu = [flag_at(e, 28), flag_at(e, 29), flag_at(e, 30), flag_at(e, 31)];
    assert(cu =~= s.coprocessor_usability);
    let st = RegStatus {
        coprocessor_usability: cu,
        low_power: flag_at(e, 27),
        additional_fp_regs: flag_at(e, 26),
        reverse_endian: flag_at(e, 25),
        diagnostic_status: ds,
        interrupt_mask: im,
        kernel_mode_64bit_addressing: flag_at(e, 7),
        supervisor_mode_64bit_addressing: flag_at(e, 6),
        user_mode_64bit_addressing: flag_at(e, 5),
        mode: s.mode,
        error_level: flag_at(e, 2),
        exception_level: flag_at(e, 1),
        interrupts_enabled: flag_at(e, 0),
    };
    assert(decode_status(e) == Ok::<RegStatus, Fault>(st));
    assert(st == s);
}

/// A raw Status value that holds only modelled fields and a defined mode
/// decodes to a register whose encoding is that same value.
pub proof fn lemma_status_decode_encode(raw: u32)
    requires
        is_canonical_status(raw),
    ensures
        decode_status(raw) is Ok,
        decode_status(raw).unwrap().spec_encode() == raw,
{
    assert(ksu_field(raw) <= 3) by (bit_vector);
    assert(raw & !0xff74_ffffu32 == 0 ==> raw & 0x008b_0000u32 == 0) by (bit_vector);
    let st = decode_status(raw).unwrap();
    lemma_high_byte_of_raw(raw);
    lemma_low_byte_of_raw(raw);
    lemma_diagnostic_byte_of_raw(raw);
    lemma_interrupt_mask_byte_of_raw(raw);
    assert(raw == (((raw >> 24u32) & 0xff) << 24u32) | (((raw >> 16u32) & 0xff) << 16u32) | (((
    raw >> 8u32) & 0xff) << 8u32) | ((raw >> 0u32) & 0xff)) by (bit_vector);
}

} // verus!
