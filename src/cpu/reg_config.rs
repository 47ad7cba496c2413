use vstd::prelude::*;

use crate::cpu::bits::{bit_of, flag_at, flag_bit, read_flag};
use crate::fault::Fault;

verus! {

/// EP field value of the default transfer pattern, one doubleword per cycle.
pub const EP_NORMAL: u32 = 0;
/// EP field value of the pattern with two idle cycles after each doubleword.
pub const EP_DXXDXX: u32 = 6;
/// K0 field value that makes kseg0 uncached.
pub const K0_UNCACHED: u32 = 0b010;
/// K0 field value written for a cacheable kseg0.
pub const K0_CACHEABLE: u32 = 0b011;
/// The bits of Config that the typed register holds: EP, BE, CU and K0.
pub const CONFIG_FIELDS_MASK: u32 = 0x0f00_800f;

/// The 'EP' field of Config: the pattern of write data transfers.
#[derive(Debug, Clone, Copy, PartialEq, Eq, Structural)]
pub enum DataTransferPattern {
    Normal,
    DxxDxx,
}

/// The 'BE' field of Config: the byte order of memory accesses.
#[derive(Debug, Clone, Copy, PartialEq, Eq, Structural)]
pub enum Endianness {
    Little,
    Big,
}

/// Coprocessor-0 register 16, Config, in typed form.
#[derive(Debug, Clone, Copy, PartialEq, Eq, Structural)]
pub struct RegConfig {
    /// EP, bits 27..24.
    pub data_transfer_pattern: DataTransferPattern,
    /// BE, bit 15.
    pub endianness: Endianness,
    /// CU, bit 3.
    pub cu: bool,
    /// Derived from K0, bits 2..0: anything but the uncached pattern.
    pub kseg0_cache_enabled: bool,
}

pub open spec fn ep_field(raw: u32) -> u32 {
    (raw >> 24u32) & 0xf
}

pub open spec fn k0_field(raw: u32) -> u32 {
    raw & 0x7
}

pub open spec fn decode_data_transfer_pattern(raw: u32) -> Result<DataTransferPattern, Fault> {
    if ep_field(raw) == EP_NORMAL {
        Ok(DataTransferPattern::Normal)
    } else if ep_field(raw) == EP_DXXDXX {
        Ok(DataTransferPattern::DxxDxx)
    } else {
        Err(Fault::InvalidDataTransferPattern { raw })
    }
}

pub open spec fn decode_endianness(raw: u32) -> Endianness {
    if flag_at(raw, 15) {
        Endianness::Big
    } else {
        Endianness::Little
    }
}

/// The typed Config register that a raw value stands for, or the fault
/// that a reserved transfer pattern raises.
pub open spec fn decode_config(raw: u32) -> Result<RegConfig, Fault> {
    match decode_data_transfer_pattern(raw) {
        Ok(ep) => Ok(
            RegConfig {
                data_transfer_pattern: ep,
                endianness: decode_endianness(raw),
                cu: flag_at(raw, 3),
                kseg0_cache_enabled: k0_field(raw) != K0_UNCACHED,
            },
        ),
        Err(e) => Err(e),
    }
}

/// Raw Config values that hold only modelled fields, each in the form that
/// encoding writes: a defined transfer pattern and K0 either uncached or the
/// cacheable pattern.
pub open spec fn is_canonical_config(raw: u32) -> bool {
    &&& raw & !CONFIG_FIELDS_MASK == 0
    &&& (ep_field(raw) == EP_NORMAL || ep_field(raw) == EP_DXXDXX)
    &&& (k0_field(raw) == K0_UNCACHED || k0_field(raw) == K0_CACHEABLE)
}

impl DataTransferPattern {
    pub open spec fn spec_bits(self) -> u32 {
        match self {
            DataTransferPattern::Normal => EP_NORMAL,
            DataTransferPattern::DxxDxx => EP_DXXDXX,
        }
    }

    /// Reads the EP field of a raw Config value.
    pub fn decode(raw: u32) -> (r: Result<DataTransferPattern, Fault>)
        ensures
            r == decode_data_transfer_pattern(raw),
    {
        match (raw >> 24) & 0b1111 {
            EP_NORMAL => Ok(DataTransferPattern::Normal),
            EP_DXXDXX => Ok(DataTransferPattern::DxxDxx),
            _ => Err(Fault::InvalidDataTransferPattern { raw }),
        }
    }
}

impl Endianness {
    /// Reads the BE bit of a raw Config value.
    pub fn decode(raw: u32) -> (r: Endianness)
        ensures
            r == decode_endianness(raw),
    {
        if read_flag(raw, 15) {
            Endianness::Big
        } else {
            Endianness::Little
        }
    }
}

impl RegConfig {
    /// The raw 32-bit value of this register.
    pub open spec fn spec_encode(self) -> u32 {
        (self.data_transfer_pattern.spec_bits() << 24u32) | (bit_of(
            self.endianness == Endianness::Big,
        ) << 15u32) | (bit_of(self.cu) << 3u32) | (if self.kseg0_cache_enabled {
            K0_CACHEABLE
        } else {
            K0_UNCACHED
        })
    }

    /// Decodes a raw Config value, failing on a reserved transfer pattern.
    pub fn decode(raw: u32) -> (r: Result<RegConfig, Fault>)
        ensures
            r == decode_config(raw),
    {
        let ep = DataTransferPattern::decode(raw);
        match ep {
            Ok(data_transfer_pattern) => Ok(
                RegConfig {
                    data_transfer_pattern,
                    endianness: Endianness::decode(raw),
                    cu: read_flag(raw, 3),
                    kseg0_cache_enabled: (raw & 0b111) != K0_UNCACHED,
                },
            ),
            Err(e) => Err(e),
        }
    }

    /// Encodes this register as its raw 32-bit value.
    pub fn encode(&self) -> (r: u32)
        ensures
            r == self.spec_encode(),
    {
        let ep: u32 = match self.data_transfer_pattern {
            DataTransferPattern::Normal => EP_NORMAL,
            DataTransferPattern::DxxDxx => EP_DXXDXX,
        };
        let be = flag_bit(
            match self.endianness {
                Endianness::Big => true,
                Endianness::Little => false,
            },
        );
        let k0: u32 = if self.kseg0_cache_enabled {
            K0_CACHEABLE
        } else {
            K0_UNCACHED
        };
        (ep << 24) | (be << 15) | (flag_bit(self.cu) << 3) | k0
    }

    /// Sets the fields that the hardware fixes at power-on: the normal
    /// transfer pattern and big-endian accesses.
    pub fn power_on_reset(&mut self)
        ensures
            *final(self) == (RegConfig {
                data_transfer_pattern: DataTransferPattern::Normal,
                endianness: Endianness::Big,
                ..*old(self)
            }),
    {
        self.data_transfer_pattern = DataTransferPattern::Normal;
        self.endianness = Endianness::Big;
    }
}

/// Encoding a typed Config register and decoding the result gives the same
/// register back.
pub proof fn lemma_config_encode_decode(c: RegConfig)
    ensures
        decode_config(c.spec_encode()) == Ok::<RegConfig, Fault>(c),
{
    let ep = c.data_transfer_pattern.spec_bits();
    let be = bit_of(c.endianness == Endianness::Big);
    let cu = bit_of(c.cu);
    let k0: u32 = if c.kseg0_cache_enabled {
        K0_CACHEABLE
    } else {
        K0_UNCACHED
    };
    let raw = c.spec_encode();
    assert(raw == (ep << 24u32) | (be << 15u32) | (cu << 3u32) | k0);
    assert(((((ep << 24u32) | (be << 15u32) | (cu << 3u32) | k0) >> 24u32) & 0xf == ep) && (((((
    ep << 24u32) | (be << 15u32) | (cu << 3u32) | k0) >> 15u32) & 1) == be) && (((((ep << 24u32)
        | (be << 15u32) | (cu << 3u32) | k0) >> 3u32) & 1) == cu) && ((((ep << 24u32) | (be
        << 15u32) | (cu << 3u32) | k0) & 0x7) == k0)) by (bit_vector)
        requires
            ep <= 6,
            be <= 1,
            cu <= 1,
            k0 <= 3,
    ;
}

/// A raw Config value that holds only modelled fields, in encoded form,
/// decodes to a register whose encoding is that same value.
pub proof fn lemma_config_decode_encode(raw: u32)
    requires
        is_canonical_config(raw),
    ensures
        decode_config(raw) is Ok,
        decode_config(raw).unwrap().spec_encode() == raw,
{
    let c = decode_config(raw).unwrap();
    let ep = ep_field(raw);
    let be = (raw >> 15u32) & 1;
    let cu = (raw >> 3u32) & 1;
    let k0 = k0_field(raw);
    assert((raw >> 15u32) & 1 <= 1 && (raw >> 3u32) & 1 <= 1) by (bit_vector);
    assert(c.data_transfer_pattern.spec_bits() == ep);
    assert(bit_of(c.endianness == Endianness::Big) == be);
    assert(bit_of(c.cu) == cu);
    assert(raw & !0x0f00_800fu32 == 0 ==> raw == (((raw >> 24u32) & 0xf) << 24u32) | (((raw
        >> 15u32) & 1) << 15u32) | (((raw >> 3u32) & 1) << 3u32) | (raw & 0x7)) by (bit_vector);
}

} // verus!
