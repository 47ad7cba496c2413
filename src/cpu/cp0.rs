use vstd::prelude::*;

use crate::cpu::reg_config::{decode_config, DataTransferPattern, Endianness, RegConfig};
use crate::cpu::reg_status::{decode_status, RegStatus};
use crate::fault::Fault;

verus! {

/// Coprocessor-0 register index of Status.
pub const CP0_REG_STATUS: u32 = 12;
/// Coprocessor-0 register index of Config.
pub const CP0_REG_CONFIG: u32 = 16;

/// The system control coprocessor: the modelled registers in typed form.
#[derive(Debug)]
pub struct Cp0 {
    reg_config: RegConfig,
    reg_status: RegStatus,
}

impl Cp0 {
    pub closed spec fn spec_config(&self) -> RegConfig {
        self.reg_config
    }

    pub closed spec fn spec_status(&self) -> RegStatus {
        self.reg_status
    }

    /// Both registers as a raw value of zero decodes.
    pub fn new() -> (r: Cp0)
        ensures
            decode_status(0) == Ok::<RegStatus, Fault>(r.spec_status()),
            decode_config(0) == Ok::<RegConfig, Fault>(r.spec_config()),
    {
        assert((0u32 >> 3u32) & 0x3 == 0 && (0u32 >> 24u32) & 0xf == 0) by (bit_vector);
        let reg_status = match RegStatus::decode(0) {
            Ok(s) => s,
            Err(_) => {
                proof {
                    assert(false);
                }
                unreached()
            },
        };
        let reg_config = match RegConfig::decode(0) {
            Ok(c) => c,
            Err(_) => {
                proof {
                    assert(false);
                }
                unreached()
            },
        };
        Cp0 { reg_config, reg_status }
    }

    /// The Config register.
    pub fn reg_config(&self) -> (r: RegConfig)
        ensures
            r == self.spec_config(),
    {
        self.reg_config
    }

    /// The Status register.
    pub fn reg_status(&self) -> (r: RegStatus)
        ensures
            r == self.spec_status(),
    {
        self.reg_status
    }

    /// Sets Config to its power-on defaults; Status keeps its value.
    pub fn power_on_reset(&mut self)
        ensures
            final(self).spec_config() == (RegConfig {
                data_transfer_pattern: DataTransferPattern::Normal,
                endianness: Endianness::Big,
                ..old(self).spec_config()
            }),
            final(self).spec_status() == old(self).spec_status(),
    {
        self.reg_config.power_on_reset();
    }

    /// Replaces register `index` by the typed form of the low 32 bits of
    /// `data`. Only Status and Config are modelled; a write to any other
    /// index, or a value with a reserved field pattern, faults and leaves
    /// the registers as they were.
    pub fn write_reg(&mut self, index: u32, data: u64) -> (r: Result<(), Fault>)
        ensures
            index == CP0_REG_STATUS ==> match decode_status(data as u32) {
                Ok(s) => r is Ok && final(self).spec_status() == s && final(self).spec_config()
                    == old(self).spec_config(),
                Err(e) => r == Err::<(), Fault>(e) && *final(self) == *old(self),
            },
            index == CP0_REG_CONFIG ==> match decode_config(data as u32) {
                Ok(c) => r is Ok && final(self).spec_config() == c && final(self).spec_status()
                    == old(self).spec_status(),
                Err(e) => r == Err::<(), Fault>(e) && *final(self) == *old(self),
            },
            index != CP0_REG_STATUS && index != CP0_REG_CONFIG ==> r == Err::<(), Fault>(
                Fault::UnimplementedCp0Reg { index, data },
            ) && *final(self) == *old(self),
    {
        match index {
            CP0_REG_STATUS => {
                let status = RegStatus::decode(data as u32)?;
                self.reg_status = status;
                Ok(())
            },
            CP0_REG_CONFIG => {
                let config = RegConfig::decode(data as u32)?;
                self.reg_config = config;
                Ok(())
            },
            _ => Err(Fault::UnimplementedCp0Reg { index, data }),
        }
    }
}

} // verus!
