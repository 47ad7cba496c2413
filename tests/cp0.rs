use n64::{
    Cp0, DataTransferPattern, Endianness, ExceptionVectorLocation, Fault, Mode, RegConfig,
    RegStatus,
};

#[test]
fn config_round_trip_on_every_canonical_value() {
    for ep in [0u32, 6] {
        for be in [0u32, 1] {
            for cu in [0u32, 1] {
                for k0 in [0b010u32, 0b011] {
                    let raw = (ep << 24) | (be << 15) | (cu << 3) | k0;
                    let config = RegConfig::decode(raw).unwrap();
                    assert_eq!(config.encode(), raw);
                }
            }
        }
    }
}

#[test]
fn config_fields_decode() {
    let config = RegConfig::decode(0x0600_800b).unwrap();
    assert_eq!(config.data_transfer_pattern, DataTransferPattern::DxxDxx);
    assert_eq!(config.endianness, Endianness::Big);
    assert!(config.cu);
    assert!(config.kseg0_cache_enabled);

    let config = RegConfig::decode(0x0000_0002).unwrap();
    assert_eq!(config.data_transfer_pattern, DataTransferPattern::Normal);
    assert_eq!(config.endianness, Endianness::Little);
    assert!(!config.cu);
    assert!(!config.kseg0_cache_enabled);
}

#[test]
fn config_kseg0_cacheable_unless_uncached_pattern() {
    for k0 in 0u32..8 {
        let config = RegConfig::decode(k0).unwrap();
        assert_eq!(config.kseg0_cache_enabled, k0 != 0b010);
    }
}

#[test]
fn config_reserved_transfer_pattern_faults() {
    for ep in [1u32, 2, 5, 7, 15] {
        let raw = ep << 24;
        assert_eq!(RegConfig::decode(raw), Err(Fault::InvalidDataTransferPattern { raw }));
    }
}

#[test]
fn config_typed_round_trip() {
    let config = RegConfig {
        data_transfer_pattern: DataTransferPattern::DxxDxx,
        endianness: Endianness::Little,
        cu: true,
        kseg0_cache_enabled: false,
    };
    assert_eq!(config.encode(), 0x0600_000a);
    assert_eq!(RegConfig::decode(config.encode()), Ok(config));
}

#[test]
fn config_power_on_reset_sets_normal_big() {
    let mut config = RegConfig::decode(0x0600_0008).unwrap();
    config.power_on_reset();
    assert_eq!(config.data_transfer_pattern, DataTransferPattern::Normal);
    assert_eq!(config.endianness, Endianness::Big);
    assert!(config.cu);
}

#[test]
fn status_interrupt_enable_bit_decodes() {
    let status = RegStatus::decode(0x0000_0001).unwrap();
    assert!(status.interrupts_enabled);
    assert_eq!(status.mode, Mode::Kernel);
    assert!(!status.error_level);
    assert!(!status.exception_level);
}

#[test]
fn status_fields_decode() {
    let status = RegStatus::decode(0x3440_ff96).unwrap();
    // bits 29, 28: CU1, CU0; bit 26: FR; bit 22: BEV; IM all set; bit 7: KX;
    // KSU = 0b10; ERL set; EXL set
    assert_eq!(status.coprocessor_usability, [true, true, false, false]);
    assert!(!status.low_power);
    assert!(status.additional_fp_regs);
    assert!(!status.reverse_endian);
    assert_eq!(
        status.diagnostic_status.tlb_general_exception_vector_location,
        ExceptionVectorLocation::Bootstrap
    );
    assert!(!status.diagnostic_status.tlb_shutdown);
    assert!(status.interrupt_mask.timer_interrupt);
    assert_eq!(status.interrupt_mask.external_interrupt_write_req, [true; 5]);
    assert_eq!(status.interrupt_mask.software_interrupt_cause_reg, [true; 2]);
    assert!(status.kernel_mode_64bit_addressing);
    assert!(!status.supervisor_mode_64bit_addressing);
    assert!(!status.user_mode_64bit_addressing);
    assert_eq!(status.mode, Mode::User);
    assert!(status.error_level);
    assert!(status.exception_level);
    assert!(!status.interrupts_enabled);
    assert_eq!(status.encode(), 0x3440_ff96);
}

#[test]
fn status_modes_decode() {
    assert_eq!(RegStatus::decode(0b00_000).unwrap().mode, Mode::Kernel);
    assert_eq!(RegStatus::decode(0b01_000).unwrap().mode, Mode::Supervisor);
    assert_eq!(RegStatus::decode(0b10_000).unwrap().mode, Mode::User);
}

#[test]
fn status_reserved_mode_faults() {
    assert_eq!(RegStatus::decode(0b11_000), Err(Fault::InvalidMode { raw: 0b11_000 }));
    assert_eq!(RegStatus::decode(0xffff_ffff), Err(Fault::InvalidMode { raw: 0xffff_ffff }));
}

#[test]
fn status_round_trip_on_sample_values() {
    for raw in [0u32, 1, 0xff74_ffe7, 0x1000_0000, 0x0004_0010, 0x8020_8402] {
        assert_eq!(RegStatus::decode(raw).unwrap().encode(), raw);
    }
}

#[test]
fn status_unmodelled_bits_are_dropped() {
    let status = RegStatus::decode(0x008b_0000).unwrap();
    assert_eq!(status.encode(), 0);
}

#[test]
fn cp0_starts_as_raw_zero() {
    let cp0 = Cp0::new();
    assert_eq!(Ok(cp0.reg_status()), RegStatus::decode(0));
    assert_eq!(Ok(cp0.reg_config()), RegConfig::decode(0));
    assert_eq!(cp0.reg_config().endianness, Endianness::Little);
}

#[test]
fn cp0_power_on_reset_touches_config_only() {
    let mut cp0 = Cp0::new();
    cp0.write_reg(12, 0x0000_0001).unwrap();
    cp0.power_on_reset();
    assert_eq!(cp0.reg_config().data_transfer_pattern, DataTransferPattern::Normal);
    assert_eq!(cp0.reg_config().endianness, Endianness::Big);
    assert!(cp0.reg_status().interrupts_enabled);
}

#[test]
fn cp0_write_status_and_config() {
    let mut cp0 = Cp0::new();
    assert_eq!(cp0.write_reg(12, 0xffff_ffff_0000_0009), Ok(()));
    assert_eq!(cp0.reg_status().mode, Mode::Supervisor);
    assert!(cp0.reg_status().interrupts_enabled);
    assert_eq!(cp0.write_reg(16, 0x0600_8000), Ok(()));
    assert_eq!(cp0.reg_config().data_transfer_pattern, DataTransferPattern::DxxDxx);
    assert_eq!(cp0.reg_config().endianness, Endianness::Big);
}

#[test]
fn cp0_write_unimplemented_register_faults() {
    let mut cp0 = Cp0::new();
    assert_eq!(
        cp0.write_reg(9, 0x1234),
        Err(Fault::UnimplementedCp0Reg { index: 9, data: 0x1234 })
    );
    assert_eq!(Ok(cp0.reg_status()), RegStatus::decode(0));
}

#[test]
fn cp0_invalid_value_faults_and_keeps_register() {
    let mut cp0 = Cp0::new();
    cp0.write_reg(12, 0x1).unwrap();
    assert_eq!(cp0.write_reg(12, 0x18), Err(Fault::InvalidMode { raw: 0x18 }));
    assert!(cp0.reg_status().interrupts_enabled);
    assert_eq!(
        cp0.write_reg(16, 0x0300_0000),
        Err(Fault::InvalidDataTransferPattern { raw: 0x0300_0000 })
    );
}
