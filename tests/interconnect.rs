use n64::{virt_addr_to_phys_addr, Fault, Interconnect};

fn rom_with(words: &[(usize, u32)]) -> Vec<u8> {
    let mut rom = vec![0u8; 2048];
    for &(offset, word) in words {
        rom[offset..offset + 4].copy_from_slice(&word.to_be_bytes());
    }
    rom
}

#[test]
fn kseg1_reset_vector_translates() {
    assert_eq!(virt_addr_to_phys_addr(0xffff_ffff_bfc0_0000), Ok(0x1fc0_0000));
}

#[test]
fn kseg1_bounds_translate() {
    assert_eq!(virt_addr_to_phys_addr(0xffff_ffff_a000_0000), Ok(0));
    assert_eq!(virt_addr_to_phys_addr(0xffff_ffff_bfff_ffff), Ok(0x1fff_ffff));
    assert_eq!(virt_addr_to_phys_addr(0xffff_ffff_a404_0010), Ok(0x0404_0010));
}

#[test]
fn other_segments_fault() {
    for virt_addr in [0u64, 0xffff_ffff_8000_0000, 0xffff_ffff_c000_0000, 0x7fff_ffff] {
        assert_eq!(
            virt_addr_to_phys_addr(virt_addr),
            Err(Fault::UnsupportedSegment { virt_addr })
        );
    }
}

#[test]
fn pif_rom_reads_big_endian() {
    let mut rom = vec![0u8; 2048];
    rom[0] = 0x12;
    rom[1] = 0x34;
    rom[2] = 0x56;
    rom[3] = 0x78;
    rom[0x7bc] = 0xde;
    rom[0x7bd] = 0xad;
    rom[0x7be] = 0xbe;
    rom[0x7bf] = 0xef;
    let ic = Interconnect::new(rom);
    assert_eq!(ic.read_word(0x1fc0_0000), Ok(0x1234_5678));
    assert_eq!(ic.read_word(0x1fc0_0001), Ok(0x3456_7800));
    assert_eq!(ic.read_word(0x1fc0_07bc), Ok(0xdead_beef));
}

#[test]
fn pif_rom_range_ends_at_7c0() {
    let ic = Interconnect::new(rom_with(&[(0x7c0, 0x1111_1111)]));
    assert_eq!(
        ic.read_word(0x1fc0_07c0),
        Err(Fault::UnrecognizedPhysAddr { phys_addr: 0x1fc0_07c0 })
    );
}

#[test]
fn rsp_status_reads_power_on_value() {
    let ic = Interconnect::new(vec![0u8; 2048]);
    assert_eq!(ic.read_word(0x0404_0010), Ok(1));
}

#[test]
fn unmapped_physical_addresses_fault() {
    let ic = Interconnect::new(vec![0u8; 2048]);
    for phys_addr in [0x0404_0014u32, 0x1000_0000, 0x1fbf_fffc, 0x0404_000c, 0x0000_0000, 0xffff_ffff]
    {
        assert_eq!(ic.read_word(phys_addr), Err(Fault::UnrecognizedPhysAddr { phys_addr }));
    }
}
