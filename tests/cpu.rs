use n64::{Cpu, DataTransferPattern, Endianness, Fault, Interconnect, Mode};

const RESET_PC: u64 = 0xffff_ffff_bfc0_0000;

fn lui(rt: u32, imm: u32) -> u32 {
    (0b001111 << 26) | (rt << 16) | imm
}

fn ori(rt: u32, rs: u32, imm: u32) -> u32 {
    (0b001101 << 26) | (rs << 21) | (rt << 16) | imm
}

fn andi(rt: u32, rs: u32, imm: u32) -> u32 {
    (0b001100 << 26) | (rs << 21) | (rt << 16) | imm
}

fn beql(rs: u32, rt: u32, offset: u32) -> u32 {
    (0b010100 << 26) | (rs << 21) | (rt << 16) | offset
}

fn mtc0(rt: u32, rd: u32) -> u32 {
    (0b010000 << 26) | (0b00100 << 21) | (rt << 16) | (rd << 11)
}

fn lw(rt: u32, base: u32, offset: u32) -> u32 {
    (0b100011 << 26) | (base << 21) | (rt << 16) | offset
}

/// A processor after reset whose boot ROM holds `program` from its start,
/// and `data` words at the given byte offsets.
fn cpu_with(program: &[u32], data: &[(usize, u32)]) -> Cpu {
    let mut rom = vec![0u8; 2048];
    for (i, word) in program.iter().enumerate() {
        rom[4 * i..4 * i + 4].copy_from_slice(&word.to_be_bytes());
    }
    for &(offset, word) in data {
        rom[offset..offset + 4].copy_from_slice(&word.to_be_bytes());
    }
    let mut cpu = Cpu::new(Interconnect::new(rom));
    cpu.power_on_reset();
    cpu
}

#[test]
fn new_cpu_is_zeroed() {
    let cpu = Cpu::new(Interconnect::new(vec![0u8; 2048]));
    assert_eq!(cpu.pc(), 0);
    for i in 0..32 {
        assert_eq!(cpu.read_gpr(i), 0);
        assert_eq!(cpu.fpr_bits(i), 0);
    }
    assert_eq!(cpu.hi(), 0);
    assert_eq!(cpu.lo(), 0);
    assert!(!cpu.llbit());
    assert_eq!(cpu.fcr0(), 0);
    assert_eq!(cpu.fcr31(), 0);
}

#[test]
fn power_on_reset_sets_pc_and_config() {
    let cpu = cpu_with(&[], &[]);
    assert_eq!(cpu.pc(), RESET_PC);
    assert_eq!(cpu.cp0().reg_config().data_transfer_pattern, DataTransferPattern::Normal);
    assert_eq!(cpu.cp0().reg_config().endianness, Endianness::Big);
}

#[test]
fn register_zero_is_hardwired() {
    let mut cpu = cpu_with(&[], &[]);
    for v in [0u64, 1, 0xdead_beef, u64::MAX] {
        cpu.write_gpr(0, v);
        assert_eq!(cpu.read_gpr(0), 0);
    }
}

#[test]
fn general_registers_round_trip() {
    let mut cpu = cpu_with(&[], &[]);
    for i in 1..32usize {
        let v = 0x0123_4567_89ab_cdefu64.rotate_left(i as u32);
        cpu.write_gpr(i, v);
        assert_eq!(cpu.read_gpr(i), v);
    }
    cpu.write_gpr(31, u64::MAX);
    assert_eq!(cpu.read_gpr(31), u64::MAX);
}

#[test]
fn lui_loads_upper_half() {
    let mut cpu = cpu_with(&[lui(8, 0x1234)], &[]);
    assert_eq!(cpu.run_instruction(), Ok(()));
    assert_eq!(cpu.read_gpr(8), 0x1234_0000);
    assert_eq!(cpu.pc(), RESET_PC + 4);
}

#[test]
fn lui_sign_extends() {
    let mut cpu = cpu_with(&[lui(9, 0x8000)], &[]);
    cpu.run_instruction().unwrap();
    assert_eq!(cpu.read_gpr(9), 0xffff_ffff_8000_0000);
}

#[test]
fn lui_to_register_zero_is_dropped() {
    let mut cpu = cpu_with(&[lui(0, 0x1234)], &[]);
    cpu.run_instruction().unwrap();
    assert_eq!(cpu.read_gpr(0), 0);
}

#[test]
fn ori_and_andi_zero_extend() {
    let mut cpu = cpu_with(&[lui(1, 0xffff), ori(2, 1, 0x8001), andi(3, 2, 0xf00f)], &[]);
    cpu.run(3).unwrap();
    assert_eq!(cpu.read_gpr(1), 0xffff_ffff_ffff_0000);
    assert_eq!(cpu.read_gpr(2), 0xffff_ffff_ffff_8001);
    assert_eq!(cpu.read_gpr(3), 0x8001);
    assert_eq!(cpu.pc(), RESET_PC + 12);
}

#[test]
fn beql_taken_runs_delay_slot() {
    // beql r0, r0, +1 ; ori r9, r0, 0x55 ; ori r10, r0, 0x66
    let mut cpu = cpu_with(&[beql(0, 0, 1), ori(9, 0, 0x55), ori(10, 0, 0x66)], &[]);
    assert_eq!(cpu.run_instruction(), Ok(()));
    assert_eq!(cpu.read_gpr(9), 0x55);
    assert_eq!(cpu.read_gpr(10), 0);
    assert_eq!(cpu.pc(), RESET_PC + 8);
}

#[test]
fn beql_taken_runs_instruction_at_target() {
    // beql r0, r0, +2: the target is the third word
    let mut cpu = cpu_with(&[beql(0, 0, 2), ori(9, 0, 0x55), ori(10, 0, 0x66)], &[]);
    cpu.run_instruction().unwrap();
    assert_eq!(cpu.read_gpr(9), 0);
    assert_eq!(cpu.read_gpr(10), 0x66);
    assert_eq!(cpu.pc(), RESET_PC + 12);
}

#[test]
fn beql_backward_offset() {
    // at word 2: beql r0, r0, -2 goes back to word 0
    let mut cpu = cpu_with(&[ori(5, 5, 1), ori(6, 0, 7), beql(0, 0, 0xfffe)], &[]);
    cpu.run(2).unwrap();
    cpu.write_gpr(5, 0);
    cpu.run_instruction().unwrap();
    // the delay slot is the first word again
    assert_eq!(cpu.read_gpr(5), 1);
    assert_eq!(cpu.pc(), RESET_PC + 4);
}

#[test]
fn beql_not_taken_skips_delay_slot() {
    // ori r1, r0, 1 ; beql r1, r0, +1 ; ori r9, r0, 0x55
    let mut cpu = cpu_with(&[ori(1, 0, 1), beql(1, 0, 1), ori(9, 0, 0x55)], &[]);
    cpu.run_instruction().unwrap();
    assert_eq!(cpu.run_instruction(), Ok(()));
    assert_eq!(cpu.read_gpr(9), 0);
    assert_eq!(cpu.pc(), RESET_PC + 8);
}

#[test]
fn mtc0_writes_status() {
    let mut cpu = cpu_with(&[ori(1, 0, 0x0009), mtc0(1, 12)], &[]);
    cpu.run(2).unwrap();
    assert!(cpu.cp0().reg_status().interrupts_enabled);
    assert_eq!(cpu.cp0().reg_status().mode, Mode::Supervisor);
}

#[test]
fn mtc0_to_unmodelled_register_faults() {
    let mut cpu = cpu_with(&[ori(1, 0, 0x42), mtc0(1, 5)], &[]);
    cpu.run_instruction().unwrap();
    assert_eq!(
        cpu.run_instruction(),
        Err(Fault::UnimplementedCp0Reg { index: 5, data: 0x42 })
    );
}

#[test]
fn lw_loads_and_sign_extends() {
    // lui r8, 0xbfc0 ; lw r10, 0x40(r8) ; lw r11, 0x44(r8)
    let mut cpu = cpu_with(
        &[lui(8, 0xbfc0), lw(10, 8, 0x40), lw(11, 8, 0x44)],
        &[(0x40, 0x1234_5678), (0x44, 0x8000_0001)],
    );
    cpu.run(3).unwrap();
    assert_eq!(cpu.read_gpr(8), 0xffff_ffff_bfc0_0000);
    assert_eq!(cpu.read_gpr(10), 0x1234_5678);
    assert_eq!(cpu.read_gpr(11), 0xffff_ffff_8000_0001);
}

#[test]
fn lw_negative_offset() {
    // lui r8, 0xbfc0 ; ori r8, r8, 0x100 ; lw r10, -0xc0(r8)
    let mut cpu = cpu_with(&[lui(8, 0xbfc0), ori(8, 8, 0x100), lw(10, 8, 0xff40)], &[(0x40, 0xcafe)]);
    cpu.run(3).unwrap();
    assert_eq!(cpu.read_gpr(10), 0xcafe);
}

#[test]
fn lw_from_unsupported_segment_faults() {
    // r8 is zero: address 0x10 lies in kuseg
    let mut cpu = cpu_with(&[lw(10, 8, 0x10)], &[]);
    assert_eq!(cpu.run_instruction(), Err(Fault::UnsupportedSegment { virt_addr: 0x10 }));
}

#[test]
fn unrecognized_instruction_faults_with_word() {
    let mut cpu = cpu_with(&[0xfc00_1234], &[]);
    assert_eq!(
        cpu.run_instruction(),
        Err(Fault::UnrecognizedInstruction { word: 0xfc00_1234 })
    );
    assert_eq!(cpu.pc(), RESET_PC);
}

#[test]
fn fetch_before_reset_faults() {
    let mut cpu = Cpu::new(Interconnect::new(vec![0u8; 2048]));
    assert_eq!(cpu.run_instruction(), Err(Fault::UnsupportedSegment { virt_addr: 0 }));
}

#[test]
fn run_stops_at_first_fault() {
    // an empty ROM word decodes as opcode 0, which is not supported
    let mut cpu = cpu_with(&[ori(1, 0, 1), ori(2, 0, 2)], &[]);
    assert_eq!(cpu.run(10), Err(Fault::UnrecognizedInstruction { word: 0 }));
    assert_eq!(cpu.read_gpr(1), 1);
    assert_eq!(cpu.read_gpr(2), 2);
    assert_eq!(cpu.pc(), RESET_PC + 8);
}

#[test]
fn run_zero_instructions_does_nothing() {
    let mut cpu = cpu_with(&[ori(1, 0, 1)], &[]);
    assert_eq!(cpu.run(0), Ok(()));
    assert_eq!(cpu.pc(), RESET_PC);
    assert_eq!(cpu.read_gpr(1), 0);
}
