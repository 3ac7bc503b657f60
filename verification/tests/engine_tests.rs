use vr4300_core::cp0::{CP0_REG_CONFIG, CP0_REG_STATUS};
use vr4300_core::cpu::{Cpu, BOOT_VECTOR};
use vr4300_core::errors::EmuError;
use vr4300_core::interconnect::Interconnect;
use vr4300_core::reg_config::{DataTransferPattern, Endianness};
use vr4300_core::reg_status::Mode;

/// A CPU reset to the boot vector, whose interconnect backs the boot-vector
/// physical region with the given words.
fn boot_cpu(words: Vec<u32>) -> Cpu {
    let mut cpu = Cpu::new(Interconnect::new(0x1fc0_0000, words));
    cpu.power_on_reset();
    cpu
}

fn lui(rt: u32, imm: u32) -> u32 {
    (0b001111 << 26) | (rt << 16) | imm
}

fn ori(rt: u32, rs: u32, imm: u32) -> u32 {
    (0b001101 << 26) | (rs << 21) | (rt << 16) | imm
}

fn mtc0(rt: u32, rd: u32) -> u32 {
    (0b010000 << 26) | (rt << 16) | (rd << 11)
}

fn lw(rt: u32, rs: u32, offset: u32) -> u32 {
    (0b100011 << 26) | (rs << 21) | (rt << 16) | offset
}

#[test]
fn power_on_reset_establishes_boot_state() {
    let mut cpu = Cpu::new(Interconnect::new(0, Vec::new()));
    // scribble over the state first: reset must win regardless
    cpu.write_reg_gpr(5, 0x5555);
    cpu.reg_pc = 0x1000;
    cpu.cp0.write_reg(CP0_REG_CONFIG, 0).unwrap();
    assert_eq!(cpu.cp0.reg_config.endianness, Endianness::Little);

    cpu.power_on_reset();
    assert_eq!(cpu.reg_pc, BOOT_VECTOR);
    assert_eq!(cpu.reg_pc, 0xffff_ffff_bfc0_0000);
    assert_eq!(
        cpu.cp0.reg_config.data_transfer_pattern,
        DataTransferPattern::Normal
    );
    assert_eq!(cpu.cp0.reg_config.endianness, Endianness::Big);
    assert_eq!(cpu.cp0.reg_status.mode, Mode::Kernel);
    assert!(!cpu.cp0.reg_status.global_interrupts_enable);
    // general-purpose registers are not cleared by reset
    assert_eq!(cpu.read_reg_gpr(5), 0x5555);
}

#[test]
fn lui_sign_extends_high_immediate() {
    let mut cpu = boot_cpu(vec![lui(1, 0x8000)]);
    cpu.run_instruction().unwrap();
    assert_eq!(cpu.read_reg_gpr(1), 0xffff_ffff_8000_0000);
    assert_eq!(cpu.reg_pc, BOOT_VECTOR + 4);
}

#[test]
fn lui_zero_extends_low_immediate() {
    let mut cpu = boot_cpu(vec![lui(1, 0x0001)]);
    cpu.run_instruction().unwrap();
    assert_eq!(cpu.read_reg_gpr(1), 0x0000_0000_0001_0000);
}

#[test]
fn ori_ors_zero_extended_immediate() {
    let mut cpu = boot_cpu(vec![ori(2, 1, 0x000f)]);
    cpu.write_reg_gpr(1, 0x0000_0000_0000_00f0);
    cpu.run_instruction().unwrap();
    assert_eq!(cpu.read_reg_gpr(2), 0x00ff);
    assert_eq!(cpu.read_reg_gpr(1), 0x00f0);
}

#[test]
fn ori_leaves_upper_bits_of_source() {
    let mut cpu = boot_cpu(vec![ori(2, 1, 0xffff)]);
    cpu.write_reg_gpr(1, 0x1234_5678_0000_0000);
    cpu.run_instruction().unwrap();
    assert_eq!(cpu.read_reg_gpr(2), 0x1234_5678_0000_ffff);
}

#[test]
fn lw_sign_extends_loaded_word() {
    let mut cpu = boot_cpu(vec![lw(2, 1, 8), 0, 0xffff_fffe]);
    cpu.write_reg_gpr(1, BOOT_VECTOR);
    cpu.run_instruction().unwrap();
    assert_eq!(cpu.read_reg_gpr(2), 0xffff_ffff_ffff_fffe);
    assert_eq!(cpu.reg_pc, BOOT_VECTOR + 4);
}

#[test]
fn lw_with_negative_offset() {
    let mut cpu = boot_cpu(vec![lw(2, 1, 0xfff8), 0, 0x0000_7fff]);
    cpu.write_reg_gpr(1, BOOT_VECTOR + 16);
    cpu.run_instruction().unwrap();
    assert_eq!(cpu.read_reg_gpr(2), 0x0000_7fff);
}

#[test]
fn lw_at_unmapped_address_is_fatal() {
    let mut cpu = boot_cpu(vec![lw(2, 1, 0)]);
    cpu.write_reg_gpr(1, 0x8000_0000);
    let pc_before = cpu.reg_pc;
    assert_eq!(
        cpu.run_instruction(),
        Err(EmuError::UnmappedAddress { virtual_addr: 0x8000_0000 })
    );
    // a fatal step leaves the state untouched
    assert_eq!(cpu.reg_pc, pc_before);
    assert_eq!(cpu.read_reg_gpr(2), 0);
}

#[test]
fn mtc0_writes_low_word_to_config() {
    let mut cpu = boot_cpu(vec![mtc0(1, CP0_REG_CONFIG)]);
    cpu.write_reg_gpr(1, 0xdead_0000_0600_8002);
    cpu.run_instruction().unwrap();
    assert_eq!(
        cpu.cp0.reg_config.data_transfer_pattern,
        DataTransferPattern::DxxDxx
    );
    assert_eq!(cpu.cp0.reg_config.endianness, Endianness::Big);
    assert!(!cpu.cp0.reg_config.cu);
    assert!(!cpu.cp0.reg_config.kseg0_cache_enabled);
    assert_eq!(cpu.reg_pc, BOOT_VECTOR + 4);
}

#[test]
fn mtc0_writes_low_word_to_status() {
    let mut cpu = boot_cpu(vec![mtc0(1, CP0_REG_STATUS)]);
    cpu.write_reg_gpr(1, 0x0000_0000_0000_0011);
    cpu.run_instruction().unwrap();
    assert_eq!(cpu.cp0.reg_status.mode, Mode::User);
    assert!(cpu.cp0.reg_status.global_interrupts_enable);
}

#[test]
fn mtc0_to_unmodeled_register_is_ignored() {
    let mut cpu = boot_cpu(vec![mtc0(1, 7)]);
    cpu.write_reg_gpr(1, 0xffff_ffff);
    let cp0_before = cpu.cp0;
    cpu.run_instruction().unwrap();
    assert_eq!(cpu.cp0, cp0_before);
    assert_eq!(cpu.reg_pc, BOOT_VECTOR + 4);
}

#[test]
fn mtc0_invalid_config_encoding_is_fatal() {
    let mut cpu = boot_cpu(vec![mtc0(1, CP0_REG_CONFIG)]);
    cpu.write_reg_gpr(1, 3 << 24);
    let pc_before = cpu.reg_pc;
    assert_eq!(
        cpu.run_instruction(),
        Err(EmuError::InvalidDataTransferPattern { raw: 3 << 24 })
    );
    assert_eq!(cpu.reg_pc, pc_before);
}

#[test]
fn mtc0_invalid_status_encoding_is_fatal() {
    let mut cpu = boot_cpu(vec![mtc0(1, CP0_REG_STATUS)]);
    cpu.write_reg_gpr(1, 0b11 << 3);
    assert_eq!(
        cpu.run_instruction(),
        Err(EmuError::InvalidPrivilegeMode { raw: 0b11 << 3 })
    );
}

#[test]
fn unrecognized_opcode_is_fatal() {
    let instruction = 0xffff_ffff;
    let mut cpu = boot_cpu(vec![instruction]);
    assert_eq!(
        cpu.run_instruction(),
        Err(EmuError::UnrecognizedInstruction { instruction })
    );
    assert_eq!(cpu.reg_pc, BOOT_VECTOR);
}

#[test]
fn fetch_from_unbacked_address_is_fatal() {
    let mut cpu = boot_cpu(Vec::new());
    assert_eq!(
        cpu.run_instruction(),
        Err(EmuError::UnbackedAddress { physical_addr: 0x1fc0_0000 })
    );
}

#[test]
fn fetch_before_reset_is_fatal() {
    // a freshly built CPU still has PC 0, which no segment maps
    let mut cpu = Cpu::new(Interconnect::new(0, Vec::new()));
    assert_eq!(
        cpu.run_instruction(),
        Err(EmuError::UnmappedAddress { virtual_addr: 0 })
    );
}

#[test]
fn writes_to_register_zero_are_discarded_by_opcodes() {
    let mut cpu = boot_cpu(vec![lui(0, 0x8000), ori(0, 1, 0x00ff)]);
    cpu.write_reg_gpr(1, 0xf0);
    cpu.run_instruction().unwrap();
    assert_eq!(cpu.read_reg_gpr(0), 0);
    cpu.run_instruction().unwrap();
    assert_eq!(cpu.read_reg_gpr(0), 0);
    assert_eq!(cpu.reg_pc, BOOT_VECTOR + 8);
}

#[test]
fn lui_then_ori_builds_constant() {
    let mut cpu = boot_cpu(vec![lui(1, 0x1234), ori(1, 1, 0x5678)]);
    cpu.run_instruction().unwrap();
    cpu.run_instruction().unwrap();
    assert_eq!(cpu.read_reg_gpr(1), 0x0000_0000_1234_5678);
    assert_eq!(cpu.reg_pc, BOOT_VECTOR + 8);
}

#[test]
fn run_drives_until_fatal_condition() {
    let mut cpu = boot_cpu(vec![lui(1, 0x1234), ori(1, 1, 0x5678)]);
    // two good instructions, then the unbacked fetch behind them
    let stop = cpu.run(10);
    assert_eq!(
        stop,
        Some(EmuError::UnbackedAddress { physical_addr: 0x1fc0_0008 })
    );
    assert_eq!(cpu.read_reg_gpr(1), 0x0000_0000_1234_5678);

    let mut bounded = boot_cpu(vec![lui(1, 0x1234), ori(1, 1, 0x5678)]);
    assert_eq!(bounded.run(2), None);
    assert_eq!(bounded.reg_pc, BOOT_VECTOR + 8);
}
