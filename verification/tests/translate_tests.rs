use vr4300_core::cpu::Cpu;
use vr4300_core::errors::EmuError;
use vr4300_core::interconnect::Interconnect;

fn fresh_cpu() -> Cpu {
    Cpu::new(Interconnect::new(0, Vec::new()))
}

#[test]
fn kseg1_address_maps_to_offset() {
    let cpu = fresh_cpu();
    assert_eq!(
        cpu.virtual_addr_to_physical_addr(0xffff_ffff_a000_0040),
        Ok(0x0000_0040)
    );
    assert_eq!(
        cpu.virtual_addr_to_physical_addr(0xffff_ffff_bfc0_0000),
        Ok(0x1fc0_0000)
    );
    assert_eq!(cpu.virtual_addr_to_physical_addr(0xffff_ffff_a000_0000), Ok(0));
}

#[test]
fn wrong_segment_selector_is_fatal() {
    let cpu = fresh_cpu();
    let virtual_addr = 0x0000_0000_8000_0000;
    assert_eq!(
        cpu.virtual_addr_to_physical_addr(virtual_addr),
        Err(EmuError::UnmappedAddress { virtual_addr })
    );
    assert_eq!(
        cpu.virtual_addr_to_physical_addr(0),
        Err(EmuError::UnmappedAddress { virtual_addr: 0 })
    );
    assert_eq!(
        cpu.virtual_addr_to_physical_addr(0xffff_ffff_c000_0000),
        Err(EmuError::UnmappedAddress { virtual_addr: 0xffff_ffff_c000_0000 })
    );
}

#[test]
fn selector_match_below_segment_base_is_fatal() {
    // bits 31:29 hold the kseg1 selector, but the upper half is not the
    // sign-extended segment base: no defined mapping
    let cpu = fresh_cpu();
    let virtual_addr = 0x0000_0000_a000_0040;
    assert_eq!(
        cpu.virtual_addr_to_physical_addr(virtual_addr),
        Err(EmuError::UnmappedAddress { virtual_addr })
    );
}

#[test]
fn interconnect_read_word_in_and_out_of_range() {
    let ic = Interconnect::new(0x100, vec![0xaaaa_0000, 0xbbbb_1111, 0xcccc_2222]);
    assert_eq!(ic.read_word(0x100), Ok(0xaaaa_0000));
    assert_eq!(ic.read_word(0x104), Ok(0xbbbb_1111));
    assert_eq!(ic.read_word(0x108), Ok(0xcccc_2222));
    assert_eq!(
        ic.read_word(0x10c),
        Err(EmuError::UnbackedAddress { physical_addr: 0x10c })
    );
    assert_eq!(
        ic.read_word(0xfc),
        Err(EmuError::UnbackedAddress { physical_addr: 0xfc })
    );
}

#[test]
fn interconnect_read_word_misaligned_is_fatal() {
    let ic = Interconnect::new(0x100, vec![0xaaaa_0000, 0xbbbb_1111]);
    for physical_addr in [0x101u32, 0x102, 0x103, 0x105] {
        assert_eq!(
            ic.read_word(physical_addr),
            Err(EmuError::UnbackedAddress { physical_addr })
        );
    }
}
