//! Tests for the virtual supervisor status register.

use riscv_h::vsstatus::{UxlValues, Vsstatus};

#[test]
fn test_vsstatus_from_bits() {
    let vsstatus = Vsstatus::from_bits(0x123456789ABCDEF0);
    assert_eq!(vsstatus.bits(), 0x123456789ABCDEF0);
}

#[test]
fn test_vsstatus_sd() {
    let mut vsstatus = Vsstatus::from_bits(0);

    // Test setting SD (4-bit field, bits 60-63)
    vsstatus.set_sd(0xA);
    assert_eq!(vsstatus.sd(), 0xA);
    assert_eq!(vsstatus.bits() & (0xF << 60), 0xA << 60);

    // Test boundary values
    vsstatus.set_sd(0);
    assert_eq!(vsstatus.sd(), 0);

    vsstatus.set_sd(0xF); // Maximum 4-bit value
    assert_eq!(vsstatus.sd(), 0xF);
}

#[test]
fn test_vsstatus_uxl() {
    let mut vsstatus = Vsstatus::from_bits(0);

    // Test setting UXL to 32-bit
    vsstatus.set_uxl(UxlValues::Uxl32);
    assert!(matches!(vsstatus.uxl(), UxlValues::Uxl32));
    assert_eq!(vsstatus.bits() & (0b11 << 32), 1 << 32);

    // Test setting UXL to 64-bit
    vsstatus.set_uxl(UxlValues::Uxl64);
    assert!(matches!(vsstatus.uxl(), UxlValues::Uxl64));
    assert_eq!(vsstatus.bits() & (0b11 << 32), 2 << 32);

    // Test setting UXL to 128-bit
    vsstatus.set_uxl(UxlValues::Uxl128);
    assert!(matches!(vsstatus.uxl(), UxlValues::Uxl128));
    assert_eq!(vsstatus.bits() & (0b11 << 32), 3 << 32);
}

#[test]
fn test_vsstatus_boolean_fields() {
    let mut vsstatus = Vsstatus::from_bits(0);

    // Test MXR bit (bit 19)
    assert!(!vsstatus.mxr());
    vsstatus.set_mxr(true);
    assert!(vsstatus.mxr());
    assert_eq!(vsstatus.bits() & (1 << 19), 1 << 19);

    // Test SUM bit (bit 18)
    assert!(!vsstatus.sum());
    vsstatus.set_sum(true);
    assert!(vsstatus.sum());
    assert_eq!(vsstatus.bits() & (1 << 18), 1 << 18);

    // Test SPP bit (bit 8)
    assert!(!vsstatus.spp());
    vsstatus.set_spp(true);
    assert!(vsstatus.spp());
    assert_eq!(vsstatus.bits() & (1 << 8), 1 << 8);

    // Test UBE bit (bit 6)
    assert!(!vsstatus.ube());
    vsstatus.set_ube(true);
    assert!(vsstatus.ube());
    assert_eq!(vsstatus.bits() & (1 << 6), 1 << 6);

    // Test SPIE bit (bit 5)
    assert!(!vsstatus.spie());
    vsstatus.set_spie(true);
    assert!(vsstatus.spie());
    assert_eq!(vsstatus.bits() & (1 << 5), 1 << 5);

    // Test SIE bit (bit 1)
    assert!(!vsstatus.sie());
    vsstatus.set_sie(true);
    assert!(vsstatus.sie());
    assert_eq!(vsstatus.bits() & (1 << 1), 1 << 1);
}

#[test]
fn test_vsstatus_xs() {
    let mut vsstatus = Vsstatus::from_bits(0);

    // Test setting XS (2-bit field, bits 15-16)
    vsstatus.set_xs(0x2);
    assert_eq!(vsstatus.xs(), 0x2);
    assert_eq!(vsstatus.bits() & (0b11 << 15), 0x2 << 15);

    // Test boundary values
    vsstatus.set_xs(0);
    assert_eq!(vsstatus.xs(), 0);

    vsstatus.set_xs(0x3); // Maximum 2-bit value
    assert_eq!(vsstatus.xs(), 0x3);
}

#[test]
fn test_vsstatus_fs() {
    let mut vsstatus = Vsstatus::from_bits(0);

    // Test setting FS (2-bit field, bits 13-14)
    vsstatus.set_fs(0x2);
    assert_eq!(vsstatus.fs(), 0x2);
    assert_eq!(vsstatus.bits() & (0b11 << 13), 0x2 << 13);

    // Test boundary values
    vsstatus.set_fs(0);
    assert_eq!(vsstatus.fs(), 0);

    vsstatus.set_fs(0x3); // Maximum 2-bit value
    assert_eq!(vsstatus.fs(), 0x3);
}

#[test]
fn test_uxl_values_from() {
    assert!(matches!(UxlValues::from(1), UxlValues::Uxl32));
    assert!(matches!(UxlValues::from(2), UxlValues::Uxl64));
    assert!(matches!(UxlValues::from(3), UxlValues::Uxl128));
}

#[test]
fn test_vsstatus_all_fields() {
    let mut vsstatus = Vsstatus::from_bits(0);

    // Set multiple fields and verify they don't interfere
    vsstatus.set_sd(0xB);
    vsstatus.set_uxl(UxlValues::Uxl64);
    vsstatus.set_mxr(true);
    vsstatus.set_sum(true);
    vsstatus.set_xs(0x2);
    vsstatus.set_fs(0x3);
    vsstatus.set_spp(true);
    vsstatus.set_ube(true);
    vsstatus.set_spie(true);
    vsstatus.set_sie(true);

    assert_eq!(vsstatus.sd(), 0xB);
    assert!(matches!(vsstatus.uxl(), UxlValues::Uxl64));
    assert!(vsstatus.mxr());
    assert!(vsstatus.sum());
    assert_eq!(vsstatus.xs(), 0x2);
    assert_eq!(vsstatus.fs(), 0x3);
    assert!(vsstatus.spp());
    assert!(vsstatus.ube());
    assert!(vsstatus.spie());
    assert!(vsstatus.sie());
}

#[test]
fn test_vsstatus_copy_clone() {
    let vsstatus1 = Vsstatus::from_bits(0x123456789ABCDEF0);
    let vsstatus2 = vsstatus1;
    let vsstatus3 = vsstatus1.clone();

    assert_eq!(vsstatus1.bits(), vsstatus2.bits());
    assert_eq!(vsstatus1.bits(), vsstatus3.bits());
}
