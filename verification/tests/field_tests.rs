//! Tests for the remaining register views: raw round trips, boundary values
//! of the multi-bit fields, exact encodings and the fallible decoders.

use riscv_h::hedeleg::Hedeleg;
use riscv_h::hgatp::HgatpValues;
use riscv_h::hideleg::Hideleg;
use riscv_h::hie::Hie;
use riscv_h::hip::Hip;
use riscv_h::hstatus::VsxlValues;
use riscv_h::hvip::Hvip;
use riscv_h::vsatp::Vsatp;
use riscv_h::vscause::Vscause;
use riscv_h::vsie::Vsie;
use riscv_h::vsip::Vsip;
use riscv_h::vsstatus::UxlValues;
use riscv_h::vstvec::Vstvec;

#[test]
fn test_raw_round_trips() {
    // Construction from a raw word and extraction of the raw word are exact
    // inverses, for every register view.
    let w = 0xDEADBEEFCAFEBABE_u64;
    assert_eq!(riscv_h::hstatus::Hstatus::from_bits(w).bits(), w);
    assert_eq!(Hedeleg::from_bits(w).bits(), w);
    assert_eq!(Hideleg::from_bits(w).bits(), w);
    assert_eq!(Hie::from_bits(w).bits(), w);
    assert_eq!(Hip::from_bits(w).bits(), w);
    assert_eq!(Hvip::from_bits(w).bits(), w);
    assert_eq!(riscv_h::hgatp::Hgatp::from_bits(w).bits(), w);
    assert_eq!(riscv_h::vsstatus::Vsstatus::from_bits(w).bits(), w);
    assert_eq!(Vsie::from_bits(w).bits(), w);
    assert_eq!(Vsip::from_bits(w).bits(), w);
    assert_eq!(Vstvec::from_bits(w).bits(), w);
    assert_eq!(Vsatp::from_bits(w).bits(), w);
    assert_eq!(Vscause::from_bits(w).bits(), w);
    assert_eq!(Vscause::from_bits(0).bits(), 0);
    assert_eq!(Vscause::from_bits(u64::MAX).bits(), u64::MAX);
}

#[test]
fn test_checked_decoders() {
    // Every legal code decodes and encodes back to itself; every other code
    // is rejected.
    for code in [0_u64, 8, 9] {
        let v = HgatpValues::checked_from(code).unwrap();
        assert_eq!(v.code(), code);
        let v = riscv_h::vsatp::HgatpValues::checked_from(code).unwrap();
        assert_eq!(v.code(), code);
    }
    for code in [1_u64, 2, 3] {
        let v = VsxlValues::checked_from(code).unwrap();
        assert_eq!(v.code(), code);
        let v = UxlValues::checked_from(code).unwrap();
        assert_eq!(v.code(), code);
    }
    // An illegal code is a fault, not a default: code 7 belongs to no
    // translation mode, and codes 0 and 4 to no XLEN setting.
    assert!(HgatpValues::checked_from(7).is_none());
    assert!(riscv_h::vsatp::HgatpValues::checked_from(7).is_none());
    assert!(VsxlValues::checked_from(0).is_none());
    assert!(VsxlValues::checked_from(4).is_none());
    assert!(UxlValues::checked_from(0).is_none());
    assert!(UxlValues::checked_from(4).is_none());
}

#[test]
fn test_hedeleg_flags() {
    let mut hedeleg = Hedeleg::from_bits(0);

    // Each defined exception delegation bit sets and clears independently.
    hedeleg.set_ex0(true);
    hedeleg.set_ex3(true);
    hedeleg.set_ex8(true);
    hedeleg.set_ex12(true);
    hedeleg.set_ex15(true);
    assert!(hedeleg.ex0());
    assert!(!hedeleg.ex1());
    assert!(!hedeleg.ex2());
    assert!(hedeleg.ex3());
    assert!(!hedeleg.ex4());
    assert!(!hedeleg.ex5());
    assert!(!hedeleg.ex6());
    assert!(!hedeleg.ex7());
    assert!(hedeleg.ex8());
    assert!(hedeleg.ex12());
    assert!(!hedeleg.ex13());
    assert!(hedeleg.ex15());
    assert_eq!(
        hedeleg.bits(),
        (1 << 0) | (1 << 3) | (1 << 8) | (1 << 12) | (1 << 15)
    );

    hedeleg.set_ex3(false);
    assert!(!hedeleg.ex3());
    assert!(hedeleg.ex0());
    assert!(hedeleg.ex8());

    // Bits in reserved positions are left untouched by the setters.
    let mut hedeleg = Hedeleg::from_bits(1 << 9);
    hedeleg.set_ex8(true);
    hedeleg.set_ex12(true);
    assert_eq!(hedeleg.bits(), (1 << 8) | (1 << 9) | (1 << 12));
}

#[test]
fn test_interrupt_flag_registers() {
    let mut hideleg = Hideleg::from_bits(0);
    hideleg.set_sip(true);
    hideleg.set_tip(true);
    hideleg.set_eip(true);
    assert!(hideleg.sip());
    assert!(hideleg.tip());
    assert!(hideleg.eip());
    assert_eq!(hideleg.bits(), (1 << 2) | (1 << 6) | (1 << 10));
    hideleg.set_tip(false);
    assert!(!hideleg.tip());
    assert_eq!(hideleg.bits(), (1 << 2) | (1 << 10));

    let mut hie = Hie::from_bits(0);
    hie.set_vssie(true);
    hie.set_vstie(true);
    hie.set_vseie(true);
    hie.set_sgeie(true);
    assert!(hie.vssie());
    assert!(hie.vstie());
    assert!(hie.vseie());
    assert!(hie.sgeie());
    assert_eq!(hie.bits(), (1 << 2) | (1 << 6) | (1 << 10) | (1 << 12));

    let mut hip = Hip::from_bits(0);
    hip.set_vssip(true);
    hip.set_vstip(true);
    hip.set_vseip(true);
    hip.set_sgeip(true);
    assert!(hip.vssip());
    assert!(hip.vstip());
    assert!(hip.vseip());
    assert!(hip.sgeip());
    assert_eq!(hip.bits(), (1 << 2) | (1 << 6) | (1 << 10) | (1 << 12));

    let mut hvip = Hvip::from_bits(0);
    hvip.set_vssip(true);
    hvip.set_vstip(true);
    hvip.set_vseip(true);
    assert!(hvip.vssip());
    assert!(hvip.vstip());
    assert!(hvip.vseip());
    assert_eq!(hvip.bits(), (1 << 2) | (1 << 6) | (1 << 10));

    let mut vsie = Vsie::from_bits(0);
    vsie.set_ssie(true);
    vsie.set_stie(true);
    vsie.set_seie(true);
    assert!(vsie.ssie());
    assert!(vsie.stie());
    assert!(vsie.seie());
    assert_eq!(vsie.bits(), (1 << 1) | (1 << 5) | (1 << 9));

    let mut vsip = Vsip::from_bits(0);
    vsip.set_ssip(true);
    vsip.set_stip(true);
    vsip.set_seip(true);
    assert!(vsip.ssip());
    assert!(vsip.stip());
    assert!(vsip.seip());
    assert_eq!(vsip.bits(), (1 << 1) | (1 << 5) | (1 << 9));
}

#[test]
fn test_vsatp_fields() {
    let mut vsatp = Vsatp::from_bits(0);

    vsatp.set_mode(riscv_h::vsatp::HgatpValues::Sv39x4);
    vsatp.set_asid(0xBEEF);
    vsatp.set_ppn(0x123456789AB);

    assert!(matches!(vsatp.mode(), riscv_h::vsatp::HgatpValues::Sv39x4));
    assert_eq!(vsatp.asid(), 0xBEEF);
    assert_eq!(vsatp.ppn(), 0x123456789AB);

    // Exact encoding: mode at bits 60-63, ASID at bits 44-59, PPN at bits
    // 0-43.
    let expected = (8_u64 << 60) | (0xBEEF << 44) | 0x123456789AB;
    assert_eq!(vsatp.bits(), expected);

    // Boundary values for the 16-bit ASID field.
    vsatp.set_asid(0);
    assert_eq!(vsatp.asid(), 0);
    vsatp.set_asid(0xFFFF);
    assert_eq!(vsatp.asid(), 0xFFFF);
    assert_eq!(vsatp.ppn(), 0x123456789AB);
}

#[test]
fn test_vscause_fields() {
    let mut vscause = Vscause::from_bits(0);

    vscause.set_interrupt(true);
    vscause.set_code(5);
    assert!(vscause.interrupt());
    assert_eq!(vscause.code(), 5);
    assert_eq!(vscause.bits(), (1 << 63) | 5);

    // The cause code never spills into the interrupt bit.
    vscause.set_interrupt(false);
    vscause.set_code(0x7FFF_FFFF_FFFF_FFFF); // Maximum 63-bit value
    assert!(!vscause.interrupt());
    assert_eq!(vscause.code(), 0x7FFF_FFFF_FFFF_FFFF);
    assert_eq!(vscause.bits(), 0x7FFF_FFFF_FFFF_FFFF);

    vscause.set_code(0);
    assert_eq!(vscause.code(), 0);
    assert_eq!(vscause.bits(), 0);
}

#[test]
fn test_vstvec_fields() {
    let mut vstvec = Vstvec::from_bits(0);

    vstvec.set_base(0x2000_0000);
    vstvec.set_mode(1);
    assert_eq!(vstvec.base(), 0x2000_0000);
    assert_eq!(vstvec.mode(), 1);
    assert_eq!(vstvec.bits(), (0x2000_0000_u64 << 2) | 1);

    // Boundary values for the 62-bit base field and the 2-bit mode field.
    vstvec.set_base(0x3FFF_FFFF_FFFF_FFFF);
    assert_eq!(vstvec.base(), 0x3FFF_FFFF_FFFF_FFFF);
    assert_eq!(vstvec.mode(), 1);
    vstvec.set_mode(3);
    assert_eq!(vstvec.mode(), 3);
    assert_eq!(vstvec.base(), 0x3FFF_FFFF_FFFF_FFFF);
    vstvec.set_base(0);
    vstvec.set_mode(0);
    assert_eq!(vstvec.bits(), 0);
}

#[test]
fn test_hstatus_vsxl_from() {
    // The direct decoder agrees with the fallible one on legal codes.
    for code in [1_u64, 2, 3] {
        assert_eq!(VsxlValues::from(code).code(), code);
        assert_eq!(UxlValues::from(code).code(), code);
    }
    for code in [0_u64, 8, 9] {
        assert_eq!(HgatpValues::from(code).code(), code);
        assert_eq!(riscv_h::vsatp::HgatpValues::from(code).code(), code);
    }
}
