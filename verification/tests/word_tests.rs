//! Tests for the bit-vector primitive.

use riscv_h::word::{get_bit, get_bits, set_bit, set_bits};

#[test]
fn test_single_bits() {
    let w = set_bit(0, 0, true);
    assert_eq!(w, 1);
    assert!(get_bit(w, 0));
    assert!(!get_bit(w, 1));

    let w = set_bit(0, 63, true);
    assert_eq!(w, 1 << 63);
    assert!(get_bit(w, 63));

    let w = set_bit(u64::MAX, 7, false);
    assert_eq!(w, u64::MAX & !(1 << 7));
    assert!(!get_bit(w, 7));
    assert!(get_bit(w, 6));
    assert!(get_bit(w, 8));
}

#[test]
fn test_bit_ranges() {
    // A written range reads back, and bits outside it stay untouched.
    let w = set_bits(0, 4, 12, 0xAB);
    assert_eq!(w, 0xAB0);
    assert_eq!(get_bits(w, 4, 12), 0xAB);
    assert_eq!(get_bits(w, 0, 4), 0);
    assert_eq!(get_bits(w, 12, 64), 0);

    let w = set_bits(u64::MAX, 8, 16, 0);
    assert_eq!(w, u64::MAX & !0xFF00);
    assert_eq!(get_bits(w, 8, 16), 0);
    assert_eq!(get_bits(w, 0, 8), 0xFF);

    // A value wider than the range is masked to the range width.
    let w = set_bits(0, 0, 8, 0x1FF);
    assert_eq!(w, 0xFF);

    // The full-word range covers all 64 bits.
    let w = set_bits(0, 0, 64, u64::MAX);
    assert_eq!(w, u64::MAX);
    assert_eq!(get_bits(w, 0, 64), u64::MAX);
}
