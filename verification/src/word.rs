//! The bit-vector primitive: reading and writing single bits and inclusive
//! bit ranges of a 64-bit machine word, together with the laws the register
//! views rely on (a written field reads back, and writing one field never
//! disturbs a disjoint one).
//!
//! Ranges are half-open: `lo..hi` covers bits `lo` to `hi - 1`.

use vstd::prelude::*;

verus! {

/// A mask with the low `width` bits set, for `1 <= width <= 64`.
pub open spec fn low_mask(width: u64) -> u64
    recommends
        1 <= width <= 64,
{
    0xffff_ffff_ffff_ffffu64 >> ((64 - width) as u64)
}

/// Whether bit `i` of `w` is set.
pub open spec fn bit_read(w: u64, i: u64) -> bool
    recommends
        i < 64,
{
    w & (1u64 << i) != 0
}

/// `w` with bit `i` set to `v` and every other bit unchanged.
pub open spec fn bit_write(w: u64, i: u64, v: bool) -> u64
    recommends
        i < 64,
{
    if v {
        w | (1u64 << i)
    } else {
        w & !(1u64 << i)
    }
}

/// The unsigned value of bits `lo..hi` of `w`, shifted down to start at bit 0.
pub open spec fn field_read(w: u64, lo: u64, hi: u64) -> u64
    recommends
        lo < hi <= 64,
{
    (w >> lo) & low_mask((hi - lo) as u64)
}

/// `w` with the low `hi - lo` bits of `v` written into bits `lo..hi` and
/// every bit outside the range unchanged.
pub open spec fn field_write(w: u64, lo: u64, hi: u64, v: u64) -> u64
    recommends
        lo < hi <= 64,
{
    (w & !(low_mask((hi - lo) as u64) << lo)) | ((v & low_mask((hi - lo) as u64)) << lo)
}

/// Returns whether bit `i` of `w` is set.
pub fn get_bit(w: u64, i: u64) -> (r: bool)
    requires
        i < 64,
    ensures
        r == bit_read(w, i),
{
    w & (1u64 << i) != 0
}

/// Returns `w` with bit `i` set to `v`, leaving all other bits unchanged.
pub fn set_bit(w: u64, i: u64, v: bool) -> (r: u64)
    requires
        i < 64,
    ensures
        r == bit_write(w, i, v),
{
    if v {
        w | (1u64 << i)
    } else {
        w & !(1u64 << i)
    }
}

/// Returns the unsigned value occupying bits `lo..hi` of `w`, shifted down to
/// start at bit 0.
pub fn get_bits(w: u64, lo: u64, hi: u64) -> (r: u64)
    requires
        lo < hi <= 64,
    ensures
        r == field_read(w, lo, hi),
{
    let width = hi - lo;
    let mask = 0xffff_ffff_ffff_ffffu64 >> (64 - width);
    (w >> lo) & mask
}

/// Returns `w` with `v` written into bits `lo..hi`, masked to the range width
/// and leaving bits outside the range unchanged. If `v` exceeds the range's
/// representable width, only the low bits that fit are written.
pub fn set_bits(w: u64, lo: u64, hi: u64, v: u64) -> (r: u64)
    requires
        lo < hi <= 64,
    ensures
        r == field_write(w, lo, hi, v),
{
    let width = hi - lo;
    let mask = 0xffff_ffff_ffff_ffffu64 >> (64 - width);
    (w & !(mask << lo)) | ((v & mask) << lo)
}

/// A written field reads back as the written value masked to the field width;
/// in particular a value that fits the width round-trips without truncation.
pub proof fn lemma_field_write_read(w: u64, lo: u64, hi: u64, v: u64)
    requires
        lo < hi <= 64,
    ensures
        field_read(field_write(w, lo, hi, v), lo, hi) == v & low_mask((hi - lo) as u64),
        v & low_mask((hi - lo) as u64) == v ==> field_read(field_write(w, lo, hi, v), lo, hi) == v,
{
    assert(field_read(field_write(w, lo, hi, v), lo, hi) == v & low_mask((hi - lo) as u64))
        by (bit_vector)
        requires
            lo < hi <= 64,
    ;
}

/// A written bit reads back as the written value.
pub proof fn lemma_bit_write_read(w: u64, i: u64, v: bool)
    requires
        i < 64,
    ensures
        bit_read(bit_write(w, i, v), i) == v,
{
    assert(bit_read(bit_write(w, i, v), i) == v) by (bit_vector)
        requires
            i < 64,
    ;
}

/// Writing a field leaves every disjoint field unchanged.
pub proof fn lemma_field_write_preserves_field(w: u64, lo: u64, hi: u64, v: u64, lo2: u64, hi2: u64)
    requires
        lo < hi <= 64,
        lo2 < hi2 <= 64,
        hi <= lo2 || hi2 <= lo,
    ensures
        field_read(field_write(w, lo, hi, v), lo2, hi2) == field_read(w, lo2, hi2),
{
    assert(field_read(field_write(w, lo, hi, v), lo2, hi2) == field_read(w, lo2, hi2))
        by (bit_vector)
        requires
            lo < hi <= 64,
            lo2 < hi2 <= 64,
            hi <= lo2 || hi2 <= lo,
    ;
}

/// Writing a field leaves every bit outside the range unchanged.
pub proof fn lemma_field_write_preserves_bit(w: u64, lo: u64, hi: u64, v: u64, j: u64)
    requires
        lo < hi <= 64,
        j < 64,
        j < lo || hi <= j,
    ensures
        bit_read(field_write(w, lo, hi, v), j) == bit_read(w, j),
{
    assert(bit_read(field_write(w, lo, hi, v), j) == bit_read(w, j)) by (bit_vector)
        requires
            lo < hi <= 64,
            j < 64,
            j < lo || hi <= j,
    ;
}

/// Writing a bit leaves every other bit unchanged.
pub proof fn lemma_bit_write_preserves_bit(w: u64, i: u64, v: bool, j: u64)
    requires
        i < 64,
        j < 64,
        i != j,
    ensures
        bit_read(bit_write(w, i, v), j) == bit_read(w, j),
{
    assert(bit_read(bit_write(w, i, v), j) == bit_read(w, j)) by (bit_vector)
        requires
            i < 64,
            j < 64,
            i != j,
    ;
}

/// Writing a bit leaves every field that does not contain it unchanged.
pub proof fn lemma_bit_write_preserves_field(w: u64, i: u64, v: bool, lo: u64, hi: u64)
    requires
        i < 64,
        lo < hi <= 64,
        i < lo || hi <= i,
    ensures
        field_read(bit_write(w, i, v), lo, hi) == field_read(w, lo, hi),
{
    assert(field_read(bit_write(w, i, v), lo, hi) == field_read(w, lo, hi)) by (bit_vector)
        requires
            i < 64,
            lo < hi <= 64,
            i < lo || hi <= i,
    ;
}

} // verus!
