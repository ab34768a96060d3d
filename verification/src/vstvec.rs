//! Virtual supervisor trap vector base address register.

use vstd::prelude::*;
use crate::word::{field_read, field_write, get_bits, set_bits};
use crate::word::lemma_field_write_preserves_field;

verus! {

/// Virtual supervisor trap vector base address register.
#[derive(Copy, Clone, Debug)]
pub struct Vstvec {
    bits: u64,
}

impl View for Vstvec {
    type V = u64;

    closed spec fn view(&self) -> u64 {
        self.bits
    }
}

impl Vstvec {
    /// Returns the raw bits of the register.
    pub fn bits(&self) -> (r: u64)
        ensures
            r == self@,
    {
        self.bits
    }

    /// Creates a register value from raw bits.
    pub fn from_bits(x: u64) -> (r: Self)
        ensures
            r@ == x,
    {
        Vstvec { bits: x }
    }

    /// Returns the base address of the virtual supervisor trap vector.
    pub fn base(&self) -> (r: u64)
        ensures
            r == field_read(self@, 2, 64),
    {
        get_bits(self.bits, 2, 64)
    }

    /// Sets the base address of the virtual supervisor trap vector.
    pub fn set_base(&mut self, val: u64)
        ensures
            final(self)@ == field_write(old(self)@, 2, 64, val),
    {
        self.bits = set_bits(self.bits, 2, 64, val);
    }

    /// Returns the mode of the virtual supervisor trap vector.
    pub fn mode(&self) -> (r: u64)
        ensures
            r == field_read(self@, 0, 2),
    {
        get_bits(self.bits, 0, 2)
    }

    /// Sets the mode of the virtual supervisor trap vector.
    pub fn set_mode(&mut self, val: u64)
        ensures
            final(self)@ == field_write(old(self)@, 0, 2, val),
    {
        self.bits = set_bits(self.bits, 0, 2, val);
    }
}

/// The two fields of `vstvec` are disjoint: writing the base
/// address leaves the mode unchanged, and the other way round.
pub proof fn lemma_vstvec_field_isolation(w: u64, v: u64)
    ensures
        field_read(field_write(w, 2, 64, v), 0, 2) == field_read(w, 0, 2),
        field_read(field_write(w, 0, 2, v), 2, 64) == field_read(w, 2, 64),
{
    lemma_field_write_preserves_field(w, 2, 64, v, 0, 2);
    lemma_field_write_preserves_field(w, 0, 2, v, 2, 64);
}

} // verus!
