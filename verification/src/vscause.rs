//! Virtual supervisor cause register.
//!
//! The `vscause` register identifies the event that caused the most recent
//! virtual supervisor trap: the top bit tells an interrupt from an
//! exception, and the remaining bits hold the cause code.

use vstd::prelude::*;
use crate::word::{bit_read, bit_write, get_bit, set_bit, field_read, field_write, get_bits, set_bits};
use crate::word::{lemma_bit_write_preserves_field, lemma_field_write_preserves_bit};

verus! {

/// Virtual supervisor cause register.
#[derive(Copy, Clone, Debug)]
pub struct Vscause {
    bits: u64,
}

impl View for Vscause {
    type V = u64;

    closed spec fn view(&self) -> u64 {
        self.bits
    }
}

impl Vscause {
    /// Returns the raw bits of the register.
    pub fn bits(&self) -> (r: u64)
        ensures
            r == self@,
    {
        self.bits
    }

    /// Creates a register value from raw bits.
    pub fn from_bits(x: u64) -> (r: Self)
        ensures
            r@ == x,
    {
        Vscause { bits: x }
    }

    /// Returns the interrupt cause status.
    pub fn interrupt(&self) -> (r: bool)
        ensures
            r == bit_read(self@, 63),
    {
        get_bit(self.bits, 63)
    }

    /// Sets the interrupt cause status.
    pub fn set_interrupt(&mut self, val: bool)
        ensures
            final(self)@ == bit_write(old(self)@, 63, val),
    {
        self.bits = set_bit(self.bits, 63, val);
    }

    /// Returns the exception code.
    pub fn code(&self) -> (r: u64)
        ensures
            r == field_read(self@, 0, 63),
    {
        get_bits(self.bits, 0, 63)
    }

    /// Sets the exception code.
    pub fn set_code(&mut self, val: u64)
        ensures
            final(self)@ == field_write(old(self)@, 0, 63, val),
    {
        self.bits = set_bits(self.bits, 0, 63, val);
    }
}

/// The two fields of `vscause` are disjoint: writing the cause code leaves
/// the interrupt bit unchanged, and the other way round.
pub proof fn lemma_vscause_field_isolation(w: u64, v: u64, b: bool)
    ensures
        bit_read(field_write(w, 0, 63, v), 63) == bit_read(w, 63),
        field_read(bit_write(w, 63, b), 0, 63) == field_read(w, 0, 63),
{
    lemma_field_write_preserves_bit(w, 0, 63, v, 63);
    lemma_bit_write_preserves_field(w, 63, b, 0, 63);
}

} // verus!
