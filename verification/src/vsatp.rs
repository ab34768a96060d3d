//! Virtual supervisor address translation and protection register.
//!
//! The `vsatp` register controls the first translation stage of a guest:
//! guest virtual to guest physical addresses. It holds the translation
//! mode, the address space identifier and the physical page number of the
//! root page table.

use vstd::prelude::*;
use crate::word::{field_read, field_write, get_bits, set_bits};
use crate::word::lemma_field_write_preserves_field;

verus! {

/// Virtual supervisor address translation and protection register.
#[derive(Copy, Clone, Debug)]
pub struct Vsatp {
    bits: u64,
}

impl View for Vsatp {
    type V = u64;

    closed spec fn view(&self) -> u64 {
        self.bits
    }
}

impl Vsatp {
    /// Returns the raw bits of the register.
    pub fn bits(&self) -> (r: u64)
        ensures
            r == self@,
    {
        self.bits
    }

    /// Creates a register value from raw bits.
    pub fn from_bits(x: u64) -> (r: Self)
        ensures
            r@ == x,
    {
        Vsatp { bits: x }
    }

    /// Returns the guest address translation mode. The field must hold one of the
    /// legal codes.
    pub fn mode(&self) -> (r: HgatpValues)
        requires
            HgatpValues::legal(field_read(self@, 60, 64)),
        ensures
            r.spec_code() == field_read(self@, 60, 64),
    {
        HgatpValues::from(get_bits(self.bits, 60, 64))
    }

    /// Sets the guest address translation mode.
    pub fn set_mode(&mut self, val: HgatpValues)
        ensures
            final(self)@ == field_write(old(self)@, 60, 64, val.spec_code()),
    {
        self.bits = set_bits(self.bits, 60, 64, val.code());
    }

    /// Returns the address space identifier.
    pub fn asid(&self) -> (r: u64)
        ensures
            r == field_read(self@, 44, 60),
    {
        get_bits(self.bits, 44, 60)
    }

    /// Sets the address space identifier.
    pub fn set_asid(&mut self, val: u64)
        ensures
            final(self)@ == field_write(old(self)@, 44, 60, val),
    {
        self.bits = set_bits(self.bits, 44, 60, val);
    }

    /// Returns the physical page number for the root page table.
    pub fn ppn(&self) -> (r: u64)
        ensures
            r == field_read(self@, 0, 44),
    {
        get_bits(self.bits, 0, 44)
    }

    /// Sets the physical page number for the root page table.
    pub fn set_ppn(&mut self, val: u64)
        ensures
            final(self)@ == field_write(old(self)@, 0, 44, val),
    {
        self.bits = set_bits(self.bits, 0, 44, val);
    }
}

/// Guest address translation mode codes.
#[derive(Copy, Clone, Debug)]
pub enum HgatpValues {
    /// No translation or protection.
    Bare,
    /// Page-based 39-bit virtual addressing, extended by two bits.
    Sv39x4,
    /// Page-based 48-bit virtual addressing, extended by two bits.
    Sv48x4,
}

impl HgatpValues {
    /// The numeric code that the register encodes this mode as.
    pub open spec fn spec_code(self) -> u64 {
        match self {
            HgatpValues::Bare => 0,
            HgatpValues::Sv39x4 => 8,
            HgatpValues::Sv48x4 => 9,
        }
    }

    /// Whether `x` is the code of some mode.
    pub open spec fn legal(x: u64) -> bool {
        x == 0 || x == 8 || x == 9
    }

    /// Returns the numeric code of this mode.
    #[verifier::when_used_as_spec(spec_code)]
    pub fn code(self) -> (r: u64)
        ensures
            r == self.spec_code(),
    {
        match self {
            HgatpValues::Bare => 0,
            HgatpValues::Sv39x4 => 8,
            HgatpValues::Sv48x4 => 9,
        }
    }

    /// Decodes a numeric mode code. The code must be legal; every legal
    /// code decodes to the mode that encodes back to it.
    pub fn from(x: u64) -> (r: Self)
        requires
            Self::legal(x),
        ensures
            r.spec_code() == x,
    {
        if x == 0 {
            HgatpValues::Bare
        } else if x == 8 {
            HgatpValues::Sv39x4
        } else {
            HgatpValues::Sv48x4
        }
    }

    /// Decodes a numeric mode code, rejecting any code outside the
    /// legal set.
    pub fn checked_from(x: u64) -> (r: Option<Self>)
        ensures
            r is Some <==> Self::legal(x),
            r matches Some(v) ==> v.spec_code() == x,
    {
        match x {
            0 => Some(HgatpValues::Bare),
            8 => Some(HgatpValues::Sv39x4),
            9 => Some(HgatpValues::Sv48x4),
            _ => None,
        }
    }
}

/// Every mode has a legal code and distinct modes have distinct
/// codes; so each legal code is the code of exactly one mode, and a
/// code outside the legal set is the code of none.
pub proof fn lemma_vsatp_mode_codes()
    ensures
        forall|v: HgatpValues| HgatpValues::legal(#[trigger] v.spec_code()),
        forall|v: HgatpValues, w: HgatpValues|
            v.spec_code() == w.spec_code() ==> v == w,
{
}

/// The three fields of `vsatp` are pairwise disjoint: writing any
/// one of mode, ASID or PPN leaves the other two unchanged.
pub proof fn lemma_vsatp_field_isolation(w: u64, v: u64)
    ensures
        field_read(field_write(w, 60, 64, v), 44, 60) == field_read(w, 44, 60),
        field_read(field_write(w, 60, 64, v), 0, 44) == field_read(w, 0, 44),
        field_read(field_write(w, 44, 60, v), 60, 64) == field_read(w, 60, 64),
        field_read(field_write(w, 44, 60, v), 0, 44) == field_read(w, 0, 44),
        field_read(field_write(w, 0, 44, v), 60, 64) == field_read(w, 60, 64),
        field_read(field_write(w, 0, 44, v), 44, 60) == field_read(w, 44, 60),
{
    lemma_field_write_preserves_field(w, 60, 64, v, 44, 60);
    lemma_field_write_preserves_field(w, 60, 64, v, 0, 44);
    lemma_field_write_preserves_field(w, 44, 60, v, 60, 64);
    lemma_field_write_preserves_field(w, 44, 60, v, 0, 44);
    lemma_field_write_preserves_field(w, 0, 44, v, 60, 64);
    lemma_field_write_preserves_field(w, 0, 44, v, 44, 60);
}

} // verus!
