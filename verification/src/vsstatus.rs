//! Virtual supervisor status register.
//!
//! The `vsstatus` register contains status and control fields for virtual
//! supervisor mode: privilege levels, memory management and extension
//! state.

use vstd::prelude::*;
use crate::word::{bit_read, bit_write, get_bit, set_bit, field_read, field_write, get_bits, set_bits};

verus! {

/// Virtual supervisor status register.
#[derive(Copy, Clone, Debug)]
pub struct Vsstatus {
    bits: u64,
}

impl View for Vsstatus {
    type V = u64;

    closed spec fn view(&self) -> u64 {
        self.bits
    }
}

impl Vsstatus {
    /// Returns the raw bits of the register.
    pub fn bits(&self) -> (r: u64)
        ensures
            r == self@,
    {
        self.bits
    }

    /// Creates a register value from raw bits.
    pub fn from_bits(x: u64) -> (r: Self)
        ensures
            r@ == x,
    {
        Vsstatus { bits: x }
    }

    /// Returns the status of the dirty state fields.
    pub fn sd(&self) -> (r: u64)
        ensures
            r == field_read(self@, 60, 64),
    {
        get_bits(self.bits, 60, 64)
    }

    /// Sets the status of the dirty state fields.
    pub fn set_sd(&mut self, val: u64)
        ensures
            final(self)@ == field_write(old(self)@, 60, 64, val),
    {
        self.bits = set_bits(self.bits, 60, 64, val);
    }

    /// Returns the effective user XLEN setting. The field must hold one of the
    /// legal codes.
    pub fn uxl(&self) -> (r: UxlValues)
        requires
            UxlValues::legal(field_read(self@, 32, 34)),
        ensures
            r.spec_code() == field_read(self@, 32, 34),
    {
        UxlValues::from(get_bits(self.bits, 32, 34))
    }

    /// Sets the effective user XLEN setting.
    pub fn set_uxl(&mut self, val: UxlValues)
        ensures
            final(self)@ == field_write(old(self)@, 32, 34, val.spec_code()),
    {
        self.bits = set_bits(self.bits, 32, 34, val.code());
    }

    /// Returns the status of the make executable readable bit.
    pub fn mxr(&self) -> (r: bool)
        ensures
            r == bit_read(self@, 19),
    {
        get_bit(self.bits, 19)
    }

    /// Sets the status of the make executable readable bit.
    pub fn set_mxr(&mut self, val: bool)
        ensures
            final(self)@ == bit_write(old(self)@, 19, val),
    {
        self.bits = set_bit(self.bits, 19, val);
    }

    /// Returns the status of the supervisor user memory access bit.
    pub fn sum(&self) -> (r: bool)
        ensures
            r == bit_read(self@, 18),
    {
        get_bit(self.bits, 18)
    }

    /// Sets the status of the supervisor user memory access bit.
    pub fn set_sum(&mut self, val: bool)
        ensures
            final(self)@ == bit_write(old(self)@, 18, val),
    {
        self.bits = set_bit(self.bits, 18, val);
    }

    /// Returns the status of the extension state fields.
    pub fn xs(&self) -> (r: u64)
        ensures
            r == field_read(self@, 15, 17),
    {
        get_bits(self.bits, 15, 17)
    }

    /// Sets the status of the extension state fields.
    pub fn set_xs(&mut self, val: u64)
        ensures
            final(self)@ == field_write(old(self)@, 15, 17, val),
    {
        self.bits = set_bits(self.bits, 15, 17, val);
    }

    /// Returns the floating point state.
    pub fn fs(&self) -> (r: u64)
        ensures
            r == field_read(self@, 13, 15),
    {
        get_bits(self.bits, 13, 15)
    }

    /// Sets the floating point state.
    pub fn set_fs(&mut self, val: u64)
        ensures
            final(self)@ == field_write(old(self)@, 13, 15, val),
    {
        self.bits = set_bits(self.bits, 13, 15, val);
    }

    /// Returns the supervisor previous privilege.
    pub fn spp(&self) -> (r: bool)
        ensures
            r == bit_read(self@, 8),
    {
        get_bit(self.bits, 8)
    }

    /// Sets the supervisor previous privilege.
    pub fn set_spp(&mut self, val: bool)
        ensures
            final(self)@ == bit_write(old(self)@, 8, val),
    {
        self.bits = set_bit(self.bits, 8, val);
    }

    /// Returns the user binary endianness.
    pub fn ube(&self) -> (r: bool)
        ensures
            r == bit_read(self@, 6),
    {
        get_bit(self.bits, 6)
    }

    /// Sets the user binary endianness.
    pub fn set_ube(&mut self, val: bool)
        ensures
            final(self)@ == bit_write(old(self)@, 6, val),
    {
        self.bits = set_bit(self.bits, 6, val);
    }

    /// Returns the supervisor previous interrupt enable.
    pub fn spie(&self) -> (r: bool)
        ensures
            r == bit_read(self@, 5),
    {
        get_bit(self.bits, 5)
    }

    /// Sets the supervisor previous interrupt enable.
    pub fn set_spie(&mut self, val: bool)
        ensures
            final(self)@ == bit_write(old(self)@, 5, val),
    {
        self.bits = set_bit(self.bits, 5, val);
    }

    /// Returns the supervisor interrupt enable.
    pub fn sie(&self) -> (r: bool)
        ensures
            r == bit_read(self@, 1),
    {
        get_bit(self.bits, 1)
    }

    /// Sets the supervisor interrupt enable.
    pub fn set_sie(&mut self, val: bool)
        ensures
            final(self)@ == bit_write(old(self)@, 1, val),
    {
        self.bits = set_bit(self.bits, 1, val);
    }
}

/// Effective user-mode XLEN codes.
#[derive(Copy, Clone, Debug)]
pub enum UxlValues {
    /// 32-bit virtual address space.
    Uxl32,
    /// 64-bit virtual address space.
    Uxl64,
    /// 128-bit virtual address space.
    Uxl128,
}

impl UxlValues {
    /// The numeric code that the register encodes this XLEN setting as.
    pub open spec fn spec_code(self) -> u64 {
        match self {
            UxlValues::Uxl32 => 1,
            UxlValues::Uxl64 => 2,
            UxlValues::Uxl128 => 3,
        }
    }

    /// Whether `x` is the code of some XLEN setting.
    pub open spec fn legal(x: u64) -> bool {
        x == 1 || x == 2 || x == 3
    }

    /// Returns the numeric code of this XLEN setting.
    #[verifier::when_used_as_spec(spec_code)]
    pub fn code(self) -> (r: u64)
        ensures
            r == self.spec_code(),
    {
        match self {
            UxlValues::Uxl32 => 1,
            UxlValues::Uxl64 => 2,
            UxlValues::Uxl128 => 3,
        }
    }

    /// Decodes a numeric XLEN setting code. The code must be legal; every legal
    /// code decodes to the XLEN setting that encodes back to it.
    pub fn from(x: u64) -> (r: Self)
        requires
            Self::legal(x),
        ensures
            r.spec_code() == x,
    {
        if x == 1 {
            UxlValues::Uxl32
        } else if x == 2 {
            UxlValues::Uxl64
        } else {
            UxlValues::Uxl128
        }
    }

    /// Decodes a numeric XLEN setting code, rejecting any code outside the
    /// legal set.
    pub fn checked_from(x: u64) -> (r: Option<Self>)
        ensures
            r is Some <==> Self::legal(x),
            r matches Some(v) ==> v.spec_code() == x,
    {
        match x {
            1 => Some(UxlValues::Uxl32),
            2 => Some(UxlValues::Uxl64),
            3 => Some(UxlValues::Uxl128),
            _ => None,
        }
    }
}

/// Every XLEN setting has a legal code and distinct XLEN settings have distinct
/// codes; so each legal code is the code of exactly one XLEN setting, and a
/// code outside the legal set is the code of none.
pub proof fn lemma_uxl_codes()
    ensures
        forall|v: UxlValues| UxlValues::legal(#[trigger] v.spec_code()),
        forall|v: UxlValues, w: UxlValues|
            v.spec_code() == w.spec_code() ==> v == w,
{
}

} // verus!
