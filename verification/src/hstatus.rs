//! Hypervisor status register.
//!
//! The `hstatus` register provides status and control information for the
//! hypervisor: virtual machine privilege and execution state, guest virtual
//! address translation controls, virtual interrupt management and
//! hypervisor user mode support.

use vstd::prelude::*;
use crate::word::{bit_read, bit_write, get_bit, set_bit, field_read, field_write, get_bits, set_bits};

verus! {

/// Hypervisor status register.
#[derive(Copy, Clone, Debug)]
pub struct Hstatus {
    bits: u64,
}

impl View for Hstatus {
    type V = u64;

    closed spec fn view(&self) -> u64 {
        self.bits
    }
}

impl Hstatus {
    /// Returns the raw bits of the register.
    pub fn bits(&self) -> (r: u64)
        ensures
            r == self@,
    {
        self.bits
    }

    /// Creates a register value from raw bits.
    pub fn from_bits(x: u64) -> (r: Self)
        ensures
            r@ == x,
    {
        Hstatus { bits: x }
    }

    /// Returns the effective XLEN for VS-mode. The field must hold one of the
    /// legal codes.
    pub fn vsxl(&self) -> (r: VsxlValues)
        requires
            VsxlValues::legal(field_read(self@, 32, 34)),
        ensures
            r.spec_code() == field_read(self@, 32, 34),
    {
        VsxlValues::from(get_bits(self.bits, 32, 34))
    }

    /// Sets the effective XLEN for VS-mode.
    pub fn set_vsxl(&mut self, val: VsxlValues)
        ensures
            final(self)@ == field_write(old(self)@, 32, 34, val.spec_code()),
    {
        self.bits = set_bits(self.bits, 32, 34, val.code());
    }

    /// Returns the TSR for VS-mode.
    pub fn vtsr(&self) -> (r: bool)
        ensures
            r == bit_read(self@, 22),
    {
        get_bit(self.bits, 22)
    }

    /// Sets the TSR for VS-mode.
    pub fn set_vtsr(&mut self, val: bool)
        ensures
            final(self)@ == bit_write(old(self)@, 22, val),
    {
        self.bits = set_bit(self.bits, 22, val);
    }

    /// Returns the TW for VS-mode.
    pub fn vtw(&self) -> (r: bool)
        ensures
            r == bit_read(self@, 21),
    {
        get_bit(self.bits, 21)
    }

    /// Sets the TW for VS-mode.
    pub fn set_vtw(&mut self, val: bool)
        ensures
            final(self)@ == bit_write(old(self)@, 21, val),
    {
        self.bits = set_bit(self.bits, 21, val);
    }

    /// Returns the TVM for VS-mode.
    pub fn vtvm(&self) -> (r: bool)
        ensures
            r == bit_read(self@, 20),
    {
        get_bit(self.bits, 20)
    }

    /// Sets the TVM for VS-mode.
    pub fn set_vtvm(&mut self, val: bool)
        ensures
            final(self)@ == bit_write(old(self)@, 20, val),
    {
        self.bits = set_bit(self.bits, 20, val);
    }

    /// Returns the virtual guest external interrupt number.
    pub fn vgein(&self) -> (r: u64)
        ensures
            r == field_read(self@, 12, 18),
    {
        get_bits(self.bits, 12, 18)
    }

    /// Sets the virtual guest external interrupt number.
    pub fn set_vgein(&mut self, val: u64)
        ensures
            final(self)@ == field_write(old(self)@, 12, 18, val),
    {
        self.bits = set_bits(self.bits, 12, 18, val);
    }

    /// Returns the hypervisor user mode status.
    pub fn hu(&self) -> (r: bool)
        ensures
            r == bit_read(self@, 9),
    {
        get_bit(self.bits, 9)
    }

    /// Sets the hypervisor user mode status.
    pub fn set_hu(&mut self, val: bool)
        ensures
            final(self)@ == bit_write(old(self)@, 9, val),
    {
        self.bits = set_bit(self.bits, 9, val);
    }

    /// Returns the supervisor previous virtual privilege.
    pub fn spvp(&self) -> (r: bool)
        ensures
            r == bit_read(self@, 8),
    {
        get_bit(self.bits, 8)
    }

    /// Sets the supervisor previous virtual privilege.
    pub fn set_spvp(&mut self, val: bool)
        ensures
            final(self)@ == bit_write(old(self)@, 8, val),
    {
        self.bits = set_bit(self.bits, 8, val);
    }

    /// Returns the supervisor previous virtualization mode.
    pub fn spv(&self) -> (r: bool)
        ensures
            r == bit_read(self@, 7),
    {
        get_bit(self.bits, 7)
    }

    /// Sets the supervisor previous virtualization mode.
    pub fn set_spv(&mut self, val: bool)
        ensures
            final(self)@ == bit_write(old(self)@, 7, val),
    {
        self.bits = set_bit(self.bits, 7, val);
    }

    /// Returns the guest virtual address status.
    pub fn gva(&self) -> (r: bool)
        ensures
            r == bit_read(self@, 6),
    {
        get_bit(self.bits, 6)
    }

    /// Sets the guest virtual address status.
    pub fn set_gva(&mut self, val: bool)
        ensures
            final(self)@ == bit_write(old(self)@, 6, val),
    {
        self.bits = set_bit(self.bits, 6, val);
    }

    /// Returns the VS-mode memory access endianness.
    pub fn vsbe(&self) -> (r: bool)
        ensures
            r == bit_read(self@, 5),
    {
        get_bit(self.bits, 5)
    }

    /// Sets the VS-mode memory access endianness.
    pub fn set_vsbe(&mut self, val: bool)
        ensures
            final(self)@ == bit_write(old(self)@, 5, val),
    {
        self.bits = set_bit(self.bits, 5, val);
    }
}

/// Effective VS-mode XLEN codes.
#[derive(Copy, Clone, Debug)]
pub enum VsxlValues {
    /// 32-bit virtual address space.
    Vsxl32,
    /// 64-bit virtual address space.
    Vsxl64,
    /// 128-bit virtual address space.
    Vsxl128,
}

impl VsxlValues {
    /// The numeric code that the register encodes this XLEN setting as.
    pub open spec fn spec_code(self) -> u64 {
        match self {
            VsxlValues::Vsxl32 => 1,
            VsxlValues::Vsxl64 => 2,
            VsxlValues::Vsxl128 => 3,
        }
    }

    /// Whether `x` is the code of some XLEN setting.
    pub open spec fn legal(x: u64) -> bool {
        x == 1 || x == 2 || x == 3
    }

    /// Returns the numeric code of this XLEN setting.
    #[verifier::when_used_as_spec(spec_code)]
    pub fn code(self) -> (r: u64)
        ensures
            r == self.spec_code(),
    {
        match self {
            VsxlValues::Vsxl32 => 1,
            VsxlValues::Vsxl64 => 2,
            VsxlValues::Vsxl128 => 3,
        }
    }

    /// Decodes a numeric XLEN setting code. The code must be legal; every legal
    /// code decodes to the XLEN setting that encodes back to it.
    pub fn from(x: u64) -> (r: Self)
        requires
            Self::legal(x),
        ensures
            r.spec_code() == x,
    {
        if x == 1 {
            VsxlValues::Vsxl32
        } else if x == 2 {
            VsxlValues::Vsxl64
        } else {
            VsxlValues::Vsxl128
        }
    }

    /// Decodes a numeric XLEN setting code, rejecting any code outside the
    /// legal set.
    pub fn checked_from(x: u64) -> (r: Option<Self>)
        ensures
            r is Some <==> Self::legal(x),
            r matches Some(v) ==> v.spec_code() == x,
    {
        match x {
            1 => Some(VsxlValues::Vsxl32),
            2 => Some(VsxlValues::Vsxl64),
            3 => Some(VsxlValues::Vsxl128),
            _ => None,
        }
    }
}

/// Every XLEN setting has a legal code and distinct XLEN settings have distinct
/// codes; so each legal code is the code of exactly one XLEN setting, and a
/// code outside the legal set is the code of none.
pub proof fn lemma_vsxl_codes()
    ensures
        forall|v: VsxlValues| VsxlValues::legal(#[trigger] v.spec_code()),
        forall|v: VsxlValues, w: VsxlValues|
            v.spec_code() == w.spec_code() ==> v == w,
{
}

} // verus!
