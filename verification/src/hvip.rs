//! Hypervisor virtual interrupt pending register.

use vstd::prelude::*;
use crate::word::{bit_read, bit_write, get_bit, set_bit};

verus! {

/// Hypervisor virtual interrupt pending register.
#[derive(Copy, Clone, Debug)]
pub struct Hvip {
    bits: u64,
}

impl View for Hvip {
    type V = u64;

    closed spec fn view(&self) -> u64 {
        self.bits
    }
}

impl Hvip {
    /// Returns the raw bits of the register.
    pub fn bits(&self) -> (r: u64)
        ensures
            r == self@,
    {
        self.bits
    }

    /// Creates a register value from raw bits.
    pub fn from_bits(x: u64) -> (r: Self)
        ensures
            r@ == x,
    {
        Hvip { bits: x }
    }

    /// Returns the virtual supervisor software interrupt pending.
    pub fn vssip(&self) -> (r: bool)
        ensures
            r == bit_read(self@, 2),
    {
        get_bit(self.bits, 2)
    }

    /// Sets the virtual supervisor software interrupt pending.
    pub fn set_vssip(&mut self, val: bool)
        ensures
            final(self)@ == bit_write(old(self)@, 2, val),
    {
        self.bits = set_bit(self.bits, 2, val);
    }

    /// Returns the virtual supervisor timer interrupt pending.
    pub fn vstip(&self) -> (r: bool)
        ensures
            r == bit_read(self@, 6),
    {
        get_bit(self.bits, 6)
    }

    /// Sets the virtual supervisor timer interrupt pending.
    pub fn set_vstip(&mut self, val: bool)
        ensures
            final(self)@ == bit_write(old(self)@, 6, val),
    {
        self.bits = set_bit(self.bits, 6, val);
    }

    /// Returns the virtual supervisor external interrupt pending.
    pub fn vseip(&self) -> (r: bool)
        ensures
            r == bit_read(self@, 10),
    {
        get_bit(self.bits, 10)
    }

    /// Sets the virtual supervisor external interrupt pending.
    pub fn set_vseip(&mut self, val: bool)
        ensures
            final(self)@ == bit_write(old(self)@, 10, val),
    {
        self.bits = set_bit(self.bits, 10, val);
    }
}

} // verus!
