//! Hypervisor interrupt delegation register.
//!
//! The `hideleg` register controls which interrupts are delegated from
//! HS-mode to VS-mode.

use vstd::prelude::*;
use crate::word::{bit_read, bit_write, get_bit, set_bit};

verus! {

/// Hypervisor interrupt delegation register.
#[derive(Copy, Clone, Debug)]
pub struct Hideleg {
    bits: u64,
}

impl View for Hideleg {
    type V = u64;

    closed spec fn view(&self) -> u64 {
        self.bits
    }
}

impl Hideleg {
    /// Returns the raw bits of the register.
    pub fn bits(&self) -> (r: u64)
        ensures
            r == self@,
    {
        self.bits
    }

    /// Creates a register value from raw bits.
    pub fn from_bits(x: u64) -> (r: Self)
        ensures
            r@ == x,
    {
        Hideleg { bits: x }
    }

    /// Returns the supervisor software interrupt delegation.
    pub fn sip(&self) -> (r: bool)
        ensures
            r == bit_read(self@, 2),
    {
        get_bit(self.bits, 2)
    }

    /// Sets the supervisor software interrupt delegation.
    pub fn set_sip(&mut self, val: bool)
        ensures
            final(self)@ == bit_write(old(self)@, 2, val),
    {
        self.bits = set_bit(self.bits, 2, val);
    }

    /// Returns the supervisor timer interrupt delegation.
    pub fn tip(&self) -> (r: bool)
        ensures
            r == bit_read(self@, 6),
    {
        get_bit(self.bits, 6)
    }

    /// Sets the supervisor timer interrupt delegation.
    pub fn set_tip(&mut self, val: bool)
        ensures
            final(self)@ == bit_write(old(self)@, 6, val),
    {
        self.bits = set_bit(self.bits, 6, val);
    }

    /// Returns the supervisor external interrupt delegation.
    pub fn eip(&self) -> (r: bool)
        ensures
            r == bit_read(self@, 10),
    {
        get_bit(self.bits, 10)
    }

    /// Sets the supervisor external interrupt delegation.
    pub fn set_eip(&mut self, val: bool)
        ensures
            final(self)@ == bit_write(old(self)@, 10, val),
    {
        self.bits = set_bit(self.bits, 10, val);
    }
}

} // verus!
