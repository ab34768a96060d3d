//! Virtual supervisor interrupt enable register.

use vstd::prelude::*;
use crate::word::{bit_read, bit_write, get_bit, set_bit};

verus! {

/// Virtual supervisor interrupt enable register.
#[derive(Copy, Clone, Debug)]
pub struct Vsie {
    bits: u64,
}

impl View for Vsie {
    type V = u64;

    closed spec fn view(&self) -> u64 {
        self.bits
    }
}

impl Vsie {
    /// Returns the raw bits of the register.
    pub fn bits(&self) -> (r: u64)
        ensures
            r == self@,
    {
        self.bits
    }

    /// Creates a register value from raw bits.
    pub fn from_bits(x: u64) -> (r: Self)
        ensures
            r@ == x,
    {
        Vsie { bits: x }
    }

    /// Returns the supervisor software interrupt enable.
    pub fn ssie(&self) -> (r: bool)
        ensures
            r == bit_read(self@, 1),
    {
        get_bit(self.bits, 1)
    }

    /// Sets the supervisor software interrupt enable.
    pub fn set_ssie(&mut self, val: bool)
        ensures
            final(self)@ == bit_write(old(self)@, 1, val),
    {
        self.bits = set_bit(self.bits, 1, val);
    }

    /// Returns the supervisor timer interrupt enable.
    pub fn stie(&self) -> (r: bool)
        ensures
            r == bit_read(self@, 5),
    {
        get_bit(self.bits, 5)
    }

    /// Sets the supervisor timer interrupt enable.
    pub fn set_stie(&mut self, val: bool)
        ensures
            final(self)@ == bit_write(old(self)@, 5, val),
    {
        self.bits = set_bit(self.bits, 5, val);
    }

    /// Returns the supervisor external interrupt enable.
    pub fn seie(&self) -> (r: bool)
        ensures
            r == bit_read(self@, 9),
    {
        get_bit(self.bits, 9)
    }

    /// Sets the supervisor external interrupt enable.
    pub fn set_seie(&mut self, val: bool)
        ensures
            final(self)@ == bit_write(old(self)@, 9, val),
    {
        self.bits = set_bit(self.bits, 9, val);
    }
}

} // verus!
