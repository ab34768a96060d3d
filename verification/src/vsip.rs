//! Virtual supervisor interrupt pending register.

use vstd::prelude::*;
use crate::word::{bit_read, bit_write, get_bit, set_bit};

verus! {

/// Virtual supervisor interrupt pending register.
#[derive(Copy, Clone, Debug)]
pub struct Vsip {
    bits: u64,
}

impl View for Vsip {
    type V = u64;

    closed spec fn view(&self) -> u64 {
        self.bits
    }
}

impl Vsip {
    /// Returns the raw bits of the register.
    pub fn bits(&self) -> (r: u64)
        ensures
            r == self@,
    {
        self.bits
    }

    /// Creates a register value from raw bits.
    pub fn from_bits(x: u64) -> (r: Self)
        ensures
            r@ == x,
    {
        Vsip { bits: x }
    }

    /// Returns the supervisor software interrupt pending.
    pub fn ssip(&self) -> (r: bool)
        ensures
            r == bit_read(self@, 1),
    {
        get_bit(self.bits, 1)
    }

    /// Sets the supervisor software interrupt pending.
    pub fn set_ssip(&mut self, val: bool)
        ensures
            final(self)@ == bit_write(old(self)@, 1, val),
    {
        self.bits = set_bit(self.bits, 1, val);
    }

    /// Returns the supervisor timer interrupt pending.
    pub fn stip(&self) -> (r: bool)
        ensures
            r == bit_read(self@, 5),
    {
        get_bit(self.bits, 5)
    }

    /// Sets the supervisor timer interrupt pending.
    pub fn set_stip(&mut self, val: bool)
        ensures
            final(self)@ == bit_write(old(self)@, 5, val),
    {
        self.bits = set_bit(self.bits, 5, val);
    }

    /// Returns the supervisor external interrupt pending.
    pub fn seip(&self) -> (r: bool)
        ensures
            r == bit_read(self@, 9),
    {
        get_bit(self.bits, 9)
    }

    /// Sets the supervisor external interrupt pending.
    pub fn set_seip(&mut self, val: bool)
        ensures
            final(self)@ == bit_write(old(self)@, 9, val),
    {
        self.bits = set_bit(self.bits, 9, val);
    }
}

} // verus!
