//! Hypervisor interrupt enable register.
//!
//! The `hie` register controls which virtual supervisor interrupts can be
//! taken when executing in VS-mode or VU-mode. It works together with the
//! interrupt pending registers and guest interrupt delegation to manage
//! virtualized interrupt delivery.

use vstd::prelude::*;
use crate::word::{bit_read, bit_write, get_bit, set_bit};

verus! {

/// Hypervisor interrupt enable register.
#[derive(Copy, Clone, Debug)]
pub struct Hie {
    bits: u64,
}

impl View for Hie {
    type V = u64;

    closed spec fn view(&self) -> u64 {
        self.bits
    }
}

impl Hie {
    /// Returns the raw bits of the register.
    pub fn bits(&self) -> (r: u64)
        ensures
            r == self@,
    {
        self.bits
    }

    /// Creates a register value from raw bits.
    pub fn from_bits(x: u64) -> (r: Self)
        ensures
            r@ == x,
    {
        Hie { bits: x }
    }

    /// Returns the virtual supervisor software interrupt enable.
    pub fn vssie(&self) -> (r: bool)
        ensures
            r == bit_read(self@, 2),
    {
        get_bit(self.bits, 2)
    }

    /// Sets the virtual supervisor software interrupt enable.
    pub fn set_vssie(&mut self, val: bool)
        ensures
            final(self)@ == bit_write(old(self)@, 2, val),
    {
        self.bits = set_bit(self.bits, 2, val);
    }

    /// Returns the virtual supervisor timer interrupt enable.
    pub fn vstie(&self) -> (r: bool)
        ensures
            r == bit_read(self@, 6),
    {
        get_bit(self.bits, 6)
    }

    /// Sets the virtual supervisor timer interrupt enable.
    pub fn set_vstie(&mut self, val: bool)
        ensures
            final(self)@ == bit_write(old(self)@, 6, val),
    {
        self.bits = set_bit(self.bits, 6, val);
    }

    /// Returns the virtual supervisor external interrupt enable.
    pub fn vseie(&self) -> (r: bool)
        ensures
            r == bit_read(self@, 10),
    {
        get_bit(self.bits, 10)
    }

    /// Sets the virtual supervisor external interrupt enable.
    pub fn set_vseie(&mut self, val: bool)
        ensures
            final(self)@ == bit_write(old(self)@, 10, val),
    {
        self.bits = set_bit(self.bits, 10, val);
    }

    /// Returns the supervisor guest external interrupt enable.
    pub fn sgeie(&self) -> (r: bool)
        ensures
            r == bit_read(self@, 12),
    {
        get_bit(self.bits, 12)
    }

    /// Sets the supervisor guest external interrupt enable.
    pub fn set_sgeie(&mut self, val: bool)
        ensures
            final(self)@ == bit_write(old(self)@, 12, val),
    {
        self.bits = set_bit(self.bits, 12, val);
    }
}

} // verus!
