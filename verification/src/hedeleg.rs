//! Hypervisor exception delegation register.
//!
//! The `hedeleg` register controls which exceptions are delegated from
//! HS-mode to VS-mode. When a bit is set, the corresponding exception traps
//! to VS-mode instead of HS-mode when it occurs in VS-mode or VU-mode. The
//! bit positions correspond to the standard exception cause codes; the
//! positions between the defined codes are reserved and are left untouched
//! by every setter.

use vstd::prelude::*;
use crate::word::{bit_read, bit_write, get_bit, set_bit};

verus! {

/// Hypervisor exception delegation register.
#[derive(Copy, Clone, Debug)]
pub struct Hedeleg {
    bits: u64,
}

impl View for Hedeleg {
    type V = u64;

    closed spec fn view(&self) -> u64 {
        self.bits
    }
}

impl Hedeleg {
    /// Returns the raw bits of the register.
    pub fn bits(&self) -> (r: u64)
        ensures
            r == self@,
    {
        self.bits
    }

    /// Creates a register value from raw bits.
    pub fn from_bits(x: u64) -> (r: Self)
        ensures
            r@ == x,
    {
        Hedeleg { bits: x }
    }

    /// Returns the instruction address misaligned exception delegation.
    pub fn ex0(&self) -> (r: bool)
        ensures
            r == bit_read(self@, 0),
    {
        get_bit(self.bits, 0)
    }

    /// Sets the instruction address misaligned exception delegation.
    pub fn set_ex0(&mut self, val: bool)
        ensures
            final(self)@ == bit_write(old(self)@, 0, val),
    {
        self.bits = set_bit(self.bits, 0, val);
    }

    /// Returns the instruction access fault exception delegation.
    pub fn ex1(&self) -> (r: bool)
        ensures
            r == bit_read(self@, 1),
    {
        get_bit(self.bits, 1)
    }

    /// Sets the instruction access fault exception delegation.
    pub fn set_ex1(&mut self, val: bool)
        ensures
            final(self)@ == bit_write(old(self)@, 1, val),
    {
        self.bits = set_bit(self.bits, 1, val);
    }

    /// Returns the illegal instruction exception delegation.
    pub fn ex2(&self) -> (r: bool)
        ensures
            r == bit_read(self@, 2),
    {
        get_bit(self.bits, 2)
    }

    /// Sets the illegal instruction exception delegation.
    pub fn set_ex2(&mut self, val: bool)
        ensures
            final(self)@ == bit_write(old(self)@, 2, val),
    {
        self.bits = set_bit(self.bits, 2, val);
    }

    /// Returns the breakpoint exception delegation.
    pub fn ex3(&self) -> (r: bool)
        ensures
            r == bit_read(self@, 3),
    {
        get_bit(self.bits, 3)
    }

    /// Sets the breakpoint exception delegation.
    pub fn set_ex3(&mut self, val: bool)
        ensures
            final(self)@ == bit_write(old(self)@, 3, val),
    {
        self.bits = set_bit(self.bits, 3, val);
    }

    /// Returns the load address misaligned exception delegation.
    pub fn ex4(&self) -> (r: bool)
        ensures
            r == bit_read(self@, 4),
    {
        get_bit(self.bits, 4)
    }

    /// Sets the load address misaligned exception delegation.
    pub fn set_ex4(&mut self, val: bool)
        ensures
            final(self)@ == bit_write(old(self)@, 4, val),
    {
        self.bits = set_bit(self.bits, 4, val);
    }

    /// Returns the load access fault exception delegation.
    pub fn ex5(&self) -> (r: bool)
        ensures
            r == bit_read(self@, 5),
    {
        get_bit(self.bits, 5)
    }

    /// Sets the load access fault exception delegation.
    pub fn set_ex5(&mut self, val: bool)
        ensures
            final(self)@ == bit_write(old(self)@, 5, val),
    {
        self.bits = set_bit(self.bits, 5, val);
    }

    /// Returns the store/AMO address misaligned exception delegation.
    pub fn ex6(&self) -> (r: bool)
        ensures
            r == bit_read(self@, 6),
    {
        get_bit(self.bits, 6)
    }

    /// Sets the store/AMO address misaligned exception delegation.
    pub fn set_ex6(&mut self, val: bool)
        ensures
            final(self)@ == bit_write(old(self)@, 6, val),
    {
        self.bits = set_bit(self.bits, 6, val);
    }

    /// Returns the store/AMO access fault exception delegation.
    pub fn ex7(&self) -> (r: bool)
        ensures
            r == bit_read(self@, 7),
    {
        get_bit(self.bits, 7)
    }

    /// Sets the store/AMO access fault exception delegation.
    pub fn set_ex7(&mut self, val: bool)
        ensures
            final(self)@ == bit_write(old(self)@, 7, val),
    {
        self.bits = set_bit(self.bits, 7, val);
    }

    /// Returns the environment call exception delegation.
    pub fn ex8(&self) -> (r: bool)
        ensures
            r == bit_read(self@, 8),
    {
        get_bit(self.bits, 8)
    }

    /// Sets the environment call exception delegation.
    pub fn set_ex8(&mut self, val: bool)
        ensures
            final(self)@ == bit_write(old(self)@, 8, val),
    {
        self.bits = set_bit(self.bits, 8, val);
    }

    /// Returns the instruction page fault exception delegation.
    pub fn ex12(&self) -> (r: bool)
        ensures
            r == bit_read(self@, 12),
    {
        get_bit(self.bits, 12)
    }

    /// Sets the instruction page fault exception delegation.
    pub fn set_ex12(&mut self, val: bool)
        ensures
            final(self)@ == bit_write(old(self)@, 12, val),
    {
        self.bits = set_bit(self.bits, 12, val);
    }

    /// Returns the load page fault exception delegation.
    pub fn ex13(&self) -> (r: bool)
        ensures
            r == bit_read(self@, 13),
    {
        get_bit(self.bits, 13)
    }

    /// Sets the load page fault exception delegation.
    pub fn set_ex13(&mut self, val: bool)
        ensures
            final(self)@ == bit_write(old(self)@, 13, val),
    {
        self.bits = set_bit(self.bits, 13, val);
    }

    /// Returns the store/AMO page fault exception delegation.
    pub fn ex15(&self) -> (r: bool)
        ensures
            r == bit_read(self@, 15),
    {
        get_bit(self.bits, 15)
    }

    /// Sets the store/AMO page fault exception delegation.
    pub fn set_ex15(&mut self, val: bool)
        ensures
            final(self)@ == bit_write(old(self)@, 15, val),
    {
        self.bits = set_bit(self.bits, 15, val);
    }
}

} // verus!
