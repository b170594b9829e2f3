//! The processor status register: eight independently named flag bits
//! packed into one byte.
//!
//! Bit layout, from bit 7 down to bit 0: negative, overflow, break2
//! (unused duplicate), break, decimal (unused on this processor),
//! interrupt-disable, zero, carry.

use vstd::prelude::*;

verus! {

pub const FLAG_CARRY: u8 = 0x01;

pub const FLAG_ZERO: u8 = 0x02;

pub const FLAG_INTERRUPT_DISABLE: u8 = 0x04;

pub const FLAG_DECIMAL_MODE: u8 = 0x08;

pub const FLAG_BREAK: u8 = 0x10;

pub const FLAG_BREAK2: u8 = 0x20;

pub const FLAG_OVERFLOW: u8 = 0x40;

pub const FLAG_NEGATIVE: u8 = 0x80;

/// The status byte that every flag-updating instruction produces: the zero
/// flag is set exactly when the result byte is 0, and the negative flag is
/// set exactly when bit 7 of the result byte is set.
pub open spec fn zn_update(status: u8, value: u8) -> u8 {
    let with_zero = if value == 0 {
        status | FLAG_ZERO
    } else {
        status & !FLAG_ZERO
    };
    if value & 0x80 != 0 {
        with_zero | FLAG_NEGATIVE
    } else {
        with_zero & !FLAG_NEGATIVE
    }
}

/// The processor status flags, packed into one byte.
#[derive(Clone, Copy, Debug)]
pub struct CpuFlags {
    bits: u8,
}

impl View for CpuFlags {
    type V = u8;

    closed spec fn view(&self) -> u8 {
        self.bits
    }
}

impl CpuFlags {
    /// Builds a flag set from a raw byte. Every bit of the byte is a named
    /// flag, so nothing is dropped.
    pub fn from_bits_truncate(bits: u8) -> (r: Self)
        ensures
            r@ == bits,
    {
        CpuFlags { bits }
    }

    /// The raw byte holding all eight flags.
    pub fn bits(&self) -> (r: u8)
        ensures
            r == self@,
    {
        self.bits
    }

    /// True when every bit of `mask` is set.
    pub fn contains(&self, mask: u8) -> (r: bool)
        ensures
            r == (self@ & mask == mask),
    {
        self.bits & mask == mask
    }

    /// Sets every bit of `mask`.
    pub fn insert(&mut self, mask: u8)
        ensures
            final(self)@ == old(self)@ | mask,
    {
        self.bits = self.bits | mask;
    }

    /// Clears every bit of `mask`.
    pub fn remove(&mut self, mask: u8)
        ensures
            final(self)@ == old(self)@ & !mask,
    {
        self.bits = self.bits & !mask;
    }

    /// Sets or clears every bit of `mask`, by `value`.
    pub fn set(&mut self, mask: u8, value: bool)
        ensures
            final(self)@ == (if value {
                old(self)@ | mask
            } else {
                old(self)@ & !mask
            }),
    {
        if value {
            self.insert(mask);
        } else {
            self.remove(mask);
        }
    }

    /// Applies the shared zero/negative update rule for a result byte.
    pub fn update_zero_and_negative(&mut self, value: u8)
        ensures
            final(self)@ == zn_update(old(self)@, value),
    {
        if value == 0 {
            self.insert(FLAG_ZERO);
        } else {
            self.remove(FLAG_ZERO);
        }
        if value & 0x80 != 0 {
            self.insert(FLAG_NEGATIVE);
        } else {
            self.remove(FLAG_NEGATIVE);
        }
    }
}

} // verus!
