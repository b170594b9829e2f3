//! The picture unit's address register: a 14-bit address written one byte
//! at a time through the mapped register window, high byte first.

use vstd::prelude::*;

verus! {

/// The abstract value of the address register: the two bytes of the
/// address (high byte first) and the latch that says which byte the next
/// write fills.
#[verifier::ext_equal]
pub ghost struct AddrV {
    pub hi: u8,
    pub lo: u8,
    pub hi_ptr: bool,
}

/// The 16-bit address the register currently holds.
pub open spec fn addr_value(a: AddrV) -> u16 {
    ((a.hi as u16) << 8) | (a.lo as u16)
}

/// The register after storing a full 16-bit value.
pub open spec fn addr_set(a: AddrV, data: u16) -> AddrV {
    AddrV { hi: (data >> 8) as u8, lo: (data & 0xFF) as u8, ..a }
}

/// The register after one byte written through the mapped window: the
/// latch picks the byte, addresses past 0x3FFF are mirrored down into
/// [0x0000, 0x3FFF], and the latch flips.
pub open spec fn addr_update(a: AddrV, data: u8) -> AddrV {
    let written = if a.hi_ptr {
        AddrV { hi: data, ..a }
    } else {
        AddrV { lo: data, ..a }
    };
    let masked = if addr_value(written) > 0x3FFF {
        addr_set(written, addr_value(written) & 0x3FFF)
    } else {
        written
    };
    AddrV { hi_ptr: !masked.hi_ptr, ..masked }
}

/// The register after an increment of the data port: the low byte grows
/// by `inc`, a wrap of the low byte carries into the high byte, and the
/// result is mirrored down into [0x0000, 0x3FFF].
pub open spec fn addr_increment(a: AddrV, inc: u8) -> AddrV {
    let lo1 = a.lo.wrapping_add(inc);
    let carried = if a.lo > lo1 {
        AddrV { hi: a.hi.wrapping_add(1), lo: lo1, ..a }
    } else {
        AddrV { lo: lo1, ..a }
    };
    if addr_value(carried) > 0x3FFF {
        addr_set(carried, addr_value(carried) & 0x3FFF)
    } else {
        carried
    }
}

/// The register never holds an address past the mirrored window.
pub open spec fn addr_wf(a: AddrV) -> bool {
    a.hi <= 0x3F
}

/// Mirroring down keeps the register inside the window, whatever was
/// written.
pub proof fn lemma_addr_update_wf(a: AddrV, data: u8)
    ensures
        addr_wf(addr_update(a, data)),
{
    let written = if a.hi_ptr {
        AddrV { hi: data, ..a }
    } else {
        AddrV { lo: data, ..a }
    };
    lemma_mask_keeps_window(written.hi, written.lo);
}

/// As `lemma_addr_update_wf`, for the increment operation.
pub proof fn lemma_addr_increment_wf(a: AddrV, inc: u8)
    ensures
        addr_wf(addr_increment(a, inc)),
{
    let lo1 = a.lo.wrapping_add(inc);
    let carried = if a.lo > lo1 {
        AddrV { hi: a.hi.wrapping_add(1), lo: lo1, ..a }
    } else {
        AddrV { lo: lo1, ..a }
    };
    lemma_mask_keeps_window(carried.hi, carried.lo);
}

proof fn lemma_mask_keeps_window(hi: u8, lo: u8)
    ensures
        ((hi as u16) << 8) | (lo as u16) <= 0x3FFF ==> hi <= 0x3F,
        (((((hi as u16) << 8) | (lo as u16)) & 0x3FFF) >> 8) as u8 <= 0x3F,
{
    assert(((hi as u16) << 8) | (lo as u16) <= 0x3FFF ==> hi <= 0x3F) by (bit_vector);
    assert((((((hi as u16) << 8) | (lo as u16)) & 0x3FFF) >> 8) as u8 <= 0x3F) by (bit_vector);
}

/// The address register, written through the mapped window one byte at a
/// time.
pub struct AddrRegister {
    hi: u8,
    lo: u8,
    hi_ptr: bool,
}

impl View for AddrRegister {
    type V = AddrV;

    closed spec fn view(&self) -> AddrV {
        AddrV { hi: self.hi, lo: self.lo, hi_ptr: self.hi_ptr }
    }
}

impl AddrRegister {
    /// A cleared register, waiting for a high byte.
    pub fn new() -> (r: Self)
        ensures
            r@ == (AddrV { hi: 0, lo: 0, hi_ptr: true }),
    {
        AddrRegister { hi: 0, lo: 0, hi_ptr: true }
    }

    fn set(&mut self, data: u16)
        ensures
            final(self)@ == addr_set(old(self)@, data),
    {
        self.hi = (data >> 8) as u8;
        self.lo = (data & 0xFF) as u8;
    }

    /// Takes one byte written through the mapped window.
    pub fn update(&mut self, data: u8)
        ensures
            final(self)@ == addr_update(old(self)@, data),
            addr_wf(final(self)@),
    {
        if self.hi_ptr {
            self.hi = data;
        } else {
            self.lo = data;
        }
        if self.get() > 0x3FFF {
            let v = self.get();
            self.set(v & 0x3FFF);
        }
        self.hi_ptr = !self.hi_ptr;
        proof {
            lemma_addr_update_wf(old(self)@, data);
        }
    }

    /// Advances the register after a data-port access.
    pub fn increment(&mut self, inc: u8)
        ensures
            final(self)@ == addr_increment(old(self)@, inc),
            addr_wf(final(self)@),
    {
        let lo_before = self.lo;
        self.lo = self.lo.wrapping_add(inc);
        if lo_before > self.lo {
            self.hi = self.hi.wrapping_add(1);
        }
        if self.get() > 0x3FFF {
            let v = self.get();
            self.set(v & 0x3FFF);
        }
        proof {
            lemma_addr_increment_wf(old(self)@, inc);
        }
    }

    /// Puts the latch back on the high byte; reading the picture unit's
    /// status register does this.
    pub fn reset_latch(&mut self)
        ensures
            final(self)@ == (AddrV { hi_ptr: true, ..old(self)@ }),
    {
        self.hi_ptr = true;
    }

    /// The address the register holds.
    pub fn get(&mut self) -> (r: u16)
        ensures
            *final(self) == *old(self),
            r == addr_value(old(self)@),
    {
        ((self.hi as u16) << 8) | (self.lo as u16)
    }
}

} // verus!
