//! The picture unit's control register. The core only reads the
//! data-port increment step from it; the remaining bits are stored and
//! handed back as written.

use vstd::prelude::*;

verus! {

/// The data-port increment step the control byte selects: 32 when the
/// increment bit is set, 1 otherwise.
pub open spec fn ctrl_vram_increment(bits: u8) -> u8 {
    if bits & 0x04 != 0 {
        32
    } else {
        1
    }
}

/// The control register, stored as its raw byte.
#[derive(Clone, Copy, Debug)]
pub struct ControlRegister {
    bits: u8,
}

impl View for ControlRegister {
    type V = u8;

    closed spec fn view(&self) -> u8 {
        self.bits
    }
}

impl ControlRegister {
    /// A cleared control register.
    pub fn new() -> (r: Self)
        ensures
            r@ == 0,
    {
        ControlRegister { bits: 0 }
    }

    /// The step the data-port address advances by after each access.
    pub fn vram_addr_increment(&self) -> (r: u8)
        ensures
            r == ctrl_vram_increment(self@),
    {
        if self.bits & 0x04 != 0 {
            32
        } else {
            1
        }
    }

    /// Stores a byte written through the mapped window.
    pub fn update(&mut self, data: u8)
        ensures
            final(self)@ == data,
    {
        self.bits = data;
    }
}

} // verus!
