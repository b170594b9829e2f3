//! The cartridge image, already parsed: a program-ROM bank of 16 or
//! 32 KiB, an 8 KiB graphics-ROM bank, and the name-table mirroring mode.
//!
//! Parsing a cartridge file into this form is outside the core; the bus
//! consumes the image as plain byte buffers with a defined bank layout.

use vstd::prelude::*;

verus! {

/// How the picture unit's name tables are mirrored on this cartridge.
#[derive(Clone, Copy, Debug, PartialEq, Eq, Structural)]
pub enum Mirroring {
    Vertical,
    Horizontal,
    FourScreen,
}

/// A loaded cartridge image.
pub struct Rom {
    pub prg_rom: Vec<u8>,
    pub chr_rom: Vec<u8>,
    pub screen_mirroring: Mirroring,
}

impl Rom {
    /// The bank layout the bus relies on: one or two 16 KiB program banks
    /// and one 8 KiB graphics bank.
    pub open spec fn wf(&self) -> bool {
        &&& (self.prg_rom@.len() == 0x4000 || self.prg_rom@.len() == 0x8000)
        &&& self.chr_rom@.len() == 0x2000
    }
}

/// A buffer of `n` zero bytes.
pub fn zero_vec(n: usize) -> (r: Vec<u8>)
    ensures
        r@ == Seq::new(n as nat, |i: int| 0u8),
{
    let mut v: Vec<u8> = Vec::new();
    let mut k: usize = 0;
    while k < n
        invariant
            k == v@.len(),
            k <= n,
            forall|i: int| 0 <= i < k ==> v@[i] == 0u8,
        decreases n - k,
    {
        v.push(0);
        k = k + 1;
    }
    proof {
        assert(v@ =~= Seq::new(n as nat, |i: int| 0u8));
    }
    v
}

/// A cartridge that holds `program` at the start of a 32 KiB program-ROM
/// bank, padded with zeroes, with zeroed graphics ROM. The reset vector
/// inside such an image reads as 0, so a reset starts execution at
/// address 0. Standalone test programs are loaded through this form.
pub fn test_rom(program: Vec<u8>) -> (r: Rom)
    requires
        program@.len() <= 0x8000,
    ensures
        r.wf(),
        r.prg_rom@.len() == 0x8000,
        forall|i: int| 0 <= i < program@.len() ==> r.prg_rom@[i] == program@[i],
        forall|i: int| program@.len() <= i < 0x8000 ==> r.prg_rom@[i] == 0u8,
        r.chr_rom@ == Seq::new(0x2000, |i: int| 0u8),
        r.screen_mirroring == Mirroring::Vertical,
{
    let ghost orig = program@;
    let mut prg = program;
    while prg.len() < 0x8000
        invariant
            orig.len() <= prg@.len() <= 0x8000,
            forall|i: int| 0 <= i < orig.len() ==> prg@[i] == orig[i],
            forall|i: int| orig.len() <= i < prg@.len() ==> prg@[i] == 0u8,
        decreases 0x8000 - prg@.len(),
    {
        prg.push(0);
    }
    Rom { prg_rom: prg, chr_rom: zero_vec(0x2000), screen_mirroring: Mirroring::Vertical }
}

} // verus!
