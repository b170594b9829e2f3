//! The picture unit's register block, as seen from the memory bus: eight
//! named register operations, the name-table memory with its mirroring,
//! the palette table and the object-attribute memory.
//!
//! Rendering and scanline timing are outside the core; this module gives
//! the read/write semantics of the mapped registers and nothing more.

use vstd::prelude::*;
use crate::cartridge::Mirroring;
use crate::cartridge::zero_vec;
use crate::fault::Fault;
use crate::ppu::addr::AddrRegister;
use crate::ppu::addr::AddrV;
use crate::ppu::addr::addr_increment;
use crate::ppu::addr::addr_update;
use crate::ppu::addr::addr_value;
use crate::ppu::addr::addr_wf;
use crate::ppu::control::ControlRegister;
use crate::ppu::control::ctrl_vram_increment;
use crate::ppu::mask::MaskRegister;

pub mod addr;
pub mod control;
pub mod mask;

verus! {

/// The abstract state of the picture unit.
#[verifier::ext_equal]
pub ghost struct PpuV {
    /// Graphics ROM, 8 KiB.
    pub chr: Seq<u8>,
    /// Palette table, 32 bytes.
    pub palette: Seq<u8>,
    /// Name-table memory, 2 KiB.
    pub vram: Seq<u8>,
    /// Object-attribute memory, 256 bytes.
    pub oam: Seq<u8>,
    pub mirroring: Mirroring,
    pub ctrl: u8,
    pub mask: u8,
    pub status: u8,
    pub oam_addr: u8,
    pub scroll_x: u8,
    pub scroll_y: u8,
    /// True when the next scroll write fills the Y byte.
    pub scroll_latch: bool,
    pub addr: AddrV,
    /// The data port's internal read buffer.
    pub buf: u8,
    pub nmi: Option<u8>,
    pub cycles: u64,
}

/// The size invariants of the picture unit's memories, and the address
/// register's window bound.
pub open spec fn ppu_wf(p: PpuV) -> bool {
    &&& p.chr.len() == 0x2000
    &&& p.palette.len() == 32
    &&& p.vram.len() == 0x800
    &&& p.oam.len() == 256
    &&& addr_wf(p.addr)
}

/// Where a name-table address in [0x2000, 0x2FFF] lands in the 2 KiB
/// name-table memory, by mirroring mode. Four-screen addresses in the
/// third and fourth table fall outside the memory; the caller rejects
/// the out-of-range index.
pub open spec fn spec_mirror_vram(m: Mirroring, address: u16) -> u16 {
    let mirrored = address & 0xBFFF;
    let idx = (mirrored - 0x2000) as u16;
    let nt = idx / 0x400;
    if m == Mirroring::Vertical && (nt == 2 || nt == 3) {
        (idx - 0x800) as u16
    } else if m == Mirroring::Horizontal && (nt == 1 || nt == 2) {
        (idx - 0x400) as u16
    } else if m == Mirroring::Horizontal && nt == 3 {
        (idx - 0x800) as u16
    } else {
        idx
    }
}

/// A read of the data port: the address register advances first, by the
/// control register's step; graphics-ROM and name-table reads go through
/// the one-byte buffer and return the byte of the access before;
/// palette reads are direct. The unused range [0x3000, 0x3EFF] and
/// indices past the end of a memory are fatal.
pub open spec fn spec_ppu_read_data(p: PpuV) -> (PpuV, Result<u8, Fault>) {
    let a = addr_value(p.addr);
    let stepped = PpuV { addr: addr_increment(p.addr, ctrl_vram_increment(p.ctrl)), ..p };
    if a <= 0x1FFF {
        (PpuV { buf: p.chr[a as int], ..stepped }, Ok(p.buf))
    } else if a <= 0x2FFF {
        let idx = spec_mirror_vram(p.mirroring, a);
        if idx < 0x800 {
            (PpuV { buf: p.vram[idx as int], ..stepped }, Ok(p.buf))
        } else {
            (stepped, Err(Fault::PpuVram { addr: a }))
        }
    } else if a == 0x3F10 || a == 0x3F14 || a == 0x3F18 || a == 0x3F1C {
        (stepped, Ok(p.palette[a - 0x3F10]))
    } else if a <= 0x3EFF {
        (stepped, Err(Fault::PpuUnmapped { addr: a }))
    } else if a - 0x3F00 < 32 {
        (stepped, Ok(p.palette[a - 0x3F00]))
    } else {
        (stepped, Err(Fault::PpuPalette { addr: a }))
    }
}

/// A write of the data port: the byte lands in the name-table memory or
/// the palette; a write aimed at graphics ROM is ignored. On success the
/// address register advances; a fatal access leaves it in place.
pub open spec fn spec_ppu_write_data(p: PpuV, data: u8) -> (PpuV, Result<(), Fault>) {
    let a = addr_value(p.addr);
    let next = addr_increment(p.addr, ctrl_vram_increment(p.ctrl));
    if a <= 0x1FFF {
        (PpuV { addr: next, ..p }, Ok(()))
    } else if a <= 0x2FFF {
        let idx = spec_mirror_vram(p.mirroring, a);
        if idx < 0x800 {
            (PpuV { vram: p.vram.update(idx as int, data), addr: next, ..p }, Ok(()))
        } else {
            (p, Err(Fault::PpuVram { addr: a }))
        }
    } else if a == 0x3F10 || a == 0x3F14 || a == 0x3F18 || a == 0x3F1C {
        (PpuV { palette: p.palette.update(a - 0x3F10, data), addr: next, ..p }, Ok(()))
    } else if a <= 0x3EFF {
        (p, Err(Fault::PpuUnmapped { addr: a }))
    } else if a - 0x3F00 < 32 {
        (PpuV { palette: p.palette.update(a - 0x3F00, data), addr: next, ..p }, Ok(()))
    } else {
        (p, Err(Fault::PpuPalette { addr: a }))
    }
}

/// A read of the status register: it returns the byte as it stood,
/// clears the vertical-blank bit and puts both write latches back on
/// their first byte.
pub open spec fn spec_ppu_read_status(p: PpuV) -> (PpuV, u8) {
    (
        PpuV {
            status: p.status & 0x7F,
            addr: AddrV { hi_ptr: true, ..p.addr },
            scroll_latch: false,
            ..p
        },
        p.status,
    )
}

/// A write of the object-attribute data register: the byte lands at the
/// current object-attribute address, which then advances, wrapping.
pub open spec fn spec_ppu_write_oam(p: PpuV, data: u8) -> PpuV {
    PpuV {
        oam: p.oam.update(p.oam_addr as int, data),
        oam_addr: p.oam_addr.wrapping_add(1),
        ..p
    }
}

/// A write of the scroll register: the first write sets the X scroll,
/// the second the Y scroll.
pub open spec fn spec_ppu_write_scroll(p: PpuV, data: u8) -> PpuV {
    if !p.scroll_latch {
        PpuV { scroll_x: data, scroll_latch: true, ..p }
    } else {
        PpuV { scroll_y: data, scroll_latch: false, ..p }
    }
}

/// The picture unit right after power-on: cleared registers and
/// memories over the given graphics ROM.
pub open spec fn ppu_power_on(chr: Seq<u8>, mirroring: Mirroring) -> PpuV {
    PpuV {
        chr: chr,
        palette: Seq::new(32, |i: int| 0u8),
        vram: Seq::new(0x800, |i: int| 0u8),
        oam: Seq::new(256, |i: int| 0u8),
        mirroring: mirroring,
        ctrl: 0,
        mask: 0,
        status: 0,
        oam_addr: 0,
        scroll_x: 0,
        scroll_y: 0,
        scroll_latch: false,
        addr: AddrV { hi: 0, lo: 0, hi_ptr: true },
        buf: 0,
        nmi: None,
        cycles: 0,
    }
}

/// The picture unit's register block and memories.
pub struct NesPPU {
    pub chr_rom: Vec<u8>,
    pub palette_table: Vec<u8>,
    pub vram: Vec<u8>,
    pub oam_data: Vec<u8>,
    pub mirroring: Mirroring,
    pub ctrl: ControlRegister,
    pub mask: MaskRegister,
    pub status: u8,
    pub oam_addr: u8,
    pub scroll_x: u8,
    pub scroll_y: u8,
    pub scroll_latch: bool,
    pub addr: AddrRegister,
    pub nmi_interrupt: Option<u8>,
    pub cycles: u64,
    internal_data_buf: u8,
}

impl View for NesPPU {
    type V = PpuV;

    closed spec fn view(&self) -> PpuV {
        PpuV {
            chr: self.chr_rom@,
            palette: self.palette_table@,
            vram: self.vram@,
            oam: self.oam_data@,
            mirroring: self.mirroring,
            ctrl: self.ctrl@,
            mask: self.mask@,
            status: self.status,
            oam_addr: self.oam_addr,
            scroll_x: self.scroll_x,
            scroll_y: self.scroll_y,
            scroll_latch: self.scroll_latch,
            addr: self.addr@,
            buf: self.internal_data_buf,
            nmi: self.nmi_interrupt,
            cycles: self.cycles,
        }
    }
}

/// The register operations the memory bus routes to the picture unit's
/// control, address and data registers.
pub trait PPU {
    /// The abstract state of the picture unit.
    spec fn ppu_state(&self) -> PpuV;

    /// Stores a byte written to the mapped control register.
    fn write_to_ctrl(&mut self, value: u8)
        ensures
            final(self).ppu_state() == (PpuV { ctrl: value, ..old(self).ppu_state() }),
    ;

    /// Takes one byte of the two-byte data-port address.
    fn write_to_ppu_addr(&mut self, value: u8)
        ensures
            final(self).ppu_state() == (PpuV {
                addr: addr_update(old(self).ppu_state().addr, value),
                ..old(self).ppu_state()
            }),
    ;

    /// Reads the data port, as `spec_ppu_read_data` says.
    fn read_data(&mut self) -> (r: Result<u8, Fault>)
        requires
            ppu_wf(old(self).ppu_state()),
        ensures
            ppu_wf(final(self).ppu_state()),
            final(self).ppu_state() == spec_ppu_read_data(old(self).ppu_state()).0,
            r == spec_ppu_read_data(old(self).ppu_state()).1,
    ;
}

impl NesPPU {
    /// A freshly powered picture unit over the given graphics ROM.
    pub fn new(chr_rom: Vec<u8>, mirroring: Mirroring) -> (r: Self)
        requires
            chr_rom@.len() == 0x2000,
        ensures
            ppu_wf(r@),
            r@ == ppu_power_on(chr_rom@, mirroring),
    {
        NesPPU {
            chr_rom,
            palette_table: zero_vec(32),
            vram: zero_vec(0x800),
            oam_data: zero_vec(256),
            mirroring,
            ctrl: ControlRegister::new(),
            mask: MaskRegister::new(),
            status: 0,
            oam_addr: 0,
            scroll_x: 0,
            scroll_y: 0,
            scroll_latch: false,
            addr: AddrRegister::new(),
            nmi_interrupt: None,
            cycles: 0,
            internal_data_buf: 0,
        }
    }

    /// Maps a name-table address into the 2 KiB name-table memory under
    /// the current mirroring mode.
    pub fn mirror_vram_addr(&self, address: u16) -> (r: u16)
        requires
            0x2000 <= address <= 0x3FFF,
        ensures
            r == spec_mirror_vram(self@.mirroring, address),
    {
        let mirrored = address & 0xBFFF;
        proof {
            assert(address & 0xBFFF == address) by (bit_vector)
                requires 0x2000 <= address <= 0x3FFF;
        }
        let idx = mirrored - 0x2000;
        let nt = idx / 0x400;
        match self.mirroring {
            Mirroring::Vertical => {
                if nt == 2 || nt == 3 {
                    idx - 0x800
                } else {
                    idx
                }
            },
            Mirroring::Horizontal => {
                if nt == 1 || nt == 2 {
                    idx - 0x400
                } else if nt == 3 {
                    idx - 0x800
                } else {
                    idx
                }
            },
            Mirroring::FourScreen => idx,
        }
    }

    fn increment_vram_addr(&mut self)
        ensures
            final(self)@ == (PpuV {
                addr: addr_increment(old(self)@.addr, ctrl_vram_increment(old(self)@.ctrl)),
                ..old(self)@
            }),
            addr_wf(final(self)@.addr),
    {
        let inc = self.ctrl.vram_addr_increment();
        self.addr.increment(inc);
    }

    /// Stores a byte written to the mapped mask register.
    pub fn write_to_mask(&mut self, value: u8)
        ensures
            final(self)@ == (PpuV { mask: value, ..old(self)@ }),
    {
        self.mask.update(value);
    }

    /// Reads the status register, as `spec_ppu_read_status` says.
    pub fn read_status(&mut self) -> (r: u8)
        ensures
            final(self)@ == spec_ppu_read_status(old(self)@).0,
            r == spec_ppu_read_status(old(self)@).1,
    {
        let result = self.status;
        self.status = self.status & 0x7F;
        self.addr.reset_latch();
        self.scroll_latch = false;
        result
    }

    /// Stores the object-attribute address.
    pub fn write_to_oam_addr(&mut self, value: u8)
        ensures
            final(self)@ == (PpuV { oam_addr: value, ..old(self)@ }),
    {
        self.oam_addr = value;
    }

    /// Writes the object-attribute data register, as
    /// `spec_ppu_write_oam` says.
    pub fn write_to_oam_data(&mut self, value: u8)
        requires
            ppu_wf(old(self)@),
        ensures
            ppu_wf(final(self)@),
            final(self)@ == spec_ppu_write_oam(old(self)@, value),
    {
        self.oam_data.set(self.oam_addr as usize, value);
        self.oam_addr = self.oam_addr.wrapping_add(1);
    }

    /// Reads the object-attribute data register: the byte at the current
    /// object-attribute address, which does not advance on reads.
    pub fn read_oam_data(&self) -> (r: u8)
        requires
            ppu_wf(self@),
        ensures
            r == self@.oam[self@.oam_addr as int],
    {
        self.oam_data[self.oam_addr as usize]
    }

    /// Writes the scroll register, as `spec_ppu_write_scroll` says.
    pub fn write_to_scroll(&mut self, value: u8)
        ensures
            final(self)@ == spec_ppu_write_scroll(old(self)@, value),
    {
        if !self.scroll_latch {
            self.scroll_x = value;
            self.scroll_latch = true;
        } else {
            self.scroll_y = value;
            self.scroll_latch = false;
        }
    }

    /// Writes the data port, as `spec_ppu_write_data` says.
    pub fn write_to_data(&mut self, value: u8) -> (r: Result<(), Fault>)
        requires
            ppu_wf(old(self)@),
        ensures
            ppu_wf(final(self)@),
            final(self)@ == spec_ppu_write_data(old(self)@, value).0,
            r == spec_ppu_write_data(old(self)@, value).1,
    {
        let a = self.addr.get();
        if a <= 0x1FFF {
            // Graphics ROM is not writable through the data port; the
            // byte is dropped.
            self.increment_vram_addr();
            Ok(())
        } else if a <= 0x2FFF {
            let idx = self.mirror_vram_addr(a);
            if idx < 0x800 {
                self.vram.set(idx as usize, value);
                self.increment_vram_addr();
                Ok(())
            } else {
                Err(Fault::PpuVram { addr: a })
            }
        } else if a == 0x3F10 || a == 0x3F14 || a == 0x3F18 || a == 0x3F1C {
            self.palette_table.set((a - 0x3F10) as usize, value);
            self.increment_vram_addr();
            Ok(())
        } else if a <= 0x3EFF {
            Err(Fault::PpuUnmapped { addr: a })
        } else if a - 0x3F00 < 32 {
            self.palette_table.set((a - 0x3F00) as usize, value);
            self.increment_vram_addr();
            Ok(())
        } else {
            Err(Fault::PpuPalette { addr: a })
        }
    }

    /// Hands out the pending interrupt, clearing it.
    pub fn take_nmi(&mut self) -> (r: Option<u8>)
        ensures
            r == old(self)@.nmi,
            final(self)@ == (PpuV { nmi: None, ..old(self)@ }),
    {
        let r = self.nmi_interrupt;
        self.nmi_interrupt = None;
        r
    }

    /// Advances the picture unit's cycle counter.
    pub fn tick(&mut self, cycles: u8)
        ensures
            final(self)@ == (PpuV {
                cycles: old(self)@.cycles.wrapping_add(cycles as u64),
                ..old(self)@
            }),
    {
        self.cycles = self.cycles.wrapping_add(cycles as u64);
    }
}

impl PPU for NesPPU {
    open spec fn ppu_state(&self) -> PpuV {
        self@
    }

    fn write_to_ctrl(&mut self, value: u8) {
        self.ctrl.update(value);
    }

    fn write_to_ppu_addr(&mut self, value: u8) {
        self.addr.update(value);
    }

    fn read_data(&mut self) -> (r: Result<u8, Fault>) {
        let a = self.addr.get();
        self.increment_vram_addr();
        if a <= 0x1FFF {
            let result = self.internal_data_buf;
            self.internal_data_buf = self.chr_rom[a as usize];
            Ok(result)
        } else if a <= 0x2FFF {
            let idx = self.mirror_vram_addr(a);
            if idx < 0x800 {
                let result = self.internal_data_buf;
                self.internal_data_buf = self.vram[idx as usize];
                Ok(result)
            } else {
                Err(Fault::PpuVram { addr: a })
            }
        } else if a == 0x3F10 || a == 0x3F14 || a == 0x3F18 || a == 0x3F1C {
            Ok(self.palette_table[(a - 0x3F10) as usize])
        } else if a <= 0x3EFF {
            Err(Fault::PpuUnmapped { addr: a })
        } else if a - 0x3F00 < 32 {
            Ok(self.palette_table[(a - 0x3F00) as usize])
        } else {
            Err(Fault::PpuPalette { addr: a })
        }
    }
}

} // verus!
