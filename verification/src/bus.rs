//! The memory bus: the address-space router that owns the 2 KiB RAM with
//! its mirrors, maps the cartridge's program ROM into the high window,
//! and routes the picture-unit register window to the picture unit.
//!
//! The map is a pure function of the 16-bit address:
//! - 0x0000..=0x1FFF: RAM, mirrored four times by masking to 11 bits;
//! - 0x2000..=0x3FFF: the eight picture-unit registers, mirrored every
//!   8 bytes; reading a write-only register or writing the status
//!   register is fatal;
//! - 0x8000..=0xFFFF: program ROM; a 16 KiB image is mirrored into the
//!   upper half; writes here are fatal;
//! - anything else: unmapped — reads give 0, writes are dropped, and the
//!   machine is left unchanged.

use vstd::prelude::*;
use crate::cartridge::Rom;
use crate::cartridge::zero_vec;
use crate::fault::Fault;
use crate::ppu::NesPPU;
use crate::ppu::PPU;
use crate::ppu::PpuV;
use crate::ppu::ppu_power_on;
use crate::ppu::ppu_wf;
use crate::ppu::spec_ppu_read_data;
use crate::ppu::spec_ppu_read_status;
use crate::ppu::spec_ppu_write_data;
use crate::ppu::spec_ppu_write_oam;
use crate::ppu::spec_ppu_write_scroll;
use crate::ppu::addr::addr_update;

verus! {

/// The abstract state of the memory bus.
#[verifier::ext_equal]
pub ghost struct BusV {
    /// The 2 KiB of RAM behind the mirrored low window.
    pub ram: Seq<u8>,
    /// The cartridge's program ROM, 16 or 32 KiB.
    pub prg: Seq<u8>,
    pub ppu: PpuV,
    pub cycles: u64,
}

/// The size invariants of the bus.
pub open spec fn bus_wf(b: BusV) -> bool {
    &&& b.ram.len() == 0x800
    &&& (b.prg.len() == 0x4000 || b.prg.len() == 0x8000)
    &&& ppu_wf(b.ppu)
}

/// The program-ROM byte behind an address in [0x8000, 0xFFFF]: a 16 KiB
/// image is mirrored across the 32 KiB window.
pub open spec fn spec_prg_read(b: BusV, address: u16) -> u8 {
    let offset = (address - 0x8000) as u16;
    if b.prg.len() == 0x4000 && offset >= 0x4000 {
        b.prg[(offset % 0x4000) as int]
    } else {
        b.prg[offset as int]
    }
}

/// One byte read through the bus: the new bus state and the byte, or the
/// fault. Only picture-unit register reads change the state.
pub open spec fn spec_bus_read(b: BusV, address: u16) -> (BusV, Result<u8, Fault>) {
    if address <= 0x1FFF {
        (b, Ok(b.ram[(address & 0x7FF) as int]))
    } else if address <= 0x3FFF {
        let reg = address & 0x2007;
        if reg == 0x2002 {
            let (p, status) = spec_ppu_read_status(b.ppu);
            (BusV { ppu: p, ..b }, Ok(status))
        } else if reg == 0x2004 {
            (b, Ok(b.ppu.oam[b.ppu.oam_addr as int]))
        } else if reg == 0x2007 {
            let (p, r) = spec_ppu_read_data(b.ppu);
            (BusV { ppu: p, ..b }, r)
        } else {
            (b, Err(Fault::ReadWriteOnly { addr: reg }))
        }
    } else if address == 0x4014 {
        (b, Err(Fault::ReadWriteOnly { addr: 0x4014 }))
    } else if address >= 0x8000 {
        (b, Ok(spec_prg_read(b, address)))
    } else {
        (b, Ok(0))
    }
}

/// One byte written through the bus: the new bus state, or the fault.
pub open spec fn spec_bus_write(b: BusV, address: u16, data: u8) -> (BusV, Result<(), Fault>) {
    if address <= 0x1FFF {
        (BusV { ram: b.ram.update((address & 0x7FF) as int, data), ..b }, Ok(()))
    } else if address <= 0x3FFF {
        let reg = address & 0x2007;
        if reg == 0x2000 {
            (BusV { ppu: PpuV { ctrl: data, ..b.ppu }, ..b }, Ok(()))
        } else if reg == 0x2001 {
            (BusV { ppu: PpuV { mask: data, ..b.ppu }, ..b }, Ok(()))
        } else if reg == 0x2002 {
            (b, Err(Fault::WriteToStatus))
        } else if reg == 0x2003 {
            (BusV { ppu: PpuV { oam_addr: data, ..b.ppu }, ..b }, Ok(()))
        } else if reg == 0x2004 {
            (BusV { ppu: spec_ppu_write_oam(b.ppu, data), ..b }, Ok(()))
        } else if reg == 0x2005 {
            (BusV { ppu: spec_ppu_write_scroll(b.ppu, data), ..b }, Ok(()))
        } else if reg == 0x2006 {
            (BusV { ppu: PpuV { addr: addr_update(b.ppu.addr, data), ..b.ppu }, ..b }, Ok(()))
        } else {
            let (p, r) = spec_ppu_write_data(b.ppu, data);
            (BusV { ppu: p, ..b }, r)
        }
    } else if address >= 0x8000 {
        (b, Err(Fault::WriteToRom { addr: address }))
    } else {
        (b, Ok(()))
    }
}

/// A two-byte little-endian read: the low byte at `address`, the high
/// byte one above it, the address wrapping at the top of the space.
pub open spec fn spec_bus_read16(b: BusV, address: u16) -> (BusV, Result<u16, Fault>) {
    let (b1, r1) = spec_bus_read(b, address);
    match r1 {
        Err(f) => (b1, Err(f)),
        Ok(lo) => {
            let (b2, r2) = spec_bus_read(b1, address.wrapping_add(1));
            match r2 {
                Err(f) => (b2, Err(f)),
                Ok(hi) => (b2, Ok(((hi as u16) << 8) | (lo as u16))),
            }
        },
    }
}

/// A two-byte little-endian write: the low byte at `address`, the high
/// byte one above it, the address wrapping at the top of the space.
pub open spec fn spec_bus_write16(b: BusV, address: u16, data: u16) -> (BusV, Result<(), Fault>) {
    let (b1, r1) = spec_bus_write(b, address, (data & 0xFF) as u8);
    match r1 {
        Err(f) => (b1, Err(f)),
        Ok(()) => spec_bus_write(b1, address.wrapping_add(1), (data >> 8) as u8),
    }
}

/// Byte-addressed access to the machine's address space, little-endian
/// for the two-byte forms.
pub trait Mem {
    /// The abstract state of the address space behind this accessor.
    spec fn mem_state(&self) -> BusV;

    /// Reads one byte, as `spec_bus_read` says.
    fn mem_read(&mut self, address: u16) -> (r: Result<u8, Fault>)
        requires
            bus_wf(old(self).mem_state()),
        ensures
            bus_wf(final(self).mem_state()),
            final(self).mem_state() == spec_bus_read(old(self).mem_state(), address).0,
            r == spec_bus_read(old(self).mem_state(), address).1,
    ;

    /// Writes one byte, as `spec_bus_write` says.
    fn mem_write(&mut self, address: u16, data: u8) -> (r: Result<(), Fault>)
        requires
            bus_wf(old(self).mem_state()),
        ensures
            bus_wf(final(self).mem_state()),
            final(self).mem_state() == spec_bus_write(old(self).mem_state(), address, data).0,
            r == spec_bus_write(old(self).mem_state(), address, data).1,
    ;

    /// Reads a two-byte little-endian value, as `spec_bus_read16` says.
    fn mem_read_u16(&mut self, address: u16) -> (r: Result<u16, Fault>)
        requires
            bus_wf(old(self).mem_state()),
        ensures
            bus_wf(final(self).mem_state()),
            final(self).mem_state() == spec_bus_read16(old(self).mem_state(), address).0,
            r == spec_bus_read16(old(self).mem_state(), address).1,
    ;

    /// Writes a two-byte little-endian value, as `spec_bus_write16` says.
    fn mem_write_u16(&mut self, address: u16, data: u16) -> (r: Result<(), Fault>)
        requires
            bus_wf(old(self).mem_state()),
        ensures
            bus_wf(final(self).mem_state()),
            final(self).mem_state() == spec_bus_write16(old(self).mem_state(), address, data).0,
            r == spec_bus_write16(old(self).mem_state(), address, data).1,
    ;
}

/// The memory bus of one machine.
pub struct Bus {
    cpu_vram: Vec<u8>,
    prg_rom: Vec<u8>,
    ppu: NesPPU,
    cycles: u64,
}

impl View for Bus {
    type V = BusV;

    closed spec fn view(&self) -> BusV {
        BusV { ram: self.cpu_vram@, prg: self.prg_rom@, ppu: self.ppu@, cycles: self.cycles }
    }
}

/// The bus state right after power-on over a cartridge image.
pub open spec fn bus_power_on(rom: Rom) -> BusV {
    BusV {
        ram: Seq::new(0x800, |i: int| 0u8),
        prg: rom.prg_rom@,
        ppu: ppu_power_on(rom.chr_rom@, rom.screen_mirroring),
        cycles: 0,
    }
}

impl Bus {
    /// A bus over a cartridge image, with cleared RAM and a freshly
    /// powered picture unit owning the graphics ROM.
    pub fn new(rom: Rom) -> (r: Self)
        requires
            rom.wf(),
        ensures
            bus_wf(r@),
            r@ == bus_power_on(rom),
    {
        let ppu = NesPPU::new(rom.chr_rom, rom.screen_mirroring);
        Bus { cpu_vram: zero_vec(0x800), prg_rom: rom.prg_rom, ppu, cycles: 0 }
    }

    /// The program-ROM byte behind an address in the high window.
    pub(crate) fn read_prg_rom(&self, address: u16) -> (r: u8)
        requires
            bus_wf(self@),
            0x8000 <= address,
        ensures
            r == spec_prg_read(self@, address),
    {
        let mut offset = address - 0x8000;
        if self.prg_rom.len() == 0x4000 && offset >= 0x4000 {
            offset = offset % 0x4000;
        }
        self.prg_rom[offset as usize]
    }

    /// Accounts the cycles one instruction took; the picture unit's
    /// clock runs three times as fast, so the count is capped where the
    /// tripled value still fits its byte.
    pub fn tick(&mut self, cycles: u8)
        requires
            cycles <= 85,
        ensures
            final(self)@ == (BusV {
                cycles: old(self)@.cycles.wrapping_add(cycles as u64),
                ppu: PpuV {
                    cycles: old(self)@.ppu.cycles.wrapping_add((cycles * 3) as u64),
                    ..old(self)@.ppu
                },
                ..old(self)@
            }),
    {
        self.cycles = self.cycles.wrapping_add(cycles as u64);
        self.ppu.tick(cycles * 3);
    }

    /// Hands out the pending interrupt from the picture unit, clearing
    /// it.
    pub fn poll_nmi_status(&mut self) -> (r: Option<u8>)
        ensures
            r == old(self)@.ppu.nmi,
            final(self)@ == (BusV { ppu: PpuV { nmi: None, ..old(self)@.ppu }, ..old(self)@ }),
    {
        self.ppu.take_nmi()
    }
}

/// No bus access ever faults with the step-budget marker: that fault
/// belongs to the run loops alone.
pub proof fn lemma_bus_read_no_step_limit(b: BusV, address: u16)
    ensures
        spec_bus_read(b, address).1 != Err::<u8, Fault>(Fault::StepLimit),
{
}

/// As `lemma_bus_read_no_step_limit`, for writes.
pub proof fn lemma_bus_write_no_step_limit(b: BusV, address: u16, data: u8)
    ensures
        spec_bus_write(b, address, data).1 != Err::<(), Fault>(Fault::StepLimit),
{
}

/// As `lemma_bus_read_no_step_limit`, for two-byte reads.
pub proof fn lemma_bus_read16_no_step_limit(b: BusV, address: u16)
    ensures
        spec_bus_read16(b, address).1 != Err::<u16, Fault>(Fault::StepLimit),
{
    lemma_bus_read_no_step_limit(b, address);
    lemma_bus_read_no_step_limit(spec_bus_read(b, address).0, address.wrapping_add(1));
}

proof fn lemma_ram_mask(address: u16)
    ensures
        address & 0x7FF < 0x800,
{
    assert(address & 0x7FF < 0x800) by (bit_vector);
}

impl Mem for Bus {
    open spec fn mem_state(&self) -> BusV {
        self@
    }

    fn mem_read(&mut self, address: u16) -> (r: Result<u8, Fault>) {
        if address <= 0x1FFF {
            proof {
                lemma_ram_mask(address);
            }
            Ok(self.cpu_vram[(address & 0x7FF) as usize])
        } else if address <= 0x3FFF {
            let reg = address & 0x2007;
            if reg == 0x2002 {
                Ok(self.ppu.read_status())
            } else if reg == 0x2004 {
                Ok(self.ppu.read_oam_data())
            } else if reg == 0x2007 {
                self.ppu.read_data()
            } else {
                Err(Fault::ReadWriteOnly { addr: reg })
            }
        } else if address == 0x4014 {
            Err(Fault::ReadWriteOnly { addr: 0x4014 })
        } else if address >= 0x8000 {
            Ok(self.read_prg_rom(address))
        } else {
            // Unmapped: a soft read, logged as ignored by the embedding
            // program if it cares; the bus hands back 0.
            Ok(0)
        }
    }

    fn mem_write(&mut self, address: u16, data: u8) -> (r: Result<(), Fault>) {
        if address <= 0x1FFF {
            proof {
                lemma_ram_mask(address);
            }
            self.cpu_vram.set((address & 0x7FF) as usize, data);
            Ok(())
        } else if address <= 0x3FFF {
            let reg = address & 0x2007;
            if reg == 0x2000 {
                self.ppu.write_to_ctrl(data);
                Ok(())
            } else if reg == 0x2001 {
                self.ppu.write_to_mask(data);
                Ok(())
            } else if reg == 0x2002 {
                Err(Fault::WriteToStatus)
            } else if reg == 0x2003 {
                self.ppu.write_to_oam_addr(data);
                Ok(())
            } else if reg == 0x2004 {
                self.ppu.write_to_oam_data(data);
                Ok(())
            } else if reg == 0x2005 {
                self.ppu.write_to_scroll(data);
                Ok(())
            } else if reg == 0x2006 {
                proof {
                    crate::ppu::addr::lemma_addr_update_wf(self@.ppu.addr, data);
                }
                self.ppu.write_to_ppu_addr(data);
                Ok(())
            } else {
                self.ppu.write_to_data(data)
            }
        } else if address >= 0x8000 {
            Err(Fault::WriteToRom { addr: address })
        } else {
            // Unmapped: a soft write, dropped.
            Ok(())
        }
    }

    fn mem_read_u16(&mut self, address: u16) -> (r: Result<u16, Fault>) {
        let lo = self.mem_read(address)?;
        let hi = self.mem_read(address.wrapping_add(1))?;
        Ok(((hi as u16) << 8) | (lo as u16))
    }

    fn mem_write_u16(&mut self, address: u16, data: u16) -> (r: Result<(), Fault>) {
        self.mem_write(address, (data & 0xFF) as u8)?;
        self.mem_write(address.wrapping_add(1), (data >> 8) as u8)?;
        Ok(())
    }
}

} // verus!
