//! The fatal error conditions of the machine.
//!
//! Emulated programs are assumed well-formed: each of these conditions
//! aborts the run at once, with no partial-state continuation. Reads and
//! writes of unmapped addresses are not here — they are soft, return 0
//! for reads, and leave the machine unchanged.

use vstd::prelude::*;

verus! {

/// A fatal condition that aborts the run.
#[derive(Clone, Copy, Debug, PartialEq, Eq, Structural)]
pub enum Fault {
    /// A read of a write-only picture-unit register. The payload is the
    /// canonical (mirrored-down) register address.
    ReadWriteOnly { addr: u16 },
    /// A write to the read-only picture-unit status register.
    WriteToStatus,
    /// A write into cartridge ROM space.
    WriteToRom { addr: u16 },
    /// An address-resolution request for the `NoneAddressing` mode, which
    /// has no operand address.
    NoneAddressing,
    /// A data-port access inside the unused range 0x3000..=0x3EFF.
    PpuUnmapped { addr: u16 },
    /// A data-port access past the end of the palette table.
    PpuPalette { addr: u16 },
    /// A data-port access past the end of the name-table memory.
    PpuVram { addr: u16 },
    /// A bounded run used up its step budget before the program halted.
    StepLimit,
}

} // verus!
