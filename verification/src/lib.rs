//! Emulator core for the 6502-family processor used in the NES.
//!
//! The crate models the processor registers and status flags, the opcode
//! table (official and undocumented instructions), the addressing-mode
//! resolver, the memory bus with its RAM mirrors, cartridge ROM window and
//! picture-unit register block, and the fetch-decode-execute engine.
//!
//! Every state transition of the machine is specified by a mathematical
//! model: `spec_step` in the `cpu` module gives the meaning of one
//! instruction, and the execution engine is proved to follow it exactly.

pub mod bus;
pub mod cartridge;
pub mod cpu;
pub mod fault;
pub mod flags;
pub mod laws;
pub mod opcodes;
pub mod ppu;
pub mod render;

pub use flags::CpuFlags;
