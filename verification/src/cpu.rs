//! The processor: registers, status flags, stack, addressing-mode
//! resolution, and the helpers every instruction family is built from.
//!
//! The abstract state is `CpuV`; every mutating operation's contract
//! names the exact new state, as a spec function of the old one. The
//! fetch-decode-execute engine itself is in the `engine` module, the
//! per-instruction effects in the `instructions` module.

use vstd::prelude::*;
use crate::bus::Bus;
use crate::bus::BusV;
use crate::bus::Mem;
use crate::bus::bus_wf;
use crate::bus::spec_bus_read;
use crate::bus::spec_bus_read16;
use crate::bus::spec_prg_read;
use crate::fault::Fault;
use crate::flags::CpuFlags;
use crate::flags::FLAG_CARRY;
use crate::flags::FLAG_OVERFLOW;
use crate::flags::zn_update;
use crate::opcodes::AddressingMode;

pub mod engine;
pub mod instructions;

verus! {

/// The base of the 256-byte stack window inside RAM.
pub const STACK: u16 = 0x0100;

/// The stack pointer's power-on and reset value.
pub const STACK_RESET: u8 = 0xFD;

/// The abstract state of the processor, bus included.
#[verifier::ext_equal]
pub ghost struct CpuV {
    pub a: u8,
    pub x: u8,
    pub y: u8,
    pub status: u8,
    pub pc: u16,
    pub sp: u8,
    pub bus: BusV,
}

/// The machine's size invariants; the registers themselves can hold any
/// value of their width.
pub open spec fn cpu_wf(c: CpuV) -> bool {
    bus_wf(c.bus)
}

/// Where the stack byte for stack pointer `sp` lives in RAM.
pub open spec fn stack_index(sp: u8) -> int {
    0x100 + sp
}

/// The state after a one-byte push: the byte lands in the stack window
/// and the stack pointer steps down, wrapping modulo 256.
pub open spec fn spec_push(c: CpuV, data: u8) -> CpuV {
    CpuV {
        bus: BusV { ram: c.bus.ram.update(stack_index(c.sp), data), ..c.bus },
        sp: c.sp.wrapping_sub(1),
        ..c
    }
}

/// The state after a one-byte pop, and the byte: the stack pointer steps
/// up, wrapping modulo 256, and the byte under it is read.
pub open spec fn spec_pop(c: CpuV) -> (CpuV, u8) {
    let sp1 = c.sp.wrapping_add(1);
    (CpuV { sp: sp1, ..c }, c.bus.ram[stack_index(sp1)])
}

/// A two-byte push, high byte first, so the value reads back
/// little-endian.
pub open spec fn spec_push16(c: CpuV, data: u16) -> CpuV {
    spec_push(spec_push(c, (data >> 8) as u8), (data & 0xFF) as u8)
}

/// A two-byte pop: low byte first.
pub open spec fn spec_pop16(c: CpuV) -> (CpuV, u16) {
    let (c1, lo) = spec_pop(c);
    let (c2, hi) = spec_pop(c1);
    (c2, ((hi as u16) << 8) | (lo as u16))
}

/// The accumulator set to `value`, with the zero/negative rule applied.
pub open spec fn spec_set_a(c: CpuV, value: u8) -> CpuV {
    CpuV { a: value, status: zn_update(c.status, value), ..c }
}

/// The arithmetic core of ADC and SBC: accumulator + operand + carry-in
/// as a 9-bit sum. The result byte is the sum modulo 256; the carry
/// flag becomes the sum's ninth bit; the overflow flag follows the
/// sign-mismatch test `(operand ^ result) & (result ^ accumulator) &
/// 0x80 != 0`; the zero/negative rule applies to the result byte.
pub open spec fn spec_add_to_a(c: CpuV, data: u8) -> CpuV {
    let carry: int = if c.status & FLAG_CARRY == FLAG_CARRY {
        1
    } else {
        0
    };
    let sum: int = c.a + data + carry;
    let with_carry: u8 = if sum > 0xFF {
        c.status | FLAG_CARRY
    } else {
        c.status & !FLAG_CARRY
    };
    let result: u8 = (sum % 0x100) as u8;
    let with_overflow: u8 = if (data ^ result) & (result ^ c.a) & 0x80 != 0 {
        with_carry | FLAG_OVERFLOW
    } else {
        with_carry & !FLAG_OVERFLOW
    };
    CpuV { a: result, status: zn_update(with_overflow, result), ..c }
}

/// The effective operand address of an instruction, by addressing mode,
/// with `base` the address right after the opcode byte. Index arithmetic
/// wraps modulo 256 for zero-page forms and modulo 65536 for absolute
/// forms; resolution reads through the bus, so the bus may change (a
/// pointer in a picture-unit window) or fault. The `NoneAddressing`
/// mode has no address: asking for one is fatal.
pub open spec fn spec_resolve(c: CpuV, mode: AddressingMode, base: u16) -> (BusV, Result<
    u16,
    Fault,
>) {
    match mode {
        AddressingMode::Immediate => (c.bus, Ok(base)),
        AddressingMode::ZeroPage => {
            let (b1, r1) = spec_bus_read(c.bus, base);
            match r1 {
                Err(f) => (b1, Err(f)),
                Ok(pos) => (b1, Ok(pos as u16)),
            }
        },
        AddressingMode::Absolute => spec_bus_read16(c.bus, base),
        AddressingMode::ZeroPage_X => {
            let (b1, r1) = spec_bus_read(c.bus, base);
            match r1 {
                Err(f) => (b1, Err(f)),
                Ok(pos) => (b1, Ok(pos.wrapping_add(c.x) as u16)),
            }
        },
        AddressingMode::ZeroPage_Y => {
            let (b1, r1) = spec_bus_read(c.bus, base);
            match r1 {
                Err(f) => (b1, Err(f)),
                Ok(pos) => (b1, Ok(pos.wrapping_add(c.y) as u16)),
            }
        },
        AddressingMode::Absolute_X => {
            let (b1, r1) = spec_bus_read16(c.bus, base);
            match r1 {
                Err(f) => (b1, Err(f)),
                Ok(v) => (b1, Ok(v.wrapping_add(c.x as u16))),
            }
        },
        AddressingMode::Absolute_Y => {
            let (b1, r1) = spec_bus_read16(c.bus, base);
            match r1 {
                Err(f) => (b1, Err(f)),
                Ok(v) => (b1, Ok(v.wrapping_add(c.y as u16))),
            }
        },
        AddressingMode::Indirect_X => {
            let (b1, r1) = spec_bus_read(c.bus, base);
            match r1 {
                Err(f) => (b1, Err(f)),
                Ok(pos) => {
                    let ptr = pos.wrapping_add(c.x);
                    let (b2, r2) = spec_bus_read(b1, ptr as u16);
                    match r2 {
                        Err(f) => (b2, Err(f)),
                        Ok(lo) => {
                            let (b3, r3) = spec_bus_read(b2, ptr.wrapping_add(1) as u16);
                            match r3 {
                                Err(f) => (b3, Err(f)),
                                Ok(hi) => (b3, Ok(((hi as u16) << 8) | (lo as u16))),
                            }
                        },
                    }
                },
            }
        },
        AddressingMode::Indirect_Y => {
            let (b1, r1) = spec_bus_read(c.bus, base);
            match r1 {
                Err(f) => (b1, Err(f)),
                Ok(pos) => {
                    let (b2, r2) = spec_bus_read(b1, pos as u16);
                    match r2 {
                        Err(f) => (b2, Err(f)),
                        Ok(lo) => {
                            let (b3, r3) = spec_bus_read(b2, pos.wrapping_add(1) as u16);
                            match r3 {
                                Err(f) => (b3, Err(f)),
                                Ok(hi) => {
                                    let deref = ((hi as u16) << 8) | (lo as u16);
                                    (b3, Ok(deref.wrapping_add(c.y as u16)))
                                },
                            }
                        },
                    }
                },
            }
        },
        AddressingMode::NoneAddressing => (c.bus, Err(Fault::NoneAddressing)),
    }
}

/// Resolution of the operand address at the program counter, then the
/// read of the operand byte itself.
pub open spec fn spec_operand(c: CpuV, mode: AddressingMode) -> (BusV, Result<
    (u16, u8),
    Fault,
>) {
    let (b1, r1) = spec_resolve(c, mode, c.pc);
    match r1 {
        Err(f) => (b1, Err(f)),
        Ok(addr) => {
            let (b2, r2) = spec_bus_read(b1, addr);
            match r2 {
                Err(f) => (b2, Err(f)),
                Ok(value) => (b2, Ok((addr, value))),
            }
        },
    }
}

/// The registers after a reset: cleared, interrupt-disable and the
/// unused duplicate break bit set, the stack pointer at its reset value,
/// and the program counter loaded from the reset vector at 0xFFFC.
pub open spec fn spec_reset(c: CpuV) -> CpuV {
    CpuV {
        a: 0,
        x: 0,
        y: 0,
        sp: STACK_RESET,
        status: 0b100100,
        pc: ((spec_prg_read(c.bus, 0xFFFD) as u16) << 8) | (spec_prg_read(c.bus, 0xFFFC) as u16),
        bus: c.bus,
    }
}

/// RAM after loading a standalone program at address 0: the program
/// bytes, then the old contents.
pub open spec fn spec_load(c: CpuV, program: Seq<u8>) -> CpuV {
    CpuV {
        bus: BusV { ram: program + c.bus.ram.skip(program.len() as int), ..c.bus },
        ..c
    }
}

/// Address resolution never faults with the step-budget marker.
pub proof fn lemma_resolve_no_step_limit(c: CpuV, mode: AddressingMode, base: u16)
    ensures
        spec_resolve(c, mode, base).1 != Err::<u16, Fault>(Fault::StepLimit),
{
    assert forall|b: BusV, a: u16|
        spec_bus_read(b, a).1 != Err::<u8, Fault>(Fault::StepLimit) by {
        crate::bus::lemma_bus_read_no_step_limit(b, a);
    }
    assert forall|b: BusV, a: u16|
        spec_bus_read16(b, a).1 != Err::<u16, Fault>(Fault::StepLimit) by {
        crate::bus::lemma_bus_read16_no_step_limit(b, a);
    }
}

/// Operand fetching never faults with the step-budget marker.
pub proof fn lemma_operand_no_step_limit(c: CpuV, mode: AddressingMode)
    ensures
        spec_operand(c, mode).1 != Err::<(u16, u8), Fault>(Fault::StepLimit),
{
    lemma_resolve_no_step_limit(c, mode, c.pc);
    assert forall|b: BusV, a: u16|
        spec_bus_read(b, a).1 != Err::<u8, Fault>(Fault::StepLimit) by {
        crate::bus::lemma_bus_read_no_step_limit(b, a);
    }
}

proof fn lemma_low_mask(address: u16)
    requires
        address < 0x800,
    ensures
        address & 0x7FF == address,
{
    assert(address < 0x800 ==> address & 0x7FF == address) by (bit_vector);
}

/// The processor.
pub struct CPU {
    pub register_a: u8,
    pub register_x: u8,
    pub register_y: u8,
    pub status: CpuFlags,
    pub program_counter: u16,
    pub stack_pointer: u8,
    pub bus: Bus,
}

impl View for CPU {
    type V = CpuV;

    open spec fn view(&self) -> CpuV {
        CpuV {
            a: self.register_a,
            x: self.register_x,
            y: self.register_y,
            status: self.status@,
            pc: self.program_counter,
            sp: self.stack_pointer,
            bus: self.bus@,
        }
    }
}

impl Mem for CPU {
    open spec fn mem_state(&self) -> BusV {
        self@.bus
    }

    fn mem_read(&mut self, address: u16) -> (r: Result<u8, Fault>) {
        self.bus.mem_read(address)
    }

    fn mem_write(&mut self, address: u16, data: u8) -> (r: Result<(), Fault>) {
        self.bus.mem_write(address, data)
    }

    fn mem_read_u16(&mut self, address: u16) -> (r: Result<u16, Fault>) {
        self.bus.mem_read_u16(address)
    }

    fn mem_write_u16(&mut self, address: u16, data: u16) -> (r: Result<(), Fault>) {
        self.bus.mem_write_u16(address, data)
    }
}

impl CPU {
    /// The machine's size invariants.
    pub open spec fn wf(&self) -> bool {
        cpu_wf(self@)
    }

    /// A processor at power-on over the given bus: registers cleared,
    /// interrupt-disable and the unused duplicate break bit set, the
    /// program counter at the base of the ROM window.
    pub fn new(bus: Bus) -> (r: Self)
        ensures
            r@ == (CpuV {
                a: 0,
                x: 0,
                y: 0,
                status: 0b100100,
                pc: 0x8000,
                sp: STACK_RESET,
                bus: bus@,
            }),
    {
        CPU {
            register_a: 0,
            register_x: 0,
            register_y: 0,
            status: CpuFlags::from_bits_truncate(0b100100),
            program_counter: 0x8000,
            stack_pointer: STACK_RESET,
            bus,
        }
    }

    /// Reloads the registers to their power-on defaults and the program
    /// counter from the reset vector at 0xFFFC.
    pub fn reset(&mut self)
        requires
            old(self).wf(),
        ensures
            final(self).wf(),
            final(self)@ == spec_reset(old(self)@),
    {
        self.register_a = 0;
        self.register_x = 0;
        self.register_y = 0;
        self.stack_pointer = STACK_RESET;
        self.status = CpuFlags::from_bits_truncate(0b100100);
        let lo = self.bus.read_prg_rom(0xFFFC);
        let hi = self.bus.read_prg_rom(0xFFFD);
        self.program_counter = ((hi as u16) << 8) | (lo as u16);
    }

    /// Writes a standalone program into RAM starting at address 0. The
    /// reset vector is expected to point there already; a cartridge
    /// image with zeroed vector bytes, such as `test_rom` builds, reads
    /// as start address 0.
    pub fn load(&mut self, program: Vec<u8>)
        requires
            old(self).wf(),
            program@.len() <= 0x800,
        ensures
            final(self).wf(),
            final(self)@ == spec_load(old(self)@, program@),
    {
        let ghost start = self@;
        let mut i: usize = 0;
        while i < program.len()
            invariant
                self.wf(),
                i <= program@.len() <= 0x800,
                self@ == (CpuV { bus: BusV { ram: self@.bus.ram, ..start.bus }, ..start }),
                self@.bus.ram.len() == 0x800,
                forall|j: int| 0 <= j < i ==> self@.bus.ram[j] == program@[j],
                forall|j: int| i <= j < 0x800 ==> self@.bus.ram[j] == start.bus.ram[j],
            decreases program@.len() - i,
        {
            proof {
                lemma_low_mask(i as u16);
            }
            let _ = self.bus.mem_write(i as u16, program[i]);
            i = i + 1;
        }
        proof {
            assert(self@.bus.ram =~= program@ + start.bus.ram.skip(program@.len() as int));
            assert(self@ =~= spec_load(start, program@));
        }
    }

    /// Applies the zero/negative rule for `result` to the status flags.
    pub(crate) fn update_zero_and_negative_flags(&mut self, result: u8)
        ensures
            final(self)@ == (CpuV { status: zn_update(old(self)@.status, result), ..old(self)@ }),
    {
        self.status.update_zero_and_negative(result);
    }

    /// Stores `value` in the accumulator with the zero/negative rule.
    pub(crate) fn set_register_a(&mut self, value: u8)
        ensures
            final(self)@ == spec_set_a(old(self)@, value),
    {
        self.register_a = value;
        self.update_zero_and_negative_flags(value);
    }

    /// Adds `data` and the carry flag into the accumulator, as
    /// `spec_add_to_a` says.
    pub(crate) fn add_to_register_a(&mut self, data: u8)
        ensures
            final(self)@ == spec_add_to_a(old(self)@, data),
    {
        let carry: u16 = if self.status.contains(FLAG_CARRY) {
            1
        } else {
            0
        };
        let sum: u16 = self.register_a as u16 + data as u16 + carry;
        if sum > 0xFF {
            self.status.insert(FLAG_CARRY);
        } else {
            self.status.remove(FLAG_CARRY);
        }
        let result: u8 = (sum % 0x100) as u8;
        if (data ^ result) & (result ^ self.register_a) & 0x80 != 0 {
            self.status.insert(FLAG_OVERFLOW);
        } else {
            self.status.remove(FLAG_OVERFLOW);
        }
        self.set_register_a(result);
    }

    /// Pushes one byte onto the stack.
    pub(crate) fn stack_push(&mut self, data: u8)
        requires
            old(self).wf(),
        ensures
            final(self).wf(),
            final(self)@ == spec_push(old(self)@, data),
    {
        let address = STACK + self.stack_pointer as u16;
        proof {
            lemma_low_mask(address);
        }
        let _ = self.bus.mem_write(address, data);
        self.stack_pointer = self.stack_pointer.wrapping_sub(1);
    }

    /// Pops one byte off the stack.
    pub(crate) fn stack_pop(&mut self) -> (r: u8)
        requires
            old(self).wf(),
        ensures
            final(self).wf(),
            final(self)@ == spec_pop(old(self)@).0,
            r == spec_pop(old(self)@).1,
    {
        self.stack_pointer = self.stack_pointer.wrapping_add(1);
        let address = STACK + self.stack_pointer as u16;
        proof {
            lemma_low_mask(address);
        }
        match self.bus.mem_read(address) {
            Ok(value) => value,
            Err(_) => 0,  // stack reads land in RAM and cannot fault
        }
    }

    /// Pushes a two-byte value, high byte first.
    pub(crate) fn stack_push_u16(&mut self, data: u16)
        requires
            old(self).wf(),
        ensures
            final(self).wf(),
            final(self)@ == spec_push16(old(self)@, data),
    {
        self.stack_push((data >> 8) as u8);
        self.stack_push((data & 0xFF) as u8);
    }

    /// Pops a two-byte little-endian value.
    pub(crate) fn stack_pop_u16(&mut self) -> (r: u16)
        requires
            old(self).wf(),
        ensures
            final(self).wf(),
            final(self)@ == spec_pop16(old(self)@).0,
            r == spec_pop16(old(self)@).1,
    {
        let lo = self.stack_pop();
        let hi = self.stack_pop();
        ((hi as u16) << 8) | (lo as u16)
    }

    /// Computes the effective operand address for `mode`, reading the
    /// operand bytes at `address`, as `spec_resolve` says.
    pub fn get_absolute_address(&mut self, mode: &AddressingMode, address: u16) -> (r: Result<
        u16,
        Fault,
    >)
        requires
            old(self).wf(),
        ensures
            final(self).wf(),
            final(self)@ == (CpuV {
                bus: spec_resolve(old(self)@, *mode, address).0,
                ..old(self)@
            }),
            r == spec_resolve(old(self)@, *mode, address).1,
    {
        match mode {
            AddressingMode::Immediate => Ok(address),
            AddressingMode::ZeroPage => {
                let pos = self.bus.mem_read(address)?;
                Ok(pos as u16)
            },
            AddressingMode::Absolute => self.bus.mem_read_u16(address),
            AddressingMode::ZeroPage_X => {
                let pos = self.bus.mem_read(address)?;
                Ok(pos.wrapping_add(self.register_x) as u16)
            },
            AddressingMode::ZeroPage_Y => {
                let pos = self.bus.mem_read(address)?;
                Ok(pos.wrapping_add(self.register_y) as u16)
            },
            AddressingMode::Absolute_X => {
                let base = self.bus.mem_read_u16(address)?;
                Ok(base.wrapping_add(self.register_x as u16))
            },
            AddressingMode::Absolute_Y => {
                let base = self.bus.mem_read_u16(address)?;
                Ok(base.wrapping_add(self.register_y as u16))
            },
            AddressingMode::Indirect_X => {
                let base = self.bus.mem_read(address)?;
                let ptr = base.wrapping_add(self.register_x);
                let lo = self.bus.mem_read(ptr as u16)?;
                let hi = self.bus.mem_read(ptr.wrapping_add(1) as u16)?;
                Ok(((hi as u16) << 8) | (lo as u16))
            },
            AddressingMode::Indirect_Y => {
                let base = self.bus.mem_read(address)?;
                let lo = self.bus.mem_read(base as u16)?;
                let hi = self.bus.mem_read(base.wrapping_add(1) as u16)?;
                let deref = ((hi as u16) << 8) | (lo as u16);
                Ok(deref.wrapping_add(self.register_y as u16))
            },
            AddressingMode::NoneAddressing => Err(Fault::NoneAddressing),
        }
    }

    /// The operand address of the instruction at the program counter.
    pub(crate) fn get_operand_address(&mut self, mode: &AddressingMode) -> (r: Result<
        u16,
        Fault,
    >)
        requires
            old(self).wf(),
        ensures
            final(self).wf(),
            final(self)@ == (CpuV {
                bus: spec_resolve(old(self)@, *mode, old(self)@.pc).0,
                ..old(self)@
            }),
            r == spec_resolve(old(self)@, *mode, old(self)@.pc).1,
    {
        let pc = self.program_counter;
        self.get_absolute_address(mode, pc)
    }

    /// Resolves the operand address, then reads the operand byte.
    pub(crate) fn operand(&mut self, mode: &AddressingMode) -> (r: Result<(u16, u8), Fault>)
        requires
            old(self).wf(),
        ensures
            final(self).wf(),
            final(self)@ == (CpuV { bus: spec_operand(old(self)@, *mode).0, ..old(self)@ }),
            r == spec_operand(old(self)@, *mode).1,
    {
        let addr = self.get_operand_address(mode)?;
        let value = self.bus.mem_read(addr)?;
        Ok((addr, value))
    }
}

} // verus!
