//! The effect of each instruction family, official and undocumented.
//!
//! Each executable method is proved equal to a spec function of the
//! abstract machine state. The spec functions thread the bus state
//! through every memory access, so a fault leaves exactly the state the
//! accesses before it produced.

use vstd::prelude::*;
use crate::bus::Mem;
use crate::bus::spec_bus_read;
use crate::bus::spec_bus_read16;
use crate::bus::spec_bus_write;
use crate::cpu::CPU;
use crate::cpu::CpuV;
use crate::cpu::spec_add_to_a;
use crate::cpu::spec_operand;
use crate::cpu::spec_pop;
use crate::cpu::spec_pop16;
use crate::cpu::spec_push;
use crate::cpu::spec_push16;
use crate::cpu::spec_resolve;
use crate::cpu::spec_set_a;
use crate::fault::Fault;
use crate::flags::FLAG_BREAK;
use crate::flags::FLAG_BREAK2;
use crate::flags::FLAG_CARRY;
use crate::flags::FLAG_NEGATIVE;
use crate::flags::FLAG_OVERFLOW;
use crate::flags::FLAG_ZERO;
use crate::flags::zn_update;
use crate::opcodes::AddressingMode;

verus! {

/// The sign extension of a branch displacement byte to 16 bits.
pub open spec fn sign_extend(offset: u8) -> u16 {
    if offset >= 0x80 {
        (offset as u16) | 0xFF00
    } else {
        offset as u16
    }
}

/// Loads the accumulator from the operand.
pub open spec fn spec_lda(c: CpuV, mode: AddressingMode) -> (CpuV, Result<(), Fault>) {
    let (b, r) = spec_operand(c, mode);
    match r {
        Err(f) => (CpuV { bus: b, ..c }, Err(f)),
        Ok((addr, value)) => (spec_set_a(CpuV { bus: b, ..c }, value), Ok(())),
    }
}

/// Loads the X register from the operand.
pub open spec fn spec_ldx(c: CpuV, mode: AddressingMode) -> (CpuV, Result<(), Fault>) {
    let (b, r) = spec_operand(c, mode);
    match r {
        Err(f) => (CpuV { bus: b, ..c }, Err(f)),
        Ok((addr, value)) => (
            CpuV { x: value, status: zn_update(c.status, value), bus: b, ..c },
            Ok(()),
        ),
    }
}

/// Loads the Y register from the operand.
pub open spec fn spec_ldy(c: CpuV, mode: AddressingMode) -> (CpuV, Result<(), Fault>) {
    let (b, r) = spec_operand(c, mode);
    match r {
        Err(f) => (CpuV { bus: b, ..c }, Err(f)),
        Ok((addr, value)) => (
            CpuV { y: value, status: zn_update(c.status, value), bus: b, ..c },
            Ok(()),
        ),
    }
}

/// Stores a register at the operand address; no flags change.
pub open spec fn spec_store(c: CpuV, mode: AddressingMode, value: u8) -> (CpuV, Result<
    (),
    Fault,
>) {
    let (b1, r1) = spec_resolve(c, mode, c.pc);
    match r1 {
        Err(f) => (CpuV { bus: b1, ..c }, Err(f)),
        Ok(addr) => {
            let (b2, r2) = spec_bus_write(b1, addr, value);
            (CpuV { bus: b2, ..c }, r2)
        },
    }
}

/// Add with carry.
pub open spec fn spec_adc(c: CpuV, mode: AddressingMode) -> (CpuV, Result<(), Fault>) {
    let (b, r) = spec_operand(c, mode);
    match r {
        Err(f) => (CpuV { bus: b, ..c }, Err(f)),
        Ok((addr, value)) => (spec_add_to_a(CpuV { bus: b, ..c }, value), Ok(())),
    }
}

/// Subtract with carry: an add of the operand's ones-complement, which
/// reuses the same carry and overflow rules.
pub open spec fn spec_sbc(c: CpuV, mode: AddressingMode) -> (CpuV, Result<(), Fault>) {
    let (b, r) = spec_operand(c, mode);
    match r {
        Err(f) => (CpuV { bus: b, ..c }, Err(f)),
        Ok((addr, value)) => (spec_add_to_a(CpuV { bus: b, ..c }, (255 - value) as u8), Ok(())),
    }
}

/// Bitwise AND of the accumulator with the operand.
pub open spec fn spec_and(c: CpuV, mode: AddressingMode) -> (CpuV, Result<(), Fault>) {
    let (b, r) = spec_operand(c, mode);
    match r {
        Err(f) => (CpuV { bus: b, ..c }, Err(f)),
        Ok((addr, value)) => (spec_set_a(CpuV { bus: b, ..c }, value & c.a), Ok(())),
    }
}

/// Bitwise exclusive OR of the accumulator with the operand.
pub open spec fn spec_eor(c: CpuV, mode: AddressingMode) -> (CpuV, Result<(), Fault>) {
    let (b, r) = spec_operand(c, mode);
    match r {
        Err(f) => (CpuV { bus: b, ..c }, Err(f)),
        Ok((addr, value)) => (spec_set_a(CpuV { bus: b, ..c }, value ^ c.a), Ok(())),
    }
}

/// Bitwise OR of the accumulator with the operand.
pub open spec fn spec_ora(c: CpuV, mode: AddressingMode) -> (CpuV, Result<(), Fault>) {
    let (b, r) = spec_operand(c, mode);
    match r {
        Err(f) => (CpuV { bus: b, ..c }, Err(f)),
        Ok((addr, value)) => (spec_set_a(CpuV { bus: b, ..c }, value | c.a), Ok(())),
    }
}

/// Arithmetic shift left of a memory operand: the carry takes bit 7,
/// the shifted byte is written back and flag-updated. The shifted byte
/// is also the result, for the combined undocumented forms.
pub open spec fn spec_asl_mem(c: CpuV, mode: AddressingMode) -> (CpuV, Result<u8, Fault>) {
    let (b1, r1) = spec_resolve(c, mode, c.pc);
    match r1 {
        Err(f) => (CpuV { bus: b1, ..c }, Err(f)),
        Ok(addr) => {
            let (b2, r2) = spec_bus_read(b1, addr);
            match r2 {
                Err(f) => (CpuV { bus: b2, ..c }, Err(f)),
                Ok(v) => {
                    let st = if v >> 7 == 1 {
                        c.status | FLAG_CARRY
                    } else {
                        c.status & !FLAG_CARRY
                    };
                    let nv = v << 1;
                    let (b3, r3) = spec_bus_write(b2, addr, nv);
                    match r3 {
                        Err(f) => (CpuV { status: st, bus: b3, ..c }, Err(f)),
                        Ok(()) => (
                            CpuV { status: zn_update(st, nv), bus: b3, ..c },
                            Ok(nv),
                        ),
                    }
                },
            }
        },
    }
}

/// Logical shift right of a memory operand: the carry takes bit 0.
pub open spec fn spec_lsr_mem(c: CpuV, mode: AddressingMode) -> (CpuV, Result<u8, Fault>) {
    let (b1, r1) = spec_resolve(c, mode, c.pc);
    match r1 {
        Err(f) => (CpuV { bus: b1, ..c }, Err(f)),
        Ok(addr) => {
            let (b2, r2) = spec_bus_read(b1, addr);
            match r2 {
                Err(f) => (CpuV { bus: b2, ..c }, Err(f)),
                Ok(v) => {
                    let st = if v & 1 == 1 {
                        c.status | FLAG_CARRY
                    } else {
                        c.status & !FLAG_CARRY
                    };
                    let nv = v >> 1;
                    let (b3, r3) = spec_bus_write(b2, addr, nv);
                    match r3 {
                        Err(f) => (CpuV { status: st, bus: b3, ..c }, Err(f)),
                        Ok(()) => (
                            CpuV { status: zn_update(st, nv), bus: b3, ..c },
                            Ok(nv),
                        ),
                    }
                },
            }
        },
    }
}

/// Rotate left of a memory operand: the carry takes bit 7 and the old
/// carry enters bit 0.
pub open spec fn spec_rol_mem(c: CpuV, mode: AddressingMode) -> (CpuV, Result<u8, Fault>) {
    let (b1, r1) = spec_resolve(c, mode, c.pc);
    match r1 {
        Err(f) => (CpuV { bus: b1, ..c }, Err(f)),
        Ok(addr) => {
            let (b2, r2) = spec_bus_read(b1, addr);
            match r2 {
                Err(f) => (CpuV { bus: b2, ..c }, Err(f)),
                Ok(v) => {
                    let old_carry = c.status & FLAG_CARRY == FLAG_CARRY;
                    let st = if v >> 7 == 1 {
                        c.status | FLAG_CARRY
                    } else {
                        c.status & !FLAG_CARRY
                    };
                    let nv = if old_carry {
                        (v << 1) | 1
                    } else {
                        v << 1
                    };
                    let (b3, r3) = spec_bus_write(b2, addr, nv);
                    match r3 {
                        Err(f) => (CpuV { status: st, bus: b3, ..c }, Err(f)),
                        Ok(()) => (
                            CpuV { status: zn_update(st, nv), bus: b3, ..c },
                            Ok(nv),
                        ),
                    }
                },
            }
        },
    }
}

/// Rotate right of a memory operand: the carry takes bit 0 and the old
/// carry enters bit 7.
pub open spec fn spec_ror_mem(c: CpuV, mode: AddressingMode) -> (CpuV, Result<u8, Fault>) {
    let (b1, r1) = spec_resolve(c, mode, c.pc);
    match r1 {
        Err(f) => (CpuV { bus: b1, ..c }, Err(f)),
        Ok(addr) => {
            let (b2, r2) = spec_bus_read(b1, addr);
            match r2 {
                Err(f) => (CpuV { bus: b2, ..c }, Err(f)),
                Ok(v) => {
                    let old_carry = c.status & FLAG_CARRY == FLAG_CARRY;
                    let st = if v & 1 == 1 {
                        c.status | FLAG_CARRY
                    } else {
                        c.status & !FLAG_CARRY
                    };
                    let nv = if old_carry {
                        (v >> 1) | 0x80
                    } else {
                        v >> 1
                    };
                    let (b3, r3) = spec_bus_write(b2, addr, nv);
                    match r3 {
                        Err(f) => (CpuV { status: st, bus: b3, ..c }, Err(f)),
                        Ok(()) => (
                            CpuV { status: zn_update(st, nv), bus: b3, ..c },
                            Ok(nv),
                        ),
                    }
                },
            }
        },
    }
}

/// Arithmetic shift left of the accumulator.
pub open spec fn spec_asl_acc(c: CpuV) -> CpuV {
    let st = if c.a >> 7 == 1 {
        c.status | FLAG_CARRY
    } else {
        c.status & !FLAG_CARRY
    };
    spec_set_a(CpuV { status: st, ..c }, c.a << 1)
}

/// Logical shift right of the accumulator.
pub open spec fn spec_lsr_acc(c: CpuV) -> CpuV {
    let st = if c.a & 1 == 1 {
        c.status | FLAG_CARRY
    } else {
        c.status & !FLAG_CARRY
    };
    spec_set_a(CpuV { status: st, ..c }, c.a >> 1)
}

/// Rotate left of the accumulator.
pub open spec fn spec_rol_acc(c: CpuV) -> CpuV {
    let old_carry = c.status & FLAG_CARRY == FLAG_CARRY;
    let st = if c.a >> 7 == 1 {
        c.status | FLAG_CARRY
    } else {
        c.status & !FLAG_CARRY
    };
    let nv = if old_carry {
        (c.a << 1) | 1
    } else {
        c.a << 1
    };
    spec_set_a(CpuV { status: st, ..c }, nv)
}

/// Rotate right of the accumulator.
pub open spec fn spec_ror_acc(c: CpuV) -> CpuV {
    let old_carry = c.status & FLAG_CARRY == FLAG_CARRY;
    let st = if c.a & 1 == 1 {
        c.status | FLAG_CARRY
    } else {
        c.status & !FLAG_CARRY
    };
    let nv = if old_carry {
        (c.a >> 1) | 0x80
    } else {
        c.a >> 1
    };
    spec_set_a(CpuV { status: st, ..c }, nv)
}

/// Increment of a memory operand, wrapping, with flag update; no carry
/// involvement.
pub open spec fn spec_inc_mem(c: CpuV, mode: AddressingMode) -> (CpuV, Result<u8, Fault>) {
    let (b1, r1) = spec_resolve(c, mode, c.pc);
    match r1 {
        Err(f) => (CpuV { bus: b1, ..c }, Err(f)),
        Ok(addr) => {
            let (b2, r2) = spec_bus_read(b1, addr);
            match r2 {
                Err(f) => (CpuV { bus: b2, ..c }, Err(f)),
                Ok(v) => {
                    let nv = v.wrapping_add(1);
                    let (b3, r3) = spec_bus_write(b2, addr, nv);
                    match r3 {
                        Err(f) => (CpuV { bus: b3, ..c }, Err(f)),
                        Ok(()) => (
                            CpuV { status: zn_update(c.status, nv), bus: b3, ..c },
                            Ok(nv),
                        ),
                    }
                },
            }
        },
    }
}

/// Decrement of a memory operand, wrapping, with flag update.
pub open spec fn spec_dec_mem(c: CpuV, mode: AddressingMode) -> (CpuV, Result<u8, Fault>) {
    let (b1, r1) = spec_resolve(c, mode, c.pc);
    match r1 {
        Err(f) => (CpuV { bus: b1, ..c }, Err(f)),
        Ok(addr) => {
            let (b2, r2) = spec_bus_read(b1, addr);
            match r2 {
                Err(f) => (CpuV { bus: b2, ..c }, Err(f)),
                Ok(v) => {
                    let nv = v.wrapping_sub(1);
                    let (b3, r3) = spec_bus_write(b2, addr, nv);
                    match r3 {
                        Err(f) => (CpuV { bus: b3, ..c }, Err(f)),
                        Ok(()) => (
                            CpuV { status: zn_update(c.status, nv), bus: b3, ..c },
                            Ok(nv),
                        ),
                    }
                },
            }
        },
    }
}

/// Compare of a register with the operand: the carry is set exactly
/// when the operand is at most the register, and the zero/negative rule
/// applies to their wrapping difference.
pub open spec fn spec_compare(c: CpuV, mode: AddressingMode, compare_with: u8) -> (CpuV, Result<
    (),
    Fault,
>) {
    let (b, r) = spec_operand(c, mode);
    match r {
        Err(f) => (CpuV { bus: b, ..c }, Err(f)),
        Ok((addr, value)) => {
            let st = if value <= compare_with {
                c.status | FLAG_CARRY
            } else {
                c.status & !FLAG_CARRY
            };
            (
                CpuV {
                    status: zn_update(st, compare_with.wrapping_sub(value)),
                    bus: b,
                    ..c
                },
                Ok(()),
            )
        },
    }
}

/// A conditional branch: when taken, the program counter moves by the
/// sign-extended displacement byte, relative to the address right after
/// that byte.
pub open spec fn spec_branch(c: CpuV, condition: bool) -> (CpuV, Result<(), Fault>) {
    if !condition {
        (c, Ok(()))
    } else {
        let (b, r) = spec_bus_read(c.bus, c.pc);
        match r {
            Err(f) => (CpuV { bus: b, ..c }, Err(f)),
            Ok(offset) => (
                CpuV {
                    pc: c.pc.wrapping_add(1).wrapping_add(sign_extend(offset)),
                    bus: b,
                    ..c
                },
                Ok(()),
            ),
        }
    }
}

/// BIT: the zero flag from the accumulator AND the operand, the
/// negative and overflow flags copied from the operand's bits 7 and 6.
pub open spec fn spec_bit(c: CpuV, mode: AddressingMode) -> (CpuV, Result<(), Fault>) {
    let (b, r) = spec_operand(c, mode);
    match r {
        Err(f) => (CpuV { bus: b, ..c }, Err(f)),
        Ok((addr, value)) => {
            let st1 = if c.a & value == 0 {
                c.status | FLAG_ZERO
            } else {
                c.status & !FLAG_ZERO
            };
            let st2 = if value & 0x80 > 0 {
                st1 | FLAG_NEGATIVE
            } else {
                st1 & !FLAG_NEGATIVE
            };
            let st3 = if value & 0x40 > 0 {
                st2 | FLAG_OVERFLOW
            } else {
                st2 & !FLAG_OVERFLOW
            };
            (CpuV { status: st3, bus: b, ..c }, Ok(()))
        },
    }
}

/// JMP absolute: the program counter takes the two operand bytes.
pub open spec fn spec_jmp_absolute(c: CpuV) -> (CpuV, Result<(), Fault>) {
    let (b, r) = spec_bus_read16(c.bus, c.pc);
    match r {
        Err(f) => (CpuV { bus: b, ..c }, Err(f)),
        Ok(target) => (CpuV { pc: target, bus: b, ..c }, Ok(())),
    }
}

/// JMP indirect, with the page-boundary quirk: when the pointer's low
/// byte is 0xFF, the target's high byte is fetched from the start of
/// the same page, not the next one.
pub open spec fn spec_jmp_indirect(c: CpuV) -> (CpuV, Result<(), Fault>) {
    let (b1, r1) = spec_bus_read16(c.bus, c.pc);
    match r1 {
        Err(f) => (CpuV { bus: b1, ..c }, Err(f)),
        Ok(ptr) => {
            if ptr & 0x00FF == 0x00FF {
                let (b2, r2) = spec_bus_read(b1, ptr);
                match r2 {
                    Err(f) => (CpuV { bus: b2, ..c }, Err(f)),
                    Ok(lo) => {
                        let (b3, r3) = spec_bus_read(b2, ptr & 0xFF00);
                        match r3 {
                            Err(f) => (CpuV { bus: b3, ..c }, Err(f)),
                            Ok(hi) => (
                                CpuV {
                                    pc: ((hi as u16) << 8) | (lo as u16),
                                    bus: b3,
                                    ..c
                                },
                                Ok(()),
                            ),
                        }
                    },
                }
            } else {
                let (b2, r2) = spec_bus_read16(b1, ptr);
                match r2 {
                    Err(f) => (CpuV { bus: b2, ..c }, Err(f)),
                    Ok(target) => (CpuV { pc: target, bus: b2, ..c }, Ok(())),
                }
            }
        },
    }
}

/// JSR: pushes the address of the call's last byte, then jumps.
pub open spec fn spec_jsr(c: CpuV) -> (CpuV, Result<(), Fault>) {
    let c1 = spec_push16(c, c.pc.wrapping_add(1));
    let (b, r) = spec_bus_read16(c1.bus, c1.pc);
    match r {
        Err(f) => (CpuV { bus: b, ..c1 }, Err(f)),
        Ok(target) => (CpuV { pc: target, bus: b, ..c1 }, Ok(())),
    }
}

/// RTS: pops a two-byte address and continues one past it.
pub open spec fn spec_rts(c: CpuV) -> CpuV {
    let (c1, value) = spec_pop16(c);
    CpuV { pc: value.wrapping_add(1), ..c1 }
}

/// RTI: pops the flags (break forced low, its unused duplicate forced
/// high), then the program counter.
pub open spec fn spec_rti(c: CpuV) -> CpuV {
    let (c1, flags) = spec_pop(c);
    let c2 = CpuV { status: (flags & !FLAG_BREAK) | FLAG_BREAK2, ..c1 };
    let (c3, pc) = spec_pop16(c2);
    CpuV { pc: pc, ..c3 }
}

/// PLA: pops into the accumulator with the zero/negative rule.
pub open spec fn spec_pla(c: CpuV) -> CpuV {
    let (c1, value) = spec_pop(c);
    spec_set_a(c1, value)
}

/// PHP: pushes the flags with both break bits forced high.
pub open spec fn spec_php(c: CpuV) -> CpuV {
    spec_push(c, c.status | FLAG_BREAK | FLAG_BREAK2)
}

/// PLP: pops the flags, with break forced low and its unused duplicate
/// forced high.
pub open spec fn spec_plp(c: CpuV) -> CpuV {
    let (c1, value) = spec_pop(c);
    CpuV { status: (value & !FLAG_BREAK) | FLAG_BREAK2, ..c1 }
}

impl CPU {
    /// ADC.
    pub(crate) fn adc(&mut self, mode: &AddressingMode) -> (r: Result<(), Fault>)
        requires
            old(self).wf(),
        ensures
            final(self).wf(),
            final(self)@ == spec_adc(old(self)@, *mode).0,
            r == spec_adc(old(self)@, *mode).1,
    {
        let (_addr, value) = self.operand(mode)?;
        self.add_to_register_a(value);
        Ok(())
    }

    /// SBC, an ADC of the ones-complement.
    pub(crate) fn sbc(&mut self, mode: &AddressingMode) -> (r: Result<(), Fault>)
        requires
            old(self).wf(),
        ensures
            final(self).wf(),
            final(self)@ == spec_sbc(old(self)@, *mode).0,
            r == spec_sbc(old(self)@, *mode).1,
    {
        let (_addr, value) = self.operand(mode)?;
        self.add_to_register_a(255 - value);
        Ok(())
    }

    /// AND.
    pub(crate) fn and(&mut self, mode: &AddressingMode) -> (r: Result<(), Fault>)
        requires
            old(self).wf(),
        ensures
            final(self).wf(),
            final(self)@ == spec_and(old(self)@, *mode).0,
            r == spec_and(old(self)@, *mode).1,
    {
        let (_addr, value) = self.operand(mode)?;
        self.and_with_register_a(value);
        Ok(())
    }

    /// EOR.
    pub(crate) fn eor(&mut self, mode: &AddressingMode) -> (r: Result<(), Fault>)
        requires
            old(self).wf(),
        ensures
            final(self).wf(),
            final(self)@ == spec_eor(old(self)@, *mode).0,
            r == spec_eor(old(self)@, *mode).1,
    {
        let (_addr, value) = self.operand(mode)?;
        self.xor_with_register_a(value);
        Ok(())
    }

    /// ORA.
    pub(crate) fn ora(&mut self, mode: &AddressingMode) -> (r: Result<(), Fault>)
        requires
            old(self).wf(),
        ensures
            final(self).wf(),
            final(self)@ == spec_ora(old(self)@, *mode).0,
            r == spec_ora(old(self)@, *mode).1,
    {
        let (_addr, value) = self.operand(mode)?;
        self.or_with_register_a(value);
        Ok(())
    }

    /// LDA.
    pub(crate) fn lda(&mut self, mode: &AddressingMode) -> (r: Result<(), Fault>)
        requires
            old(self).wf(),
        ensures
            final(self).wf(),
            final(self)@ == spec_lda(old(self)@, *mode).0,
            r == spec_lda(old(self)@, *mode).1,
    {
        let (_addr, value) = self.operand(mode)?;
        self.set_register_a(value);
        Ok(())
    }

    /// LDX.
    pub(crate) fn ldx(&mut self, mode: &AddressingMode) -> (r: Result<(), Fault>)
        requires
            old(self).wf(),
        ensures
            final(self).wf(),
            final(self)@ == spec_ldx(old(self)@, *mode).0,
            r == spec_ldx(old(self)@, *mode).1,
    {
        let (_addr, value) = self.operand(mode)?;
        self.register_x = value;
        self.update_zero_and_negative_flags(value);
        Ok(())
    }

    /// LDY.
    pub(crate) fn ldy(&mut self, mode: &AddressingMode) -> (r: Result<(), Fault>)
        requires
            old(self).wf(),
        ensures
            final(self).wf(),
            final(self)@ == spec_ldy(old(self)@, *mode).0,
            r == spec_ldy(old(self)@, *mode).1,
    {
        let (_addr, value) = self.operand(mode)?;
        self.register_y = value;
        self.update_zero_and_negative_flags(value);
        Ok(())
    }

    /// STA.
    pub(crate) fn sta(&mut self, mode: &AddressingMode) -> (r: Result<(), Fault>)
        requires
            old(self).wf(),
        ensures
            final(self).wf(),
            final(self)@ == spec_store(old(self)@, *mode, old(self)@.a).0,
            r == spec_store(old(self)@, *mode, old(self)@.a).1,
    {
        let addr = self.get_operand_address(mode)?;
        self.bus.mem_write(addr, self.register_a)
    }

    /// STX.
    pub(crate) fn stx(&mut self, mode: &AddressingMode) -> (r: Result<(), Fault>)
        requires
            old(self).wf(),
        ensures
            final(self).wf(),
            final(self)@ == spec_store(old(self)@, *mode, old(self)@.x).0,
            r == spec_store(old(self)@, *mode, old(self)@.x).1,
    {
        let addr = self.get_operand_address(mode)?;
        self.bus.mem_write(addr, self.register_x)
    }

    /// STY.
    pub(crate) fn sty(&mut self, mode: &AddressingMode) -> (r: Result<(), Fault>)
        requires
            old(self).wf(),
        ensures
            final(self).wf(),
            final(self)@ == spec_store(old(self)@, *mode, old(self)@.y).0,
            r == spec_store(old(self)@, *mode, old(self)@.y).1,
    {
        let addr = self.get_operand_address(mode)?;
        self.bus.mem_write(addr, self.register_y)
    }

    /// ASL on a memory operand; hands back the shifted byte.
    pub(crate) fn asl(&mut self, mode: &AddressingMode) -> (r: Result<u8, Fault>)
        requires
            old(self).wf(),
        ensures
            final(self).wf(),
            final(self)@ == spec_asl_mem(old(self)@, *mode).0,
            r == spec_asl_mem(old(self)@, *mode).1,
    {
        let addr = self.get_operand_address(mode)?;
        let mut data = self.bus.mem_read(addr)?;
        if data >> 7 == 1 {
            self.set_carry_flag();
        } else {
            self.clear_carry_flag();
        }
        data = data << 1;
        self.bus.mem_write(addr, data)?;
        self.update_zero_and_negative_flags(data);
        Ok(data)
    }

    /// ASL on the accumulator.
    pub(crate) fn asl_accumulator(&mut self)
        ensures
            final(self)@ == spec_asl_acc(old(self)@),
    {
        let mut data = self.register_a;
        if data >> 7 == 1 {
            self.set_carry_flag();
        } else {
            self.clear_carry_flag();
        }
        data = data << 1;
        self.set_register_a(data);
    }

    /// LSR on a memory operand; hands back the shifted byte.
    pub(crate) fn lsr(&mut self, mode: &AddressingMode) -> (r: Result<u8, Fault>)
        requires
            old(self).wf(),
        ensures
            final(self).wf(),
            final(self)@ == spec_lsr_mem(old(self)@, *mode).0,
            r == spec_lsr_mem(old(self)@, *mode).1,
    {
        let addr = self.get_operand_address(mode)?;
        let mut data = self.bus.mem_read(addr)?;
        if data & 1 == 1 {
            self.set_carry_flag();
        } else {
            self.clear_carry_flag();
        }
        data = data >> 1;
        self.bus.mem_write(addr, data)?;
        self.update_zero_and_negative_flags(data);
        Ok(data)
    }

    /// LSR on the accumulator.
    pub(crate) fn lsr_accumulator(&mut self)
        ensures
            final(self)@ == spec_lsr_acc(old(self)@),
    {
        let mut data = self.register_a;
        if data & 1 == 1 {
            self.set_carry_flag();
        } else {
            self.clear_carry_flag();
        }
        data = data >> 1;
        self.set_register_a(data);
    }

    /// ROL on a memory operand; hands back the rotated byte.
    pub(crate) fn rol(&mut self, mode: &AddressingMode) -> (r: Result<u8, Fault>)
        requires
            old(self).wf(),
        ensures
            final(self).wf(),
            final(self)@ == spec_rol_mem(old(self)@, *mode).0,
            r == spec_rol_mem(old(self)@, *mode).1,
    {
        let addr = self.get_operand_address(mode)?;
        let mut data = self.bus.mem_read(addr)?;
        let old_carry = self.status.contains(FLAG_CARRY);
        if data >> 7 == 1 {
            self.set_carry_flag();
        } else {
            self.clear_carry_flag();
        }
        data = data << 1;
        if old_carry {
            data = data | 1;
        }
        self.bus.mem_write(addr, data)?;
        self.update_zero_and_negative_flags(data);
        Ok(data)
    }

    /// ROL on the accumulator.
    pub(crate) fn rol_accumulator(&mut self)
        ensures
            final(self)@ == spec_rol_acc(old(self)@),
    {
        let mut data = self.register_a;
        let old_carry = self.status.contains(FLAG_CARRY);
        if data >> 7 == 1 {
            self.set_carry_flag();
        } else {
            self.clear_carry_flag();
        }
        data = data << 1;
        if old_carry {
            data = data | 1;
        }
        self.set_register_a(data);
    }

    /// ROR on a memory operand; hands back the rotated byte.
    pub(crate) fn ror(&mut self, mode: &AddressingMode) -> (r: Result<u8, Fault>)
        requires
            old(self).wf(),
        ensures
            final(self).wf(),
            final(self)@ == spec_ror_mem(old(self)@, *mode).0,
            r == spec_ror_mem(old(self)@, *mode).1,
    {
        let addr = self.get_operand_address(mode)?;
        let mut data = self.bus.mem_read(addr)?;
        let old_carry = self.status.contains(FLAG_CARRY);
        if data & 1 == 1 {
            self.set_carry_flag();
        } else {
            self.clear_carry_flag();
        }
        data = data >> 1;
        if old_carry {
            data = data | 0x80;
        }
        self.bus.mem_write(addr, data)?;
        self.update_zero_and_negative_flags(data);
        Ok(data)
    }

    /// ROR on the accumulator.
    pub(crate) fn ror_accumulator(&mut self)
        ensures
            final(self)@ == spec_ror_acc(old(self)@),
    {
        let mut data = self.register_a;
        let old_carry = self.status.contains(FLAG_CARRY);
        if data & 1 == 1 {
            self.set_carry_flag();
        } else {
            self.clear_carry_flag();
        }
        data = data >> 1;
        if old_carry {
            data = data | 0x80;
        }
        self.set_register_a(data);
    }

    /// INC on a memory operand; hands back the new byte.
    pub(crate) fn inc(&mut self, mode: &AddressingMode) -> (r: Result<u8, Fault>)
        requires
            old(self).wf(),
        ensures
            final(self).wf(),
            final(self)@ == spec_inc_mem(old(self)@, *mode).0,
            r == spec_inc_mem(old(self)@, *mode).1,
    {
        let addr = self.get_operand_address(mode)?;
        let mut data = self.bus.mem_read(addr)?;
        data = data.wrapping_add(1);
        self.bus.mem_write(addr, data)?;
        self.update_zero_and_negative_flags(data);
        Ok(data)
    }

    /// DEC on a memory operand; hands back the new byte.
    pub(crate) fn dec(&mut self, mode: &AddressingMode) -> (r: Result<u8, Fault>)
        requires
            old(self).wf(),
        ensures
            final(self).wf(),
            final(self)@ == spec_dec_mem(old(self)@, *mode).0,
            r == spec_dec_mem(old(self)@, *mode).1,
    {
        let addr = self.get_operand_address(mode)?;
        let mut data = self.bus.mem_read(addr)?;
        data = data.wrapping_sub(1);
        self.bus.mem_write(addr, data)?;
        self.update_zero_and_negative_flags(data);
        Ok(data)
    }

    /// INX.
    pub(crate) fn inx(&mut self)
        ensures
            final(self)@ == (CpuV {
                x: old(self)@.x.wrapping_add(1),
                status: zn_update(old(self)@.status, old(self)@.x.wrapping_add(1)),
                ..old(self)@
            }),
    {
        self.register_x = self.register_x.wrapping_add(1);
        self.update_zero_and_negative_flags(self.register_x);
    }

    /// INY.
    pub(crate) fn iny(&mut self)
        ensures
            final(self)@ == (CpuV {
                y: old(self)@.y.wrapping_add(1),
                status: zn_update(old(self)@.status, old(self)@.y.wrapping_add(1)),
                ..old(self)@
            }),
    {
        self.register_y = self.register_y.wrapping_add(1);
        self.update_zero_and_negative_flags(self.register_y);
    }

    /// DEX.
    pub(crate) fn dex(&mut self)
        ensures
            final(self)@ == (CpuV {
                x: old(self)@.x.wrapping_sub(1),
                status: zn_update(old(self)@.status, old(self)@.x.wrapping_sub(1)),
                ..old(self)@
            }),
    {
        self.register_x = self.register_x.wrapping_sub(1);
        self.update_zero_and_negative_flags(self.register_x);
    }

    /// DEY.
    pub(crate) fn dey(&mut self)
        ensures
            final(self)@ == (CpuV {
                y: old(self)@.y.wrapping_sub(1),
                status: zn_update(old(self)@.status, old(self)@.y.wrapping_sub(1)),
                ..old(self)@
            }),
    {
        self.register_y = self.register_y.wrapping_sub(1);
        self.update_zero_and_negative_flags(self.register_y);
    }

    /// CMP, CPX and CPY, with the register's value handed in.
    pub(crate) fn compare(&mut self, mode: &AddressingMode, compare_with: u8) -> (r: Result<
        (),
        Fault,
    >)
        requires
            old(self).wf(),
        ensures
            final(self).wf(),
            final(self)@ == spec_compare(old(self)@, *mode, compare_with).0,
            r == spec_compare(old(self)@, *mode, compare_with).1,
    {
        let (_addr, data) = self.operand(mode)?;
        if data <= compare_with {
            self.status.insert(FLAG_CARRY);
        } else {
            self.status.remove(FLAG_CARRY);
        }
        self.update_zero_and_negative_flags(compare_with.wrapping_sub(data));
        Ok(())
    }

    /// A conditional branch on `condition`.
    pub(crate) fn branch(&mut self, condition: bool) -> (r: Result<(), Fault>)
        requires
            old(self).wf(),
        ensures
            final(self).wf(),
            final(self)@ == spec_branch(old(self)@, condition).0,
            r == spec_branch(old(self)@, condition).1,
    {
        if condition {
            let pc = self.program_counter;
            let offset = self.bus.mem_read(pc)?;
            let delta: u16 = if offset >= 0x80 {
                (offset as u16) | 0xFF00
            } else {
                offset as u16
            };
            self.program_counter = self.program_counter.wrapping_add(1).wrapping_add(delta);
        }
        Ok(())
    }

    /// BIT.
    pub(crate) fn bit(&mut self, mode: &AddressingMode) -> (r: Result<(), Fault>)
        requires
            old(self).wf(),
        ensures
            final(self).wf(),
            final(self)@ == spec_bit(old(self)@, *mode).0,
            r == spec_bit(old(self)@, *mode).1,
    {
        let (_addr, value) = self.operand(mode)?;
        let and = self.register_a & value;
        if and == 0 {
            self.status.insert(FLAG_ZERO);
        } else {
            self.status.remove(FLAG_ZERO);
        }
        self.status.set(FLAG_NEGATIVE, value & 0x80 > 0);
        self.status.set(FLAG_OVERFLOW, value & 0x40 > 0);
        Ok(())
    }

    /// Sets the carry flag.
    pub(crate) fn set_carry_flag(&mut self)
        ensures
            final(self)@ == (CpuV { status: old(self)@.status | FLAG_CARRY, ..old(self)@ }),
    {
        self.status.insert(FLAG_CARRY);
    }

    /// Clears the carry flag.
    pub(crate) fn clear_carry_flag(&mut self)
        ensures
            final(self)@ == (CpuV { status: old(self)@.status & !FLAG_CARRY, ..old(self)@ }),
    {
        self.status.remove(FLAG_CARRY);
    }

    /// TAX.
    pub(crate) fn tax(&mut self)
        ensures
            final(self)@ == (CpuV {
                x: old(self)@.a,
                status: zn_update(old(self)@.status, old(self)@.a),
                ..old(self)@
            }),
    {
        self.register_x = self.register_a;
        self.update_zero_and_negative_flags(self.register_x);
    }

    /// PLA.
    pub(crate) fn pla(&mut self)
        requires
            old(self).wf(),
        ensures
            final(self).wf(),
            final(self)@ == spec_pla(old(self)@),
    {
        let data = self.stack_pop();
        self.set_register_a(data);
    }

    /// PHP: both break bits are forced high in the pushed byte.
    pub(crate) fn php(&mut self)
        requires
            old(self).wf(),
        ensures
            final(self).wf(),
            final(self)@ == spec_php(old(self)@),
    {
        let flags = self.status.bits();
        self.stack_push(flags | FLAG_BREAK | FLAG_BREAK2);
    }

    /// PLP: break is forced low, its unused duplicate high.
    pub(crate) fn plp(&mut self)
        requires
            old(self).wf(),
        ensures
            final(self).wf(),
            final(self)@ == spec_plp(old(self)@),
    {
        let data = self.stack_pop();
        self.status = crate::flags::CpuFlags::from_bits_truncate((data & !FLAG_BREAK) | FLAG_BREAK2);
    }


    /// JMP absolute.
    pub(crate) fn jmp_absolute(&mut self) -> (r: Result<(), Fault>)
        requires
            old(self).wf(),
        ensures
            final(self).wf(),
            final(self)@ == spec_jmp_absolute(old(self)@).0,
            r == spec_jmp_absolute(old(self)@).1,
    {
        let pc = self.program_counter;
        let target = self.bus.mem_read_u16(pc)?;
        self.program_counter = target;
        Ok(())
    }

    /// JMP indirect, with the page-boundary quirk.
    pub(crate) fn jmp_indirect(&mut self) -> (r: Result<(), Fault>)
        requires
            old(self).wf(),
        ensures
            final(self).wf(),
            final(self)@ == spec_jmp_indirect(old(self)@).0,
            r == spec_jmp_indirect(old(self)@).1,
    {
        let pc = self.program_counter;
        let ptr = self.bus.mem_read_u16(pc)?;
        let target = if ptr & 0x00FF == 0x00FF {
            let lo = self.bus.mem_read(ptr)?;
            let hi = self.bus.mem_read(ptr & 0xFF00)?;
            ((hi as u16) << 8) | (lo as u16)
        } else {
            self.bus.mem_read_u16(ptr)?
        };
        self.program_counter = target;
        Ok(())
    }

    /// JSR.
    pub(crate) fn jsr(&mut self) -> (r: Result<(), Fault>)
        requires
            old(self).wf(),
        ensures
            final(self).wf(),
            final(self)@ == spec_jsr(old(self)@).0,
            r == spec_jsr(old(self)@).1,
    {
        let return_addr = self.program_counter.wrapping_add(1);
        self.stack_push_u16(return_addr);
        let pc = self.program_counter;
        let target = self.bus.mem_read_u16(pc)?;
        self.program_counter = target;
        Ok(())
    }

    /// RTS.
    pub(crate) fn rts(&mut self)
        requires
            old(self).wf(),
        ensures
            final(self).wf(),
            final(self)@ == spec_rts(old(self)@),
    {
        let value = self.stack_pop_u16();
        self.program_counter = value.wrapping_add(1);
    }

    /// RTI.
    pub(crate) fn rti(&mut self)
        requires
            old(self).wf(),
        ensures
            final(self).wf(),
            final(self)@ == spec_rti(old(self)@),
    {
        let flags = self.stack_pop();
        self.status = crate::flags::CpuFlags::from_bits_truncate((flags & !FLAG_BREAK) | FLAG_BREAK2);
        let pc = self.stack_pop_u16();
        self.program_counter = pc;
    }

    /// SBC's core on a value already in hand.
    pub(crate) fn sub_from_register_a(&mut self, data: u8)
        ensures
            final(self)@ == spec_add_to_a(old(self)@, (255 - data) as u8),
    {
        self.add_to_register_a(255 - data);
    }

    /// AND into the accumulator.
    pub(crate) fn and_with_register_a(&mut self, data: u8)
        ensures
            final(self)@ == spec_set_a(old(self)@, data & old(self)@.a),
    {
        let value = data & self.register_a;
        self.set_register_a(value);
    }

    /// XOR into the accumulator.
    pub(crate) fn xor_with_register_a(&mut self, data: u8)
        ensures
            final(self)@ == spec_set_a(old(self)@, data ^ old(self)@.a),
    {
        let value = data ^ self.register_a;
        self.set_register_a(value);
    }

    /// OR into the accumulator.
    pub(crate) fn or_with_register_a(&mut self, data: u8)
        ensures
            final(self)@ == spec_set_a(old(self)@, data | old(self)@.a),
    {
        let value = data | self.register_a;
        self.set_register_a(value);
    }
}


/// DCP (undocumented): decrement the memory operand, then compare it
/// with the accumulator — but the carry flag is only ever set, never
/// cleared.
pub open spec fn spec_dcp(c: CpuV, mode: AddressingMode) -> (CpuV, Result<(), Fault>) {
    let (b1, r1) = spec_resolve(c, mode, c.pc);
    match r1 {
        Err(f) => (CpuV { bus: b1, ..c }, Err(f)),
        Ok(addr) => {
            let (b2, r2) = spec_bus_read(b1, addr);
            match r2 {
                Err(f) => (CpuV { bus: b2, ..c }, Err(f)),
                Ok(v) => {
                    let nv = v.wrapping_sub(1);
                    let (b3, r3) = spec_bus_write(b2, addr, nv);
                    match r3 {
                        Err(f) => (CpuV { bus: b3, ..c }, Err(f)),
                        Ok(()) => {
                            let st = if nv <= c.a {
                                c.status | FLAG_CARRY
                            } else {
                                c.status
                            };
                            (
                                CpuV {
                                    status: zn_update(st, c.a.wrapping_sub(nv)),
                                    bus: b3,
                                    ..c
                                },
                                Ok(()),
                            )
                        },
                    }
                },
            }
        },
    }
}

/// RLA (undocumented): rotate the memory operand left, then AND it into
/// the accumulator.
pub open spec fn spec_rla(c: CpuV, mode: AddressingMode) -> (CpuV, Result<(), Fault>) {
    let (c1, r) = spec_rol_mem(c, mode);
    match r {
        Err(f) => (c1, Err(f)),
        Ok(data) => (spec_set_a(c1, data & c1.a), Ok(())),
    }
}

/// SLO (undocumented): shift the memory operand left, then OR it into
/// the accumulator.
pub open spec fn spec_slo(c: CpuV, mode: AddressingMode) -> (CpuV, Result<(), Fault>) {
    let (c1, r) = spec_asl_mem(c, mode);
    match r {
        Err(f) => (c1, Err(f)),
        Ok(data) => (spec_set_a(c1, data | c1.a), Ok(())),
    }
}

/// SRE (undocumented): shift the memory operand right, then XOR it into
/// the accumulator.
pub open spec fn spec_sre(c: CpuV, mode: AddressingMode) -> (CpuV, Result<(), Fault>) {
    let (c1, r) = spec_lsr_mem(c, mode);
    match r {
        Err(f) => (c1, Err(f)),
        Ok(data) => (spec_set_a(c1, data ^ c1.a), Ok(())),
    }
}

/// RRA (undocumented): rotate the memory operand right, then add it
/// with carry into the accumulator.
pub open spec fn spec_rra(c: CpuV, mode: AddressingMode) -> (CpuV, Result<(), Fault>) {
    let (c1, r) = spec_ror_mem(c, mode);
    match r {
        Err(f) => (c1, Err(f)),
        Ok(data) => (spec_add_to_a(c1, data), Ok(())),
    }
}

/// ISB (undocumented): increment the memory operand, then subtract it
/// with carry from the accumulator.
pub open spec fn spec_isb(c: CpuV, mode: AddressingMode) -> (CpuV, Result<(), Fault>) {
    let (c1, r) = spec_inc_mem(c, mode);
    match r {
        Err(f) => (c1, Err(f)),
        Ok(data) => (spec_add_to_a(c1, (255 - data) as u8), Ok(())),
    }
}

/// AXS (undocumented): X takes (A AND X) minus the operand; the carry
/// is only ever set, never cleared.
pub open spec fn spec_axs(c: CpuV, mode: AddressingMode) -> (CpuV, Result<(), Fault>) {
    let (b, r) = spec_operand(c, mode);
    match r {
        Err(f) => (CpuV { bus: b, ..c }, Err(f)),
        Ok((addr, data)) => {
            let x_and_a = c.x & c.a;
            let result = x_and_a.wrapping_sub(data);
            let st = if data <= x_and_a {
                c.status | FLAG_CARRY
            } else {
                c.status
            };
            (
                CpuV { x: result, status: zn_update(st, result), bus: b, ..c },
                Ok(()),
            )
        },
    }
}

/// ARR (undocumented): AND the operand into the accumulator, rotate the
/// accumulator right, then take the carry from bit 6 and the overflow
/// from bits 5 and 6 of the result.
pub open spec fn spec_arr(c: CpuV, mode: AddressingMode) -> (CpuV, Result<(), Fault>) {
    let (b, r) = spec_operand(c, mode);
    match r {
        Err(f) => (CpuV { bus: b, ..c }, Err(f)),
        Ok((addr, data)) => {
            let c1 = spec_set_a(CpuV { bus: b, ..c }, data & c.a);
            let c2 = spec_ror_acc(c1);
            let result = c2.a;
            let bit_5 = (result >> 5) & 1;
            let bit_6 = (result >> 6) & 1;
            let st1 = if bit_6 == 1 {
                c2.status | FLAG_CARRY
            } else {
                c2.status & !FLAG_CARRY
            };
            let st2 = if bit_5 ^ bit_6 == 1 {
                st1 | FLAG_OVERFLOW
            } else {
                st1 & !FLAG_OVERFLOW
            };
            (CpuV { status: zn_update(st2, result), ..c2 }, Ok(()))
        },
    }
}

/// ANC (undocumented): AND the operand into the accumulator, then copy
/// the negative flag into the carry.
pub open spec fn spec_anc(c: CpuV, mode: AddressingMode) -> (CpuV, Result<(), Fault>) {
    let (b, r) = spec_operand(c, mode);
    match r {
        Err(f) => (CpuV { bus: b, ..c }, Err(f)),
        Ok((addr, data)) => {
            let c1 = spec_set_a(CpuV { bus: b, ..c }, data & c.a);
            let st = if c1.status & FLAG_NEGATIVE == FLAG_NEGATIVE {
                c1.status | FLAG_CARRY
            } else {
                c1.status & !FLAG_CARRY
            };
            (CpuV { status: st, ..c1 }, Ok(()))
        },
    }
}

/// ALR (undocumented): AND the operand into the accumulator, then shift
/// the accumulator right.
pub open spec fn spec_alr(c: CpuV, mode: AddressingMode) -> (CpuV, Result<(), Fault>) {
    let (b, r) = spec_operand(c, mode);
    match r {
        Err(f) => (CpuV { bus: b, ..c }, Err(f)),
        Ok((addr, data)) => (spec_lsr_acc(spec_set_a(CpuV { bus: b, ..c }, data & c.a)), Ok(())),
    }
}

/// The reading NOPs (undocumented): resolve and read the operand, then
/// drop it. The read's side effects on the bus still happen.
pub open spec fn spec_nop_read(c: CpuV, mode: AddressingMode) -> (CpuV, Result<(), Fault>) {
    let (b, r) = spec_operand(c, mode);
    match r {
        Err(f) => (CpuV { bus: b, ..c }, Err(f)),
        Ok((addr, data)) => (CpuV { bus: b, ..c }, Ok(())),
    }
}

/// LAX (undocumented): load the operand into the accumulator and X.
pub open spec fn spec_lax(c: CpuV, mode: AddressingMode) -> (CpuV, Result<(), Fault>) {
    let (b, r) = spec_operand(c, mode);
    match r {
        Err(f) => (CpuV { bus: b, ..c }, Err(f)),
        Ok((addr, data)) => {
            let c1 = spec_set_a(CpuV { bus: b, ..c }, data);
            (CpuV { x: c1.a, ..c1 }, Ok(()))
        },
    }
}

/// SAX (undocumented): store A AND X at the operand address; no flags
/// change.
pub open spec fn spec_sax(c: CpuV, mode: AddressingMode) -> (CpuV, Result<(), Fault>) {
    spec_store(c, mode, c.a & c.x)
}

/// LXA (undocumented, unstable): load the operand into the accumulator,
/// then transfer it to X.
pub open spec fn spec_lxa(c: CpuV, mode: AddressingMode) -> (CpuV, Result<(), Fault>) {
    let (c1, r) = spec_lda(c, mode);
    match r {
        Err(f) => (c1, Err(f)),
        Ok(()) => (
            CpuV { x: c1.a, status: zn_update(c1.status, c1.a), ..c1 },
            Ok(()),
        ),
    }
}

/// XAA (undocumented, unstable): the accumulator takes X, then ANDs the
/// operand.
pub open spec fn spec_xaa(c: CpuV, mode: AddressingMode) -> (CpuV, Result<(), Fault>) {
    let c1 = CpuV { a: c.x, status: zn_update(c.status, c.x), ..c };
    let (b, r) = spec_operand(c1, mode);
    match r {
        Err(f) => (CpuV { bus: b, ..c1 }, Err(f)),
        Ok((addr, data)) => (spec_set_a(CpuV { bus: b, ..c1 }, data & c1.a), Ok(())),
    }
}

/// LAS (undocumented, unstable): the operand AND the stack pointer
/// lands in the accumulator, X and the stack pointer alike.
pub open spec fn spec_las(c: CpuV, mode: AddressingMode) -> (CpuV, Result<(), Fault>) {
    let (b, r) = spec_operand(c, mode);
    match r {
        Err(f) => (CpuV { bus: b, ..c }, Err(f)),
        Ok((addr, data)) => {
            let v = data & c.sp;
            (
                CpuV { a: v, x: v, sp: v, status: zn_update(c.status, v), bus: b, ..c },
                Ok(()),
            )
        },
    }
}

/// TAS (undocumented, unstable): the stack pointer takes A AND X; one
/// above the high byte of the indexed target address, ANDed with the
/// new stack pointer, is stored there.
pub open spec fn spec_tas(c: CpuV) -> (CpuV, Result<(), Fault>) {
    let c1 = CpuV { sp: c.a & c.x, ..c };
    let (b1, r1) = spec_bus_read16(c1.bus, c1.pc);
    match r1 {
        Err(f) => (CpuV { bus: b1, ..c1 }, Err(f)),
        Ok(base) => {
            let address = base.wrapping_add(c1.y as u16);
            let data = ((address >> 8) as u8).wrapping_add(1) & c1.sp;
            let (b2, r2) = spec_bus_write(b1, address, data);
            (CpuV { bus: b2, ..c1 }, r2)
        },
    }
}

/// AHX with post-indexed addressing (undocumented, unstable): stores
/// A AND X AND the high byte of the indexed target address.
pub open spec fn spec_ahx_indirect(c: CpuV) -> (CpuV, Result<(), Fault>) {
    let (b1, r1) = spec_bus_read(c.bus, c.pc);
    match r1 {
        Err(f) => (CpuV { bus: b1, ..c }, Err(f)),
        Ok(pos) => {
            let (b2, r2) = spec_bus_read16(b1, pos as u16);
            match r2 {
                Err(f) => (CpuV { bus: b2, ..c }, Err(f)),
                Ok(base) => {
                    let address = base.wrapping_add(c.y as u16);
                    let data = c.a & c.x & ((address >> 8) as u8);
                    let (b3, r3) = spec_bus_write(b2, address, data);
                    (CpuV { bus: b3, ..c }, r3)
                },
            }
        },
    }
}

/// AHX with absolute-indexed addressing (undocumented, unstable).
pub open spec fn spec_ahx_absolute(c: CpuV) -> (CpuV, Result<(), Fault>) {
    let (b1, r1) = spec_bus_read16(c.bus, c.pc);
    match r1 {
        Err(f) => (CpuV { bus: b1, ..c }, Err(f)),
        Ok(base) => {
            let address = base.wrapping_add(c.y as u16);
            let data = c.a & c.x & ((address >> 8) as u8);
            let (b2, r2) = spec_bus_write(b1, address, data);
            (CpuV { bus: b2, ..c }, r2)
        },
    }
}

/// SHX (undocumented, unstable): stores X AND one above the high byte
/// of the Y-indexed target address.
pub open spec fn spec_shx(c: CpuV) -> (CpuV, Result<(), Fault>) {
    let (b1, r1) = spec_bus_read16(c.bus, c.pc);
    match r1 {
        Err(f) => (CpuV { bus: b1, ..c }, Err(f)),
        Ok(base) => {
            let address = base.wrapping_add(c.y as u16);
            let data = c.x & ((address >> 8) as u8).wrapping_add(1);
            let (b2, r2) = spec_bus_write(b1, address, data);
            (CpuV { bus: b2, ..c }, r2)
        },
    }
}

/// SHY (undocumented, unstable): stores Y AND one above the high byte
/// of the X-indexed target address.
pub open spec fn spec_shy(c: CpuV) -> (CpuV, Result<(), Fault>) {
    let (b1, r1) = spec_bus_read16(c.bus, c.pc);
    match r1 {
        Err(f) => (CpuV { bus: b1, ..c }, Err(f)),
        Ok(base) => {
            let address = base.wrapping_add(c.x as u16);
            let data = c.y & ((address >> 8) as u8).wrapping_add(1);
            let (b2, r2) = spec_bus_write(b1, address, data);
            (CpuV { bus: b2, ..c }, r2)
        },
    }
}

impl CPU {
    /// DCP.
    pub(crate) fn dcp(&mut self, mode: &AddressingMode) -> (r: Result<(), Fault>)
        requires
            old(self).wf(),
        ensures
            final(self).wf(),
            final(self)@ == spec_dcp(old(self)@, *mode).0,
            r == spec_dcp(old(self)@, *mode).1,
    {
        let addr = self.get_operand_address(mode)?;
        let mut data = self.bus.mem_read(addr)?;
        data = data.wrapping_sub(1);
        self.bus.mem_write(addr, data)?;
        if data <= self.register_a {
            self.status.insert(FLAG_CARRY);
        }
        self.update_zero_and_negative_flags(self.register_a.wrapping_sub(data));
        Ok(())
    }

    /// RLA.
    pub(crate) fn rla(&mut self, mode: &AddressingMode) -> (r: Result<(), Fault>)
        requires
            old(self).wf(),
        ensures
            final(self).wf(),
            final(self)@ == spec_rla(old(self)@, *mode).0,
            r == spec_rla(old(self)@, *mode).1,
    {
        let data = self.rol(mode)?;
        self.and_with_register_a(data);
        Ok(())
    }

    /// SLO.
    pub(crate) fn slo(&mut self, mode: &AddressingMode) -> (r: Result<(), Fault>)
        requires
            old(self).wf(),
        ensures
            final(self).wf(),
            final(self)@ == spec_slo(old(self)@, *mode).0,
            r == spec_slo(old(self)@, *mode).1,
    {
        let data = self.asl(mode)?;
        self.or_with_register_a(data);
        Ok(())
    }

    /// SRE.
    pub(crate) fn sre(&mut self, mode: &AddressingMode) -> (r: Result<(), Fault>)
        requires
            old(self).wf(),
        ensures
            final(self).wf(),
            final(self)@ == spec_sre(old(self)@, *mode).0,
            r == spec_sre(old(self)@, *mode).1,
    {
        let data = self.lsr(mode)?;
        self.xor_with_register_a(data);
        Ok(())
    }

    /// RRA.
    pub(crate) fn rra(&mut self, mode: &AddressingMode) -> (r: Result<(), Fault>)
        requires
            old(self).wf(),
        ensures
            final(self).wf(),
            final(self)@ == spec_rra(old(self)@, *mode).0,
            r == spec_rra(old(self)@, *mode).1,
    {
        let data = self.ror(mode)?;
        self.add_to_register_a(data);
        Ok(())
    }

    /// ISB.
    pub(crate) fn isb(&mut self, mode: &AddressingMode) -> (r: Result<(), Fault>)
        requires
            old(self).wf(),
        ensures
            final(self).wf(),
            final(self)@ == spec_isb(old(self)@, *mode).0,
            r == spec_isb(old(self)@, *mode).1,
    {
        let data = self.inc(mode)?;
        self.sub_from_register_a(data);
        Ok(())
    }

    /// AXS.
    pub(crate) fn axs(&mut self, mode: &AddressingMode) -> (r: Result<(), Fault>)
        requires
            old(self).wf(),
        ensures
            final(self).wf(),
            final(self)@ == spec_axs(old(self)@, *mode).0,
            r == spec_axs(old(self)@, *mode).1,
    {
        let (_addr, data) = self.operand(mode)?;
        let x_and_a = self.register_x & self.register_a;
        let result = x_and_a.wrapping_sub(data);
        if data <= x_and_a {
            self.status.insert(FLAG_CARRY);
        }
        self.update_zero_and_negative_flags(result);
        self.register_x = result;
        Ok(())
    }

    /// ARR.
    pub(crate) fn arr(&mut self, mode: &AddressingMode) -> (r: Result<(), Fault>)
        requires
            old(self).wf(),
        ensures
            final(self).wf(),
            final(self)@ == spec_arr(old(self)@, *mode).0,
            r == spec_arr(old(self)@, *mode).1,
    {
        let (_addr, data) = self.operand(mode)?;
        self.and_with_register_a(data);
        self.ror_accumulator();
        let result = self.register_a;
        let bit_5 = (result >> 5) & 1;
        let bit_6 = (result >> 6) & 1;
        if bit_6 == 1 {
            self.status.insert(FLAG_CARRY);
        } else {
            self.status.remove(FLAG_CARRY);
        }
        if bit_5 ^ bit_6 == 1 {
            self.status.insert(FLAG_OVERFLOW);
        } else {
            self.status.remove(FLAG_OVERFLOW);
        }
        self.update_zero_and_negative_flags(result);
        Ok(())
    }

    /// ANC.
    pub(crate) fn anc(&mut self, mode: &AddressingMode) -> (r: Result<(), Fault>)
        requires
            old(self).wf(),
        ensures
            final(self).wf(),
            final(self)@ == spec_anc(old(self)@, *mode).0,
            r == spec_anc(old(self)@, *mode).1,
    {
        let (_addr, data) = self.operand(mode)?;
        self.and_with_register_a(data);
        if self.status.contains(FLAG_NEGATIVE) {
            self.status.insert(FLAG_CARRY);
        } else {
            self.status.remove(FLAG_CARRY);
        }
        Ok(())
    }

    /// ALR.
    pub(crate) fn alr(&mut self, mode: &AddressingMode) -> (r: Result<(), Fault>)
        requires
            old(self).wf(),
        ensures
            final(self).wf(),
            final(self)@ == spec_alr(old(self)@, *mode).0,
            r == spec_alr(old(self)@, *mode).1,
    {
        let (_addr, data) = self.operand(mode)?;
        self.and_with_register_a(data);
        self.lsr_accumulator();
        Ok(())
    }

    /// The reading NOPs.
    pub(crate) fn nop_read(&mut self, mode: &AddressingMode) -> (r: Result<(), Fault>)
        requires
            old(self).wf(),
        ensures
            final(self).wf(),
            final(self)@ == spec_nop_read(old(self)@, *mode).0,
            r == spec_nop_read(old(self)@, *mode).1,
    {
        let (_addr, _data) = self.operand(mode)?;
        Ok(())
    }

    /// LAX.
    pub(crate) fn lax(&mut self, mode: &AddressingMode) -> (r: Result<(), Fault>)
        requires
            old(self).wf(),
        ensures
            final(self).wf(),
            final(self)@ == spec_lax(old(self)@, *mode).0,
            r == spec_lax(old(self)@, *mode).1,
    {
        let (_addr, data) = self.operand(mode)?;
        self.set_register_a(data);
        self.register_x = self.register_a;
        Ok(())
    }

    /// SAX.
    pub(crate) fn sax(&mut self, mode: &AddressingMode) -> (r: Result<(), Fault>)
        requires
            old(self).wf(),
        ensures
            final(self).wf(),
            final(self)@ == spec_sax(old(self)@, *mode).0,
            r == spec_sax(old(self)@, *mode).1,
    {
        let data = self.register_a & self.register_x;
        let addr = self.get_operand_address(mode)?;
        self.bus.mem_write(addr, data)
    }

    /// LXA.
    pub(crate) fn lxa(&mut self, mode: &AddressingMode) -> (r: Result<(), Fault>)
        requires
            old(self).wf(),
        ensures
            final(self).wf(),
            final(self)@ == spec_lxa(old(self)@, *mode).0,
            r == spec_lxa(old(self)@, *mode).1,
    {
        self.lda(mode)?;
        self.tax();
        Ok(())
    }

    /// XAA.
    pub(crate) fn xaa(&mut self, mode: &AddressingMode) -> (r: Result<(), Fault>)
        requires
            old(self).wf(),
        ensures
            final(self).wf(),
            final(self)@ == spec_xaa(old(self)@, *mode).0,
            r == spec_xaa(old(self)@, *mode).1,
    {
        self.register_a = self.register_x;
        self.update_zero_and_negative_flags(self.register_a);
        let (_addr, data) = self.operand(mode)?;
        self.and_with_register_a(data);
        Ok(())
    }

    /// LAS.
    pub(crate) fn las(&mut self, mode: &AddressingMode) -> (r: Result<(), Fault>)
        requires
            old(self).wf(),
        ensures
            final(self).wf(),
            final(self)@ == spec_las(old(self)@, *mode).0,
            r == spec_las(old(self)@, *mode).1,
    {
        let (_addr, data) = self.operand(mode)?;
        let value = data & self.stack_pointer;
        self.register_a = value;
        self.register_x = value;
        self.stack_pointer = value;
        self.update_zero_and_negative_flags(value);
        Ok(())
    }

    /// TAS.
    pub(crate) fn tas(&mut self) -> (r: Result<(), Fault>)
        requires
            old(self).wf(),
        ensures
            final(self).wf(),
            final(self)@ == spec_tas(old(self)@).0,
            r == spec_tas(old(self)@).1,
    {
        self.stack_pointer = self.register_a & self.register_x;
        let pc = self.program_counter;
        let base = self.bus.mem_read_u16(pc)?;
        let address = base.wrapping_add(self.register_y as u16);
        let data = ((address >> 8) as u8).wrapping_add(1) & self.stack_pointer;
        self.bus.mem_write(address, data)
    }

    /// AHX, post-indexed.
    pub(crate) fn ahx_indirect(&mut self) -> (r: Result<(), Fault>)
        requires
            old(self).wf(),
        ensures
            final(self).wf(),
            final(self)@ == spec_ahx_indirect(old(self)@).0,
            r == spec_ahx_indirect(old(self)@).1,
    {
        let pc = self.program_counter;
        let pos = self.bus.mem_read(pc)?;
        let base = self.bus.mem_read_u16(pos as u16)?;
        let address = base.wrapping_add(self.register_y as u16);
        let data = self.register_a & self.register_x & ((address >> 8) as u8);
        self.bus.mem_write(address, data)
    }

    /// AHX, absolute-indexed.
    pub(crate) fn ahx_absolute(&mut self) -> (r: Result<(), Fault>)
        requires
            old(self).wf(),
        ensures
            final(self).wf(),
            final(self)@ == spec_ahx_absolute(old(self)@).0,
            r == spec_ahx_absolute(old(self)@).1,
    {
        let pc = self.program_counter;
        let base = self.bus.mem_read_u16(pc)?;
        let address = base.wrapping_add(self.register_y as u16);
        let data = self.register_a & self.register_x & ((address >> 8) as u8);
        self.bus.mem_write(address, data)
    }

    /// SHX.
    pub(crate) fn shx(&mut self) -> (r: Result<(), Fault>)
        requires
            old(self).wf(),
        ensures
            final(self).wf(),
            final(self)@ == spec_shx(old(self)@).0,
            r == spec_shx(old(self)@).1,
    {
        let pc = self.program_counter;
        let base = self.bus.mem_read_u16(pc)?;
        let address = base.wrapping_add(self.register_y as u16);
        let data = self.register_x & ((address >> 8) as u8).wrapping_add(1);
        self.bus.mem_write(address, data)
    }

    /// SHY.
    pub(crate) fn shy(&mut self) -> (r: Result<(), Fault>)
        requires
            old(self).wf(),
        ensures
            final(self).wf(),
            final(self)@ == spec_shy(old(self)@).0,
            r == spec_shy(old(self)@).1,
    {
        let pc = self.program_counter;
        let base = self.bus.mem_read_u16(pc)?;
        let address = base.wrapping_add(self.register_x as u16);
        let data = self.register_y & ((address >> 8) as u8).wrapping_add(1);
        self.bus.mem_write(address, data)
    }
}

} // verus!
