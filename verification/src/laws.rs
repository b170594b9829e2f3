//! The laws of the machine: properties that hold of every state, proved
//! once and for all over the spec functions the contracts use.

use vstd::prelude::*;
use crate::bus::BusV;
use crate::bus::spec_bus_read;
use crate::bus::spec_bus_read16;
use crate::cpu::CpuV;
use crate::cpu::spec_add_to_a;
use crate::cpu::spec_pop16;
use crate::cpu::spec_push;
use crate::cpu::spec_push16;
use crate::cpu::stack_index;
use crate::cpu::instructions::spec_jmp_indirect;
use crate::cpu::instructions::spec_php;
use crate::cpu::instructions::spec_plp;
use crate::flags::FLAG_BREAK;
use crate::flags::FLAG_BREAK2;
use crate::flags::FLAG_CARRY;
use crate::flags::FLAG_NEGATIVE;
use crate::flags::FLAG_ZERO;
use crate::flags::zn_update;

verus! {

/// Every arithmetic add leaves `(a + operand + carry-in) mod 256` in the
/// accumulator, and sets the carry flag out exactly when
/// `a + operand + carry-in` exceeds 255.
pub proof fn lemma_add_sum_and_carry(c: CpuV, data: u8)
    ensures
        ({
            let carry_in: int = if c.status & FLAG_CARRY == FLAG_CARRY {
                1
            } else {
                0
            };
            &&& spec_add_to_a(c, data).a == (c.a + data + carry_in) % 256
            &&& (spec_add_to_a(c, data).status & FLAG_CARRY == FLAG_CARRY) == (c.a + data + carry_in
                > 255)
        }),
{
    let carry_in: int = if c.status & FLAG_CARRY == FLAG_CARRY {
        1
    } else {
        0
    };
    let sum = c.a + data + carry_in;
    let result: u8 = (sum % 0x100) as u8;
    let with_carry: u8 = if sum > 0xFF {
        c.status | FLAG_CARRY
    } else {
        c.status & !FLAG_CARRY
    };
    let final_status = spec_add_to_a(c, data).status;
    assert(final_status == zn_update(
        if (data ^ result) & (result ^ c.a) & 0x80 != 0 {
            with_carry | 0x40
        } else {
            with_carry & !0x40
        },
        result,
    ));
    // The zero/negative and overflow updates touch bits 1, 6 and 7
    // only, so bit 0 — the carry — survives them.
    lemma_zn_keeps_carry(with_carry, result);
    let st = c.status;
    assert(((st | 0x01u8) & 0x01 == 0x01) && ((st & !0x01u8) & 0x01 == 0x00)) by (bit_vector);
    assert(final_status & 0x01 == with_carry & 0x01);
}

proof fn lemma_zn_keeps_carry(st: u8, v: u8)
    ensures
        (zn_update(st | 0x40, v) & 0x01) == (st & 0x01),
        (zn_update(st & !0x40, v) & 0x01) == (st & 0x01),
{
    let a = st | 0x40;
    let b = st & !0x40;
    assert(((a | 0x02u8) | 0x80) & 0x01 == st & 0x01 && ((a | 0x02u8) & !0x80) & 0x01 == st & 0x01
        && ((a & !0x02u8) | 0x80) & 0x01 == st & 0x01 && ((a & !0x02u8) & !0x80) & 0x01 == st
        & 0x01) by (bit_vector)
        requires
            a == st | 0x40,
    ;
    assert(((b | 0x02u8) | 0x80) & 0x01 == st & 0x01 && ((b | 0x02u8) & !0x80) & 0x01 == st & 0x01
        && ((b & !0x02u8) | 0x80) & 0x01 == st & 0x01 && ((b & !0x02u8) & !0x80) & 0x01 == st
        & 0x01) by (bit_vector)
        requires
            b == st & !0x40,
    ;
}

/// After the shared flag-update rule, the zero flag stands exactly when
/// the result byte is 0, and the negative flag exactly when the result
/// byte's bit 7 is set — whatever the flags held before.
pub proof fn lemma_zero_negative_rule(status: u8, value: u8)
    ensures
        (zn_update(status, value) & FLAG_ZERO == FLAG_ZERO) == (value == 0),
        (zn_update(status, value) & FLAG_NEGATIVE == FLAG_NEGATIVE) == (value & 0x80 != 0),
{
    let with_zero = if value == 0 {
        status | FLAG_ZERO
    } else {
        status & !FLAG_ZERO
    };
    assert((status | 0x02u8) & 0x02 == 0x02 && (status & !0x02u8) & 0x02 == 0
        && ((status | 0x02u8) | 0x80) & 0x02 == 0x02 && ((status | 0x02u8) & !0x80) & 0x02 == 0x02
        && ((status & !0x02u8) | 0x80) & 0x02 == 0 && ((status & !0x02u8) & !0x80) & 0x02 == 0)
        by (bit_vector);
    assert((with_zero | 0x80u8) & 0x80 == 0x80 && (with_zero & !0x80u8) & 0x80 == 0)
        by (bit_vector);
}

/// Pushing a 16-bit value and popping it returns the same value, with
/// the stack pointer back where it was; only the two stack bytes in RAM
/// have changed.
pub proof fn lemma_push16_pop16_round_trip(c: CpuV, value: u16)
    requires
        c.bus.ram.len() == 0x800,
    ensures
        spec_pop16(spec_push16(c, value)).1 == value,
        spec_pop16(spec_push16(c, value)).0 == (CpuV {
            bus: BusV {
                ram: c.bus.ram.update(stack_index(c.sp), (value >> 8) as u8).update(
                    stack_index(c.sp.wrapping_sub(1)),
                    (value & 0xFF) as u8,
                ),
                ..c.bus
            },
            ..c
        }),
{
    let hi: u8 = (value >> 8) as u8;
    let lo: u8 = (value & 0xFF) as u8;
    let sp = c.sp;
    assert(sp.wrapping_sub(1).wrapping_add(1) == sp);
    assert(sp.wrapping_sub(1).wrapping_sub(1).wrapping_add(1) == sp.wrapping_sub(1));
    assert(stack_index(sp) != stack_index(sp.wrapping_sub(1)));
    assert(((hi as u16) << 8) | (lo as u16) == value) by (bit_vector)
        requires
            hi == (value >> 8) as u8 && lo == (value & 0xFF) as u8,
    ;
}

/// Pushing the flags and popping them hands the same flags back,
/// except that break reads back low and its unused duplicate reads back
/// high, whatever they were.
pub proof fn lemma_php_plp_round_trip(c: CpuV)
    requires
        c.bus.ram.len() == 0x800,
    ensures
        spec_plp(spec_php(c)).status == (c.status & !FLAG_BREAK) | FLAG_BREAK2,
        spec_plp(spec_php(c)) == (CpuV {
            status: (c.status & !FLAG_BREAK) | FLAG_BREAK2,
            bus: BusV {
                ram: c.bus.ram.update(
                    stack_index(c.sp),
                    c.status | FLAG_BREAK | FLAG_BREAK2,
                ),
                ..c.bus
            },
            ..c
        }),
{
    assert(c.sp.wrapping_sub(1).wrapping_add(1) == c.sp);
    let st = c.status;
    assert((((st | 0x10u8) | 0x20) & !0x10) | 0x20 == (st & !0x10) | 0x20) by (bit_vector);
}

/// The machine after pushing every byte of `values` in turn.
pub open spec fn spec_push_all(c: CpuV, values: Seq<u8>) -> CpuV
    decreases values.len(),
{
    if values.len() == 0 {
        c
    } else {
        spec_push_all(spec_push(c, values[0]), values.skip(1))
    }
}

/// After any `n` pushes the stack pointer stands `n` lower, modulo 256:
/// in particular 256 pushes bring it back exactly — from 0xFD to 0xFD.
pub proof fn lemma_push_wraps_stack_pointer(c: CpuV, values: Seq<u8>)
    ensures
        spec_push_all(c, values).sp == ((c.sp - values.len()) % 256) as u8,
    decreases values.len(),
{
    if values.len() == 0 {
        assert((c.sp - 0) % 256 == c.sp);
    } else {
        let c1 = spec_push(c, values[0]);
        lemma_push_wraps_stack_pointer(c1, values.skip(1));
        assert(c1.sp == c.sp.wrapping_sub(1));
        assert((c.sp.wrapping_sub(1) - (values.len() - 1)) % 256 == (c.sp - values.len()) % 256)
            by {
            if c.sp >= 1 {
                assert(c.sp.wrapping_sub(1) == c.sp - 1);
            } else {
                assert(c.sp.wrapping_sub(1) == c.sp + 255);
                lemma_mod_shift(c.sp - values.len(), 256);
            }
        }
    }
}

/// Adding one full modulus to the dividend leaves the remainder alone.
proof fn lemma_mod_shift(x: int, m: int)
    requires
        m > 0,
    ensures
        (x + m) % m == x % m,
{
    vstd::arithmetic::div_mod::lemma_mod_add_multiples_vanish(x, m);
}

/// An indirect jump through a pointer whose low byte is 0xFF takes its
/// high byte from the start of the same page — address `ptr & 0xFF00` —
/// not from the next page.
pub proof fn lemma_jmp_indirect_page_quirk(c: CpuV, ptr: u16, lo: u8, hi: u8)
    requires
        spec_bus_read16(c.bus, c.pc).1 == Ok::<u16, crate::fault::Fault>(ptr),
        ptr & 0x00FF == 0x00FF,
        ({
            let b1 = spec_bus_read16(c.bus, c.pc).0;
            &&& spec_bus_read(b1, ptr).1 == Ok::<u8, crate::fault::Fault>(lo)
            &&& spec_bus_read(spec_bus_read(b1, ptr).0, ptr & 0xFF00).1 == Ok::<
                u8,
                crate::fault::Fault,
            >(hi)
        }),
    ensures
        spec_jmp_indirect(c).1 == Ok::<(), crate::fault::Fault>(()),
        spec_jmp_indirect(c).0.pc == ((hi as u16) << 8) | (lo as u16),
{
}

/// A read of an unmapped address returns 0 and leaves the whole machine
/// unchanged — so reading it twice returns 0 both times.
pub proof fn lemma_unmapped_read_idempotent(b: BusV, address: u16)
    requires
        0x4000 <= address < 0x8000,
        address != 0x4014,
    ensures
        spec_bus_read(b, address) == (b, Ok::<u8, crate::fault::Fault>(0)),
        spec_bus_read(spec_bus_read(b, address).0, address).1 == Ok::<u8, crate::fault::Fault>(0),
{
}

} // verus!
