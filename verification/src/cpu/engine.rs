//! The fetch-decode-execute engine.
//!
//! `spec_step` is the mathematical meaning of one instruction: fetch the
//! opcode byte at the program counter, halt on the break instruction,
//! otherwise dispatch on the byte and advance the program counter by the
//! instruction's remaining length unless the instruction moved it
//! itself. `CPU::step` is proved to follow it exactly, and the run loops
//! are proved to walk chains of `spec_step`.

use vstd::prelude::*;
use crate::bus::Mem;
use crate::bus::spec_bus_read;
use crate::cpu::CPU;
use crate::cpu::CpuV;
use crate::cpu::cpu_wf;
use crate::cpu::spec_load;
use crate::cpu::instructions::spec_php;
use crate::cpu::instructions::spec_pla;
use crate::cpu::instructions::spec_plp;
use crate::cpu::spec_push;
use crate::cpu::spec_reset;
use crate::cpu::instructions::spec_adc;
use crate::cpu::instructions::spec_alr;
use crate::cpu::instructions::spec_anc;
use crate::cpu::instructions::spec_and;
use crate::cpu::instructions::spec_arr;
use crate::cpu::instructions::spec_asl_acc;
use crate::cpu::instructions::spec_asl_mem;
use crate::cpu::instructions::spec_axs;
use crate::cpu::instructions::spec_ahx_absolute;
use crate::cpu::instructions::spec_ahx_indirect;
use crate::cpu::instructions::spec_bit;
use crate::cpu::instructions::spec_branch;
use crate::cpu::instructions::spec_compare;
use crate::cpu::instructions::spec_dcp;
use crate::cpu::instructions::spec_dec_mem;
use crate::cpu::instructions::spec_eor;
use crate::cpu::instructions::spec_inc_mem;
use crate::cpu::instructions::spec_isb;
use crate::cpu::instructions::spec_jmp_absolute;
use crate::cpu::instructions::spec_jmp_indirect;
use crate::cpu::instructions::spec_jsr;
use crate::cpu::instructions::spec_las;
use crate::cpu::instructions::spec_lax;
use crate::cpu::instructions::spec_lda;
use crate::cpu::instructions::spec_ldx;
use crate::cpu::instructions::spec_ldy;
use crate::cpu::instructions::spec_lsr_acc;
use crate::cpu::instructions::spec_lsr_mem;
use crate::cpu::instructions::spec_lxa;
use crate::cpu::instructions::spec_nop_read;
use crate::cpu::instructions::spec_ora;
use crate::cpu::instructions::spec_rla;
use crate::cpu::instructions::spec_rol_acc;
use crate::cpu::instructions::spec_rol_mem;
use crate::cpu::instructions::spec_ror_acc;
use crate::cpu::instructions::spec_ror_mem;
use crate::cpu::instructions::spec_rra;
use crate::cpu::instructions::spec_rti;
use crate::cpu::instructions::spec_rts;
use crate::cpu::instructions::spec_sax;
use crate::cpu::instructions::spec_sbc;
use crate::cpu::instructions::spec_shx;
use crate::cpu::instructions::spec_shy;
use crate::cpu::instructions::spec_slo;
use crate::cpu::instructions::spec_sre;
use crate::cpu::instructions::spec_store;
use crate::cpu::instructions::spec_tas;
use crate::cpu::instructions::spec_xaa;
use crate::fault::Fault;
use crate::flags::FLAG_CARRY;
use crate::flags::FLAG_DECIMAL_MODE;
use crate::flags::FLAG_INTERRUPT_DISABLE;
use crate::flags::FLAG_NEGATIVE;
use crate::flags::FLAG_OVERFLOW;
use crate::flags::FLAG_ZERO;
use crate::flags::zn_update;
use crate::opcodes::lookup;
use crate::opcodes::opcode_len;
use crate::opcodes::opcode_mode;

verus! {

/// The result of one abstract step: the machine afterwards, the fault
/// if the step was fatal, and whether the break instruction halted the
/// run.
#[verifier::ext_equal]
pub ghost struct StepResult {
    pub cpu: CpuV,
    pub fault: Option<Fault>,
    pub halted: bool,
}

/// Forgets the byte a combined read-modify-write instruction hands
/// back, keeping the fault.
pub open spec fn drop_value(r: Result<u8, Fault>) -> Result<(), Fault> {
    match r {
        Ok(v) => Ok(()),
        Err(f) => Err(f),
    }
}

/// The effect of the already-fetched instruction `code` on the machine
/// `c`, whose program counter stands right after the opcode byte. The
/// break instruction never reaches this dispatch.
#[verifier::opaque]
pub open spec fn spec_execute(c: CpuV, code: u8) -> (CpuV, Result<(), Fault>) {
    match code {
        0x69 | 0x65 | 0x75 | 0x6d | 0x7d | 0x79 | 0x61 | 0x71 => spec_adc(c, opcode_mode(code)),
        0xe9 | 0xe5 | 0xf5 | 0xed | 0xfd | 0xf9 | 0xe1 | 0xf1 => spec_sbc(c, opcode_mode(code)),
        0x29 | 0x25 | 0x35 | 0x2d | 0x3d | 0x39 | 0x21 | 0x31 => spec_and(c, opcode_mode(code)),
        0x49 | 0x45 | 0x55 | 0x4d | 0x5d | 0x59 | 0x41 | 0x51 => spec_eor(c, opcode_mode(code)),
        0x09 | 0x05 | 0x15 | 0x0d | 0x1d | 0x19 | 0x01 | 0x11 => spec_ora(c, opcode_mode(code)),
        0x0a => (spec_asl_acc(c), Ok(())),
        0x06 | 0x16 | 0x0e | 0x1e => {
            let (c1, r) = spec_asl_mem(c, opcode_mode(code));
            (c1, drop_value(r))
        },
        0x4a => (spec_lsr_acc(c), Ok(())),
        0x46 | 0x56 | 0x4e | 0x5e => {
            let (c1, r) = spec_lsr_mem(c, opcode_mode(code));
            (c1, drop_value(r))
        },
        0x2a => (spec_rol_acc(c), Ok(())),
        0x26 | 0x36 | 0x2e | 0x3e => {
            let (c1, r) = spec_rol_mem(c, opcode_mode(code));
            (c1, drop_value(r))
        },
        0x6a => (spec_ror_acc(c), Ok(())),
        0x66 | 0x76 | 0x6e | 0x7e => {
            let (c1, r) = spec_ror_mem(c, opcode_mode(code));
            (c1, drop_value(r))
        },
        0xe6 | 0xf6 | 0xee | 0xfe => {
            let (c1, r) = spec_inc_mem(c, opcode_mode(code));
            (c1, drop_value(r))
        },
        0xe8 => (CpuV { x: c.x.wrapping_add(1), status: zn_update(c.status, c.x.wrapping_add(1)), ..c }, Ok(())),
        0xc8 => (CpuV { y: c.y.wrapping_add(1), status: zn_update(c.status, c.y.wrapping_add(1)), ..c }, Ok(())),
        0xc6 | 0xd6 | 0xce | 0xde => {
            let (c1, r) = spec_dec_mem(c, opcode_mode(code));
            (c1, drop_value(r))
        },
        0xca => (CpuV { x: c.x.wrapping_sub(1), status: zn_update(c.status, c.x.wrapping_sub(1)), ..c }, Ok(())),
        0x88 => (CpuV { y: c.y.wrapping_sub(1), status: zn_update(c.status, c.y.wrapping_sub(1)), ..c }, Ok(())),
        0xc9 | 0xc5 | 0xd5 | 0xcd | 0xdd | 0xd9 | 0xc1 | 0xd1 => spec_compare(c, opcode_mode(code), c.a),
        0xc0 | 0xc4 | 0xcc => spec_compare(c, opcode_mode(code), c.y),
        0xe0 | 0xe4 | 0xec => spec_compare(c, opcode_mode(code), c.x),
        0x4c => spec_jmp_absolute(c),
        0x6c => spec_jmp_indirect(c),
        0x20 => spec_jsr(c),
        0x60 => (spec_rts(c), Ok(())),
        0x40 => (spec_rti(c), Ok(())),
        0xd0 => spec_branch(c, !(c.status & FLAG_ZERO == FLAG_ZERO)),
        0x70 => spec_branch(c, c.status & FLAG_OVERFLOW == FLAG_OVERFLOW),
        0x50 => spec_branch(c, !(c.status & FLAG_OVERFLOW == FLAG_OVERFLOW)),
        0x30 => spec_branch(c, c.status & FLAG_NEGATIVE == FLAG_NEGATIVE),
        0xf0 => spec_branch(c, c.status & FLAG_ZERO == FLAG_ZERO),
        0xb0 => spec_branch(c, c.status & FLAG_CARRY == FLAG_CARRY),
        0x90 => spec_branch(c, !(c.status & FLAG_CARRY == FLAG_CARRY)),
        0x10 => spec_branch(c, !(c.status & FLAG_NEGATIVE == FLAG_NEGATIVE)),
        0x24 | 0x2c => spec_bit(c, opcode_mode(code)),
        0xa9 | 0xa5 | 0xb5 | 0xad | 0xbd | 0xb9 | 0xa1 | 0xb1 => spec_lda(c, opcode_mode(code)),
        0xa2 | 0xa6 | 0xb6 | 0xae | 0xbe => spec_ldx(c, opcode_mode(code)),
        0xa0 | 0xa4 | 0xb4 | 0xac | 0xbc => spec_ldy(c, opcode_mode(code)),
        0x85 | 0x95 | 0x8d | 0x9d | 0x99 | 0x81 | 0x91 => spec_store(c, opcode_mode(code), c.a),
        0x86 | 0x96 | 0x8e => spec_store(c, opcode_mode(code), c.x),
        0x84 | 0x94 | 0x8c => spec_store(c, opcode_mode(code), c.y),
        0xd8 => (CpuV { status: c.status & !FLAG_DECIMAL_MODE, ..c }, Ok(())),
        0x58 => (CpuV { status: c.status & !FLAG_INTERRUPT_DISABLE, ..c }, Ok(())),
        0xb8 => (CpuV { status: c.status & !FLAG_OVERFLOW, ..c }, Ok(())),
        0x18 => (CpuV { status: c.status & !FLAG_CARRY, ..c }, Ok(())),
        0x38 => (CpuV { status: c.status | FLAG_CARRY, ..c }, Ok(())),
        0x78 => (CpuV { status: c.status | FLAG_INTERRUPT_DISABLE, ..c }, Ok(())),
        0xf8 => (CpuV { status: c.status | FLAG_DECIMAL_MODE, ..c }, Ok(())),
        0xaa => (CpuV { x: c.a, status: zn_update(c.status, c.a), ..c }, Ok(())),
        0xa8 => (CpuV { y: c.a, status: zn_update(c.status, c.a), ..c }, Ok(())),
        0xba => (CpuV { x: c.sp, status: zn_update(c.status, c.sp), ..c }, Ok(())),
        0x8a => (CpuV { a: c.x, status: zn_update(c.status, c.x), ..c }, Ok(())),
        0x9a => (CpuV { sp: c.x, ..c }, Ok(())),
        0x98 => (CpuV { a: c.y, status: zn_update(c.status, c.y), ..c }, Ok(())),
        0x48 => (spec_push(c, c.a), Ok(())),
        0x68 => (spec_pla(c), Ok(())),
        0x08 => (spec_php(c), Ok(())),
        0x28 => (spec_plp(c), Ok(())),
        0xc7 | 0xd7 | 0xcf | 0xdf | 0xdb | 0xd3 | 0xc3 => spec_dcp(c, opcode_mode(code)),
        0x27 | 0x37 | 0x2f | 0x3f | 0x3b | 0x33 | 0x23 => spec_rla(c, opcode_mode(code)),
        0x07 | 0x17 | 0x0f | 0x1f | 0x1b | 0x03 | 0x13 => spec_slo(c, opcode_mode(code)),
        0x47 | 0x57 | 0x4f | 0x5f | 0x5b | 0x43 | 0x53 => spec_sre(c, opcode_mode(code)),
        0x80 | 0x82 | 0x89 | 0xc2 | 0xe2 => (c, Ok(())),
        0xcb => spec_axs(c, opcode_mode(code)),
        0x6b => spec_arr(c, opcode_mode(code)),
        0xeb => spec_sbc(c, opcode_mode(code)),
        0x0b | 0x2b => spec_anc(c, opcode_mode(code)),
        0x4b => spec_alr(c, opcode_mode(code)),
        0x04 | 0x44 | 0x64 | 0x14 | 0x34 | 0x54 | 0x74 | 0xd4 | 0xf4 | 0x0c | 0x1c | 0x3c | 0x5c | 0x7c | 0xdc | 0xfc => spec_nop_read(c, opcode_mode(code)),
        0x67 | 0x77 | 0x6f | 0x7f | 0x7b | 0x63 | 0x73 => spec_rra(c, opcode_mode(code)),
        0xe7 | 0xf7 | 0xef | 0xff | 0xfb | 0xe3 | 0xf3 => spec_isb(c, opcode_mode(code)),
        0x02 | 0x12 | 0x22 | 0x32 | 0x42 | 0x52 | 0x62 | 0x72 | 0x92 | 0xb2 | 0xd2 | 0xf2 => (c, Ok(())),
        0x1a | 0x3a | 0x5a | 0x7a | 0xda | 0xfa => (c, Ok(())),
        0xa7 | 0xb7 | 0xaf | 0xbf | 0xa3 | 0xb3 => spec_lax(c, opcode_mode(code)),
        0x87 | 0x97 | 0x8f | 0x83 => spec_sax(c, opcode_mode(code)),
        0xab => spec_lxa(c, opcode_mode(code)),
        0x8b => spec_xaa(c, opcode_mode(code)),
        0xbb => spec_las(c, opcode_mode(code)),
        0x9b => spec_tas(c),
        0x93 => spec_ahx_indirect(c),
        0x9f => spec_ahx_absolute(c),
        0x9e => spec_shx(c),
        0x9c => spec_shy(c),
        0xea => (c, Ok(())),
        _ => (c, Ok(())),
    }
}

#[verifier::rlimit(100)]
proof fn lemma_execute_no_step_limit_q0(c: CpuV, code: u8)
    requires
        code < 0x40,
    ensures
        spec_execute(c, code).1 != Err::<(), Fault>(Fault::StepLimit),
{
    reveal(spec_execute);
    assert forall|b: crate::bus::BusV, a: u16|
        spec_bus_read(b, a).1 != Err::<u8, Fault>(Fault::StepLimit) by {
        crate::bus::lemma_bus_read_no_step_limit(b, a);
    }
    assert forall|b: crate::bus::BusV, a: u16|
        crate::bus::spec_bus_read16(b, a).1 != Err::<u16, Fault>(Fault::StepLimit) by {
        crate::bus::lemma_bus_read16_no_step_limit(b, a);
    }
    assert forall|b: crate::bus::BusV, a: u16, d: u8|
        crate::bus::spec_bus_write(b, a, d).1 != Err::<(), Fault>(Fault::StepLimit) by {
        crate::bus::lemma_bus_write_no_step_limit(b, a, d);
    }
    assert forall|cc: CpuV, m: crate::opcodes::AddressingMode, base: u16|
        crate::cpu::spec_resolve(cc, m, base).1 != Err::<u16, Fault>(Fault::StepLimit) by {
        crate::cpu::lemma_resolve_no_step_limit(cc, m, base);
    }
    assert forall|cc: CpuV, m: crate::opcodes::AddressingMode|
        crate::cpu::spec_operand(cc, m).1 != Err::<(u16, u8), Fault>(Fault::StepLimit) by {
        crate::cpu::lemma_operand_no_step_limit(cc, m);
    }
}

#[verifier::rlimit(100)]
proof fn lemma_execute_no_step_limit_q1(c: CpuV, code: u8)
    requires
        0x40 <= code < 0x80,
    ensures
        spec_execute(c, code).1 != Err::<(), Fault>(Fault::StepLimit),
{
    reveal(spec_execute);
    assert forall|b: crate::bus::BusV, a: u16|
        spec_bus_read(b, a).1 != Err::<u8, Fault>(Fault::StepLimit) by {
        crate::bus::lemma_bus_read_no_step_limit(b, a);
    }
    assert forall|b: crate::bus::BusV, a: u16|
        crate::bus::spec_bus_read16(b, a).1 != Err::<u16, Fault>(Fault::StepLimit) by {
        crate::bus::lemma_bus_read16_no_step_limit(b, a);
    }
    assert forall|b: crate::bus::BusV, a: u16, d: u8|
        crate::bus::spec_bus_write(b, a, d).1 != Err::<(), Fault>(Fault::StepLimit) by {
        crate::bus::lemma_bus_write_no_step_limit(b, a, d);
    }
    assert forall|cc: CpuV, m: crate::opcodes::AddressingMode, base: u16|
        crate::cpu::spec_resolve(cc, m, base).1 != Err::<u16, Fault>(Fault::StepLimit) by {
        crate::cpu::lemma_resolve_no_step_limit(cc, m, base);
    }
    assert forall|cc: CpuV, m: crate::opcodes::AddressingMode|
        crate::cpu::spec_operand(cc, m).1 != Err::<(u16, u8), Fault>(Fault::StepLimit) by {
        crate::cpu::lemma_operand_no_step_limit(cc, m);
    }
}

#[verifier::rlimit(100)]
proof fn lemma_execute_no_step_limit_q2(c: CpuV, code: u8)
    requires
        0x80 <= code < 0xc0,
    ensures
        spec_execute(c, code).1 != Err::<(), Fault>(Fault::StepLimit),
{
    reveal(spec_execute);
    assert forall|b: crate::bus::BusV, a: u16|
        spec_bus_read(b, a).1 != Err::<u8, Fault>(Fault::StepLimit) by {
        crate::bus::lemma_bus_read_no_step_limit(b, a);
    }
    assert forall|b: crate::bus::BusV, a: u16|
        crate::bus::spec_bus_read16(b, a).1 != Err::<u16, Fault>(Fault::StepLimit) by {
        crate::bus::lemma_bus_read16_no_step_limit(b, a);
    }
    assert forall|b: crate::bus::BusV, a: u16, d: u8|
        crate::bus::spec_bus_write(b, a, d).1 != Err::<(), Fault>(Fault::StepLimit) by {
        crate::bus::lemma_bus_write_no_step_limit(b, a, d);
    }
    assert forall|cc: CpuV, m: crate::opcodes::AddressingMode, base: u16|
        crate::cpu::spec_resolve(cc, m, base).1 != Err::<u16, Fault>(Fault::StepLimit) by {
        crate::cpu::lemma_resolve_no_step_limit(cc, m, base);
    }
    assert forall|cc: CpuV, m: crate::opcodes::AddressingMode|
        crate::cpu::spec_operand(cc, m).1 != Err::<(u16, u8), Fault>(Fault::StepLimit) by {
        crate::cpu::lemma_operand_no_step_limit(cc, m);
    }
}

#[verifier::rlimit(100)]
proof fn lemma_execute_no_step_limit_q3(c: CpuV, code: u8)
    requires
        0xc0 <= code,
    ensures
        spec_execute(c, code).1 != Err::<(), Fault>(Fault::StepLimit),
{
    reveal(spec_execute);
    assert forall|b: crate::bus::BusV, a: u16|
        spec_bus_read(b, a).1 != Err::<u8, Fault>(Fault::StepLimit) by {
        crate::bus::lemma_bus_read_no_step_limit(b, a);
    }
    assert forall|b: crate::bus::BusV, a: u16|
        crate::bus::spec_bus_read16(b, a).1 != Err::<u16, Fault>(Fault::StepLimit) by {
        crate::bus::lemma_bus_read16_no_step_limit(b, a);
    }
    assert forall|b: crate::bus::BusV, a: u16, d: u8|
        crate::bus::spec_bus_write(b, a, d).1 != Err::<(), Fault>(Fault::StepLimit) by {
        crate::bus::lemma_bus_write_no_step_limit(b, a, d);
    }
    assert forall|cc: CpuV, m: crate::opcodes::AddressingMode, base: u16|
        crate::cpu::spec_resolve(cc, m, base).1 != Err::<u16, Fault>(Fault::StepLimit) by {
        crate::cpu::lemma_resolve_no_step_limit(cc, m, base);
    }
    assert forall|cc: CpuV, m: crate::opcodes::AddressingMode|
        crate::cpu::spec_operand(cc, m).1 != Err::<(u16, u8), Fault>(Fault::StepLimit) by {
        crate::cpu::lemma_operand_no_step_limit(cc, m);
    }
}

/// The dispatch never faults with the step-budget marker: that fault
/// belongs to the run loops alone.
pub proof fn lemma_execute_no_step_limit(c: CpuV, code: u8)
    ensures
        spec_execute(c, code).1 != Err::<(), Fault>(Fault::StepLimit),
{
    if code < 0x40 {
        lemma_execute_no_step_limit_q0(c, code);
    } else if code < 0x80 {
        lemma_execute_no_step_limit_q1(c, code);
    } else if code < 0xc0 {
        lemma_execute_no_step_limit_q2(c, code);
    } else {
        lemma_execute_no_step_limit_q3(c, code);
    }
}

/// One abstract step never faults with the step-budget marker.
pub proof fn lemma_step_no_step_limit(c: CpuV)
    ensures
        spec_step(c).fault != Some(Fault::StepLimit),
{
    reveal(spec_step);
    crate::bus::lemma_bus_read_no_step_limit(c.bus, c.pc);
    let (b1, r1) = spec_bus_read(c.bus, c.pc);
    if r1 is Ok {
        let code = r1->Ok_0;
        let c1 = CpuV { bus: b1, pc: c.pc.wrapping_add(1), ..c };
        lemma_execute_no_step_limit(c1, code);
    }
}

/// One whole instruction: fetch, halt on break, dispatch, then advance
/// the program counter by the instruction's remaining length if the
/// instruction left it alone.
#[verifier::opaque]
pub open spec fn spec_step(c: CpuV) -> StepResult {
    let (b1, r1) = spec_bus_read(c.bus, c.pc);
    match r1 {
        Err(f) => StepResult { cpu: CpuV { bus: b1, ..c }, fault: Some(f), halted: false },
        Ok(code) => {
            let c1 = CpuV { bus: b1, pc: c.pc.wrapping_add(1), ..c };
            if code == 0x00 {
                StepResult { cpu: c1, fault: None, halted: true }
            } else {
                let (c2, r2) = spec_execute(c1, code);
                match r2 {
                    Err(f) => StepResult { cpu: c2, fault: Some(f), halted: false },
                    Ok(()) => {
                        let stepped = if c2.pc == c1.pc {
                            CpuV {
                                pc: c2.pc.wrapping_add((opcode_len(code).wrapping_sub(1)) as u16),
                                ..c2
                            }
                        } else {
                            c2
                        };
                        StepResult { cpu: stepped, fault: None, halted: false }
                    },
                }
            }
        },
    }
}

/// Up to `n` abstract steps, stopping early at a halt or a fault.
pub open spec fn spec_multi_step(c: CpuV, n: nat) -> StepResult
    decreases n,
{
    if n == 0 {
        StepResult { cpu: c, fault: None, halted: false }
    } else {
        let r = spec_step(c);
        if r.fault is Some || r.halted {
            r
        } else {
            spec_multi_step(r.cpu, (n - 1) as nat)
        }
    }
}

/// A chain that has neither halted nor faulted extends by one step.
pub proof fn lemma_multi_step_extend(c: CpuV, n: nat)
    requires
        spec_multi_step(c, n).fault is None,
        !spec_multi_step(c, n).halted,
    ensures
        spec_multi_step(c, (n + 1) as nat) == spec_step(spec_multi_step(c, n).cpu),
    decreases n,
{
    let r = spec_step(c);
    if n == 0 {
        if !(r.fault is Some || r.halted) {
            assert(spec_multi_step(c, 1) == spec_multi_step(r.cpu, 0));
            assert(spec_multi_step(r.cpu, 0) =~= r);
        }
    } else {
        if r.fault is Some || r.halted {
            assert(spec_multi_step(c, n) == r);
            assert(false);
        } else {
            lemma_multi_step_extend(r.cpu, (n - 1) as nat);
            assert(spec_multi_step(c, (n + 1) as nat) == spec_multi_step(r.cpu, n));
        }
    }
}

/// One observed transition: some wf state with the same program counter
/// (what the observer may turn the machine into) takes one non-halting,
/// non-faulting step to `post`.
pub open spec fn obs_step_rel(pre: CpuV, post: CpuV) -> bool {
    exists|mid: CpuV|
        cpu_wf(mid) && mid.pc == pre.pc && spec_step(mid) == (StepResult {
            cpu: post,
            fault: None,
            halted: false,
        })
}

/// A chain of `n` observed transitions.
pub open spec fn obs_reaches(c0: CpuV, c1: CpuV, n: nat) -> bool
    decreases n,
{
    if n == 0 {
        c1 == c0
    } else {
        exists|mid: CpuV| obs_reaches(c0, mid, (n - 1) as nat) && obs_step_rel(mid, c1)
    }
}

/// An observer invoked at every instruction boundary, before the fetch.
/// It may read the machine or adjust its state — inject input, say —
/// but it leaves the program counter, and with it the instruction about
/// to execute, where it was.
pub trait StepObserver {
    /// Observes the machine right before one instruction.
    fn on_step(&mut self, cpu: &mut CPU)
        requires
            old(cpu).wf(),
        ensures
            final(cpu).wf(),
            final(cpu)@.pc == old(cpu)@.pc,
    ;
}

/// An observer that only counts the instruction boundaries it sees.
pub struct StepCounter {
    pub steps: u64,
}

impl StepCounter {
    /// A counter at zero.
    pub fn new() -> (r: Self)
        ensures
            r.steps == 0,
    {
        StepCounter { steps: 0 }
    }
}

impl StepObserver for StepCounter {
    fn on_step(&mut self, _cpu: &mut CPU) {
        self.steps = self.steps.wrapping_add(1);
    }
}

impl CPU {
    #[verifier::rlimit(100)]
    fn execute_q0(&mut self, code: u8, mode: &crate::opcodes::AddressingMode) -> (r: Result<(), Fault>)
        requires
            old(self).wf(),
            *mode == opcode_mode(code),
            code < 0x40,
        ensures
            final(self).wf(),
            final(self)@ == spec_execute(old(self)@, code).0,
            r == spec_execute(old(self)@, code).1,
    {
        proof {
            reveal(spec_execute);
        }
        match code {
            0x29 | 0x25 | 0x35 | 0x2d | 0x3d | 0x39 | 0x21 | 0x31 => self.and(mode),
            0x09 | 0x05 | 0x15 | 0x0d | 0x1d | 0x19 | 0x01 | 0x11 => self.ora(mode),
            0x0a => { self.asl_accumulator(); Ok(()) },
            0x06 | 0x16 | 0x0e | 0x1e => { self.asl(mode)?; Ok(()) },
            0x2a => { self.rol_accumulator(); Ok(()) },
            0x26 | 0x36 | 0x2e | 0x3e => { self.rol(mode)?; Ok(()) },
            0x20 => self.jsr(),
            0x30 => { let cond = self.status.contains(FLAG_NEGATIVE); self.branch(cond) },
            0x10 => { let cond = !self.status.contains(FLAG_NEGATIVE); self.branch(cond) },
            0x24 | 0x2c => self.bit(mode),
            0x18 => { self.clear_carry_flag(); Ok(()) },
            0x38 => { self.set_carry_flag(); Ok(()) },
            0x08 => { self.php(); Ok(()) },
            0x28 => { self.plp(); Ok(()) },
            0x27 | 0x37 | 0x2f | 0x3f | 0x3b | 0x33 | 0x23 => self.rla(mode),
            0x07 | 0x17 | 0x0f | 0x1f | 0x1b | 0x03 | 0x13 => self.slo(mode),
            0x0b | 0x2b => self.anc(mode),
            0x04 | 0x14 | 0x34 | 0x0c | 0x1c | 0x3c => self.nop_read(mode),
            0x02 | 0x12 | 0x22 | 0x32 => Ok(()),
            0x1a | 0x3a => Ok(()),
            _ => Ok(()),
        }
    }

    #[verifier::rlimit(100)]
    fn execute_q1(&mut self, code: u8, mode: &crate::opcodes::AddressingMode) -> (r: Result<(), Fault>)
        requires
            old(self).wf(),
            *mode == opcode_mode(code),
            0x40 <= code < 0x80,
        ensures
            final(self).wf(),
            final(self)@ == spec_execute(old(self)@, code).0,
            r == spec_execute(old(self)@, code).1,
    {
        proof {
            reveal(spec_execute);
        }
        match code {
            0x69 | 0x65 | 0x75 | 0x6d | 0x7d | 0x79 | 0x61 | 0x71 => self.adc(mode),
            0x49 | 0x45 | 0x55 | 0x4d | 0x5d | 0x59 | 0x41 | 0x51 => self.eor(mode),
            0x4a => { self.lsr_accumulator(); Ok(()) },
            0x46 | 0x56 | 0x4e | 0x5e => { self.lsr(mode)?; Ok(()) },
            0x6a => { self.ror_accumulator(); Ok(()) },
            0x66 | 0x76 | 0x6e | 0x7e => { self.ror(mode)?; Ok(()) },
            0x4c => self.jmp_absolute(),
            0x6c => self.jmp_indirect(),
            0x60 => { self.rts(); Ok(()) },
            0x40 => { self.rti(); Ok(()) },
            0x70 => { let cond = self.status.contains(FLAG_OVERFLOW); self.branch(cond) },
            0x50 => { let cond = !self.status.contains(FLAG_OVERFLOW); self.branch(cond) },
            0x58 => { self.status.remove(FLAG_INTERRUPT_DISABLE); Ok(()) },
            0x78 => { self.status.insert(FLAG_INTERRUPT_DISABLE); Ok(()) },
            0x48 => { let a = self.register_a; self.stack_push(a); Ok(()) },
            0x68 => { self.pla(); Ok(()) },
            0x47 | 0x57 | 0x4f | 0x5f | 0x5b | 0x43 | 0x53 => self.sre(mode),
            0x6b => self.arr(mode),
            0x4b => self.alr(mode),
            0x44 | 0x64 | 0x54 | 0x74 | 0x5c | 0x7c => self.nop_read(mode),
            0x67 | 0x77 | 0x6f | 0x7f | 0x7b | 0x63 | 0x73 => self.rra(mode),
            0x42 | 0x52 | 0x62 | 0x72 => Ok(()),
            0x5a | 0x7a => Ok(()),
            _ => Ok(()),
        }
    }

    #[verifier::rlimit(100)]
    fn execute_q2(&mut self, code: u8, mode: &crate::opcodes::AddressingMode) -> (r: Result<(), Fault>)
        requires
            old(self).wf(),
            *mode == opcode_mode(code),
            0x80 <= code < 0xc0,
        ensures
            final(self).wf(),
            final(self)@ == spec_execute(old(self)@, code).0,
            r == spec_execute(old(self)@, code).1,
    {
        proof {
            reveal(spec_execute);
        }
        match code {
            0x88 => { self.dey(); Ok(()) },
            0xb0 => { let cond = self.status.contains(FLAG_CARRY); self.branch(cond) },
            0x90 => { let cond = !self.status.contains(FLAG_CARRY); self.branch(cond) },
            0xa9 | 0xa5 | 0xb5 | 0xad | 0xbd | 0xb9 | 0xa1 | 0xb1 => self.lda(mode),
            0xa2 | 0xa6 | 0xb6 | 0xae | 0xbe => self.ldx(mode),
            0xa0 | 0xa4 | 0xb4 | 0xac | 0xbc => self.ldy(mode),
            0x85 | 0x95 | 0x8d | 0x9d | 0x99 | 0x81 | 0x91 => self.sta(mode),
            0x86 | 0x96 | 0x8e => self.stx(mode),
            0x84 | 0x94 | 0x8c => self.sty(mode),
            0xb8 => { self.status.remove(FLAG_OVERFLOW); Ok(()) },
            0xaa => { self.tax(); Ok(()) },
            0xa8 => { self.register_y = self.register_a; self.update_zero_and_negative_flags(self.register_y); Ok(()) },
            0xba => { self.register_x = self.stack_pointer; self.update_zero_and_negative_flags(self.register_x); Ok(()) },
            0x8a => { self.register_a = self.register_x; self.update_zero_and_negative_flags(self.register_a); Ok(()) },
            0x9a => { self.stack_pointer = self.register_x; Ok(()) },
            0x98 => { self.register_a = self.register_y; self.update_zero_and_negative_flags(self.register_a); Ok(()) },
            0x80 | 0x82 | 0x89 => Ok(()),
            0x92 | 0xb2 => Ok(()),
            0xa7 | 0xb7 | 0xaf | 0xbf | 0xa3 | 0xb3 => self.lax(mode),
            0x87 | 0x97 | 0x8f | 0x83 => self.sax(mode),
            0xab => self.lxa(mode),
            0x8b => self.xaa(mode),
            0xbb => self.las(mode),
            0x9b => self.tas(),
            0x93 => self.ahx_indirect(),
            0x9f => self.ahx_absolute(),
            0x9e => self.shx(),
            0x9c => self.shy(),
            _ => Ok(()),
        }
    }

    #[verifier::rlimit(100)]
    fn execute_q3(&mut self, code: u8, mode: &crate::opcodes::AddressingMode) -> (r: Result<(), Fault>)
        requires
            old(self).wf(),
            *mode == opcode_mode(code),
            0xc0 <= code,
        ensures
            final(self).wf(),
            final(self)@ == spec_execute(old(self)@, code).0,
            r == spec_execute(old(self)@, code).1,
    {
        proof {
            reveal(spec_execute);
        }
        match code {
            0xe9 | 0xe5 | 0xf5 | 0xed | 0xfd | 0xf9 | 0xe1 | 0xf1 => self.sbc(mode),
            0xe6 | 0xf6 | 0xee | 0xfe => { self.inc(mode)?; Ok(()) },
            0xe8 => { self.inx(); Ok(()) },
            0xc8 => { self.iny(); Ok(()) },
            0xc6 | 0xd6 | 0xce | 0xde => { self.dec(mode)?; Ok(()) },
            0xca => { self.dex(); Ok(()) },
            0xc9 | 0xc5 | 0xd5 | 0xcd | 0xdd | 0xd9 | 0xc1 | 0xd1 => { let a = self.register_a; self.compare(mode, a) },
            0xc0 | 0xc4 | 0xcc => { let y = self.register_y; self.compare(mode, y) },
            0xe0 | 0xe4 | 0xec => { let x = self.register_x; self.compare(mode, x) },
            0xd0 => { let cond = !self.status.contains(FLAG_ZERO); self.branch(cond) },
            0xf0 => { let cond = self.status.contains(FLAG_ZERO); self.branch(cond) },
            0xd8 => { self.status.remove(FLAG_DECIMAL_MODE); Ok(()) },
            0xf8 => { self.status.insert(FLAG_DECIMAL_MODE); Ok(()) },
            0xc7 | 0xd7 | 0xcf | 0xdf | 0xdb | 0xd3 | 0xc3 => self.dcp(mode),
            0xc2 | 0xe2 => Ok(()),
            0xcb => self.axs(mode),
            0xeb => self.sbc(mode),
            0xd4 | 0xf4 | 0xdc | 0xfc => self.nop_read(mode),
            0xe7 | 0xf7 | 0xef | 0xff | 0xfb | 0xe3 | 0xf3 => self.isb(mode),
            0xd2 | 0xf2 => Ok(()),
            0xda | 0xfa => Ok(()),
            0xea => Ok(()),
            _ => Ok(()),
        }
    }

    /// Runs the already-fetched instruction `code`, whose addressing
    /// mode is `mode`.
    pub(crate) fn execute(&mut self, code: u8, mode: &crate::opcodes::AddressingMode) -> (r: Result<(), Fault>)
        requires
            old(self).wf(),
            *mode == opcode_mode(code),
        ensures
            final(self).wf(),
            final(self)@ == spec_execute(old(self)@, code).0,
            r == spec_execute(old(self)@, code).1,
    {
        if code < 0x40 {
            self.execute_q0(code, mode)
        } else if code < 0x80 {
            self.execute_q1(code, mode)
        } else if code < 0xc0 {
            self.execute_q2(code, mode)
        } else {
            self.execute_q3(code, mode)
        }
    }

    /// Executes one instruction, as `spec_step` says: `Ok(true)` to
    /// continue, `Ok(false)` when the break instruction halted the run,
    /// and the fault when the step was fatal.
    pub fn step(&mut self) -> (r: Result<bool, Fault>)
        requires
            old(self).wf(),
        ensures
            final(self).wf(),
            final(self)@ == spec_step(old(self)@).cpu,
            (match r {
                Ok(cont) => spec_step(old(self)@).fault is None && cont == !spec_step(
                    old(self)@,
                ).halted,
                Err(f) => spec_step(old(self)@).fault == Some(f) && !spec_step(
                    old(self)@,
                ).halted,
            }),
    {
        proof {
            reveal(spec_step);
        }
        let pc = self.program_counter;
        let code = self.bus.mem_read(pc)?;
        self.program_counter = self.program_counter.wrapping_add(1);
        if code == 0x00 {
            return Ok(false);
        }
        let op = lookup(code);
        let pc_state = self.program_counter;
        self.execute(code, &op.mode)?;
        if self.program_counter == pc_state {
            self.program_counter = self.program_counter.wrapping_add(
                (op.len.wrapping_sub(1)) as u16,
            );
        }
        Ok(true)
    }

    /// Runs at most `max_steps` instructions. On `Ok` the program
    /// halted at a break instruction; on a fault the run aborted there;
    /// on `Fault::StepLimit` the budget ran out with the program still
    /// going. Each outcome names the exact chain of abstract steps that
    /// produced the final state.
    pub fn run_for(&mut self, max_steps: u64) -> (r: Result<(), Fault>)
        requires
            old(self).wf(),
        ensures
            final(self).wf(),
            (match r {
                Ok(()) => exists|n: nat|
                    spec_multi_step(old(self)@, n) == (StepResult {
                        cpu: final(self)@,
                        fault: None,
                        halted: true,
                    }),
                Err(f) => if f == Fault::StepLimit {
                    spec_multi_step(old(self)@, max_steps as nat) == (StepResult {
                        cpu: final(self)@,
                        fault: None,
                        halted: false,
                    })
                } else {
                    exists|n: nat|
                        spec_multi_step(old(self)@, n) == (StepResult {
                            cpu: final(self)@,
                            fault: Some(f),
                            halted: false,
                        })
                },
            }),
    {
        let ghost start = self@;
        let ghost mut steps: nat = 0;
        let mut fuel: u64 = max_steps;
        while fuel > 0
            invariant
                start == old(self)@,
                self.wf(),
                steps + fuel == max_steps,
                spec_multi_step(start, steps) == (StepResult {
                    cpu: self@,
                    fault: None,
                    halted: false,
                }),
            decreases fuel,
        {
            fuel = fuel - 1;
            let ghost pre = self@;
            let r = self.step();
            proof {
                lemma_multi_step_extend(start, steps);
                steps = steps + 1;
            }
            match r {
                Ok(true) => {
                    proof {
                        assert(spec_multi_step(start, steps) =~= (StepResult {
                            cpu: self@,
                            fault: None,
                            halted: false,
                        }));
                    }
                },
                Ok(false) => {
                    proof {
                        assert(spec_multi_step(start, steps) =~= (StepResult {
                            cpu: self@,
                            fault: None,
                            halted: true,
                        }));
                        assert(exists|n: nat|
                            spec_multi_step(start, n) == (StepResult {
                                cpu: self@,
                                fault: None,
                                halted: true,
                            }));
                    }
                    return Ok(());
                },
                Err(f) => {
                    proof {
                        lemma_step_no_step_limit(pre);
                        assert(spec_multi_step(start, steps) =~= (StepResult {
                            cpu: self@,
                            fault: Some(f),
                            halted: false,
                        }));
                        assert(exists|n: nat|
                            spec_multi_step(start, n) == (StepResult {
                                cpu: self@,
                                fault: Some(f),
                                halted: false,
                            }));
                    }
                    return Err(f);
                },
            }
        }
        Err(Fault::StepLimit)
    }

    /// Runs until the program halts at a break instruction or a fault
    /// aborts the run, with a practically inexhaustible step budget.
    pub fn run(&mut self) -> (r: Result<(), Fault>)
        requires
            old(self).wf(),
        ensures
            final(self).wf(),
            (match r {
                Ok(()) => exists|n: nat|
                    spec_multi_step(old(self)@, n) == (StepResult {
                        cpu: final(self)@,
                        fault: None,
                        halted: true,
                    }),
                Err(f) => if f == Fault::StepLimit {
                    spec_multi_step(old(self)@, u64::MAX as nat) == (StepResult {
                        cpu: final(self)@,
                        fault: None,
                        halted: false,
                    })
                } else {
                    exists|n: nat|
                        spec_multi_step(old(self)@, n) == (StepResult {
                            cpu: final(self)@,
                            fault: Some(f),
                            halted: false,
                        })
                },
            }),
    {
        self.run_for(u64::MAX)
    }

    /// Loads a standalone program at address 0, resets, and runs it.
    pub fn load_and_run(&mut self, program: Vec<u8>) -> (r: Result<(), Fault>)
        requires
            old(self).wf(),
            program@.len() <= 0x800,
        ensures
            final(self).wf(),
            (match r {
                Ok(()) => exists|n: nat|
                    spec_multi_step(spec_reset(spec_load(old(self)@, program@)), n)
                        == (StepResult { cpu: final(self)@, fault: None, halted: true }),
                Err(f) => if f == Fault::StepLimit {
                    spec_multi_step(spec_reset(spec_load(old(self)@, program@)), u64::MAX as nat)
                        == (StepResult { cpu: final(self)@, fault: None, halted: false })
                } else {
                    exists|n: nat|
                        spec_multi_step(spec_reset(spec_load(old(self)@, program@)), n)
                            == (StepResult { cpu: final(self)@, fault: Some(f), halted: false })
                },
            }),
    {
        self.load(program);
        self.reset();
        self.run()
    }

    /// Runs like `run`, invoking the observer before every instruction.
    /// The outcome names the chain of observed transitions — observer
    /// adjustment, then one abstract step — that produced the final
    /// state.
    pub fn run_with_callback<O: StepObserver>(&mut self, callback: &mut O) -> (r: Result<
        (),
        Fault,
    >)
        requires
            old(self).wf(),
        ensures
            final(self).wf(),
            (match r {
                Ok(()) => exists|n: nat, prev: CpuV, mid: CpuV|
                    obs_reaches(old(self)@, prev, n) && cpu_wf(mid) && mid.pc == prev.pc
                        && spec_step(mid) == (StepResult {
                        cpu: final(self)@,
                        fault: None,
                        halted: true,
                    }),
                Err(f) => if f == Fault::StepLimit {
                    obs_reaches(old(self)@, final(self)@, u64::MAX as nat)
                } else {
                    exists|n: nat, prev: CpuV, mid: CpuV|
                        obs_reaches(old(self)@, prev, n) && cpu_wf(mid) && mid.pc == prev.pc
                            && spec_step(mid) == (StepResult {
                            cpu: final(self)@,
                            fault: Some(f),
                            halted: false,
                        })
                },
            }),
    {
        let ghost start = self@;
        let ghost mut steps: nat = 0;
        let mut fuel: u64 = u64::MAX;
        while fuel > 0
            invariant
                start == old(self)@,
                self.wf(),
                steps + fuel == u64::MAX,
                obs_reaches(start, self@, steps),
            decreases fuel,
        {
            fuel = fuel - 1;
            let ghost prev = self@;
            callback.on_step(self);
            let ghost mid = self@;
            let r = self.step();
            match r {
                Ok(true) => {
                    proof {
                        assert(spec_step(mid) =~= (StepResult {
                            cpu: self@,
                            fault: None,
                            halted: false,
                        }));
                        assert(obs_step_rel(prev, self@));
                        assert(obs_reaches(start, self@, (steps + 1) as nat));
                        steps = steps + 1;
                    }
                },
                Ok(false) => {
                    proof {
                        assert(spec_step(mid) =~= (StepResult {
                            cpu: self@,
                            fault: None,
                            halted: true,
                        }));
                        assert(obs_reaches(start, prev, steps) && cpu_wf(mid) && mid.pc == prev.pc
                            && spec_step(mid) == (StepResult {
                            cpu: self@,
                            fault: None,
                            halted: true,
                        }));
                        assert(obs_reaches(old(self)@, prev, steps));
                        assert(exists|n: nat, p: CpuV, m: CpuV|
                            obs_reaches(old(self)@, p, n) && cpu_wf(m) && m.pc == p.pc
                                && spec_step(m) == (StepResult {
                                cpu: self@,
                                fault: None,
                                halted: true,
                            }));
                    }
                    return Ok(());
                },
                Err(f) => {
                    proof {
                        lemma_step_no_step_limit(mid);
                        assert(spec_step(mid) =~= (StepResult {
                            cpu: self@,
                            fault: Some(f),
                            halted: false,
                        }));
                        assert(obs_reaches(start, prev, steps) && cpu_wf(mid) && mid.pc == prev.pc
                            && spec_step(mid) == (StepResult {
                            cpu: self@,
                            fault: Some(f),
                            halted: false,
                        }));
                        assert(obs_reaches(old(self)@, prev, steps));
                        assert(exists|n: nat, p: CpuV, m: CpuV|
                            obs_reaches(old(self)@, p, n) && cpu_wf(m) && m.pc == p.pc
                                && spec_step(m) == (StepResult {
                                cpu: self@,
                                fault: Some(f),
                                halted: false,
                            }));
                    }
                    return Err(f);
                },
            }
        }
        Err(Fault::StepLimit)
    }

}

} // verus!
