//! Flag and arithmetic semantics of single instructions, official and
//! undocumented.

use nes_core::bus::Bus;
use nes_core::bus::Mem;
use nes_core::cartridge::test_rom;
use nes_core::cpu::CPU;
use nes_core::cpu::engine::StepCounter;

fn fresh_cpu() -> CPU {
    CPU::new(Bus::new(test_rom(vec![])))
}

#[test]
fn adc_sets_carry_on_nine_bit_sum() {
    let mut cpu = fresh_cpu();
    // LDA #0xFF; ADC #0x02: 0xFF + 2 = 0x101.
    cpu.load_and_run(vec![0xa9, 0xff, 0x69, 0x02, 0x00]).unwrap();

    assert_eq!(cpu.register_a, 0x01);
    assert!(cpu.status.bits() & 0x01 == 0x01);
}

#[test]
fn adc_sets_overflow_on_sign_mismatch() {
    let mut cpu = fresh_cpu();
    // LDA #0x50; ADC #0x50: two positives adding to a negative byte.
    cpu.load_and_run(vec![0xa9, 0x50, 0x69, 0x50, 0x00]).unwrap();

    assert_eq!(cpu.register_a, 0xa0);
    assert!(cpu.status.bits() & 0x40 == 0x40);
    assert!(cpu.status.bits() & 0x01 == 0x00);
    assert!(cpu.status.bits() & 0x80 == 0x80);
}

#[test]
fn sbc_with_carry_set_subtracts_exactly() {
    let mut cpu = fresh_cpu();
    // LDA #0x05; SEC; SBC #0x03.
    cpu.load_and_run(vec![0xa9, 0x05, 0x38, 0xe9, 0x03, 0x00]).unwrap();

    assert_eq!(cpu.register_a, 0x02);
    assert!(cpu.status.bits() & 0x01 == 0x01);
}

#[test]
fn cmp_equal_sets_zero_and_carry() {
    let mut cpu = fresh_cpu();
    cpu.load_and_run(vec![0xa9, 0x10, 0xc9, 0x10, 0x00]).unwrap();

    assert!(cpu.status.bits() & 0x02 == 0x02);
    assert!(cpu.status.bits() & 0x01 == 0x01);
}

#[test]
fn bne_taken_skips_the_reload() {
    let mut cpu = fresh_cpu();
    // LDA #0x01; BNE +2; LDA #0x00; BRK.
    cpu.load_and_run(vec![0xa9, 0x01, 0xd0, 0x02, 0xa9, 0x00, 0x00]).unwrap();

    assert_eq!(cpu.register_a, 0x01);
}

#[test]
fn asl_accumulator_shifts_bit_seven_into_carry() {
    let mut cpu = fresh_cpu();
    cpu.load_and_run(vec![0xa9, 0x81, 0x0a, 0x00]).unwrap();

    assert_eq!(cpu.register_a, 0x02);
    assert!(cpu.status.bits() & 0x01 == 0x01);
}

#[test]
fn rol_accumulator_takes_the_old_carry() {
    let mut cpu = fresh_cpu();
    // SEC; LDA #0x80; ROL A: carry in at bit 0, bit 7 out to carry.
    cpu.load_and_run(vec![0x38, 0xa9, 0x80, 0x2a, 0x00]).unwrap();

    assert_eq!(cpu.register_a, 0x01);
    assert!(cpu.status.bits() & 0x01 == 0x01);
}

#[test]
fn ror_accumulator_takes_the_old_carry_into_bit_seven() {
    let mut cpu = fresh_cpu();
    // SEC; LDA #0x02; ROR A.
    cpu.load_and_run(vec![0x38, 0xa9, 0x02, 0x6a, 0x00]).unwrap();

    assert_eq!(cpu.register_a, 0x81);
    assert!(cpu.status.bits() & 0x01 == 0x00);
}

#[test]
fn inc_memory_wraps_and_updates_flags() {
    let mut cpu = fresh_cpu();
    // LDA #0x05; STA $10; INC $10; LDA $10; BRK.
    cpu.load_and_run(vec![0xa9, 0x05, 0x85, 0x10, 0xe6, 0x10, 0xa5, 0x10, 0x00]).unwrap();

    assert_eq!(cpu.register_a, 0x06);
}

#[test]
fn bit_copies_the_operand_top_bits() {
    let mut cpu = fresh_cpu();
    cpu.mem_write(0x10, 0xc0).unwrap();
    // LDA #0x0F; BIT $10: A & m == 0, bit 7 and bit 6 of m set.
    cpu.load_and_run(vec![0xa9, 0x0f, 0x24, 0x10, 0x00]).unwrap();

    assert!(cpu.status.bits() & 0x02 == 0x02);
    assert!(cpu.status.bits() & 0x80 == 0x80);
    assert!(cpu.status.bits() & 0x40 == 0x40);
}

#[test]
fn sty_stores_the_y_register() {
    let mut cpu = fresh_cpu();
    // LDY #0x2A; STY $21; BRK.
    cpu.load_and_run(vec![0xa0, 0x2a, 0x84, 0x21, 0x00]).unwrap();

    assert_eq!(cpu.mem_read(0x21).unwrap(), 0x2a);
}

#[test]
fn lax_loads_accumulator_and_x_together() {
    let mut cpu = fresh_cpu();
    cpu.mem_write(0x10, 0x55).unwrap();
    cpu.load_and_run(vec![0xa7, 0x10, 0x00]).unwrap();

    assert_eq!(cpu.register_a, 0x55);
    assert_eq!(cpu.register_x, 0x55);
}

#[test]
fn sax_stores_a_and_x() {
    let mut cpu = fresh_cpu();
    // LDA #0x33; LDX #0x0F; SAX $10; BRK.
    cpu.load_and_run(vec![0xa9, 0x33, 0xa2, 0x0f, 0x87, 0x10, 0x00]).unwrap();

    assert_eq!(cpu.mem_read(0x10).unwrap(), 0x03);
}

#[test]
fn dcp_decrements_then_compares() {
    let mut cpu = fresh_cpu();
    cpu.mem_write(0x10, 0x11).unwrap();
    // LDA #0x10; DCP $10: memory falls to 0x10, equal to A.
    cpu.load_and_run(vec![0xa9, 0x10, 0xc7, 0x10, 0x00]).unwrap();

    assert_eq!(cpu.mem_read(0x10).unwrap(), 0x10);
    assert!(cpu.status.bits() & 0x01 == 0x01);
    assert!(cpu.status.bits() & 0x02 == 0x02);
}

#[test]
fn slo_shifts_memory_then_ors() {
    let mut cpu = fresh_cpu();
    cpu.mem_write(0x10, 0x40).unwrap();
    // LDA #0x01; SLO $10: memory becomes 0x80, A becomes 0x81.
    cpu.load_and_run(vec![0xa9, 0x01, 0x07, 0x10, 0x00]).unwrap();

    assert_eq!(cpu.mem_read(0x10).unwrap(), 0x80);
    assert_eq!(cpu.register_a, 0x81);
}

#[test]
fn isb_increments_then_subtracts() {
    let mut cpu = fresh_cpu();
    cpu.mem_write(0x10, 0x04).unwrap();
    // LDA #0x0A; SEC; ISB $10: memory 0x05, A = 0x0A - 0x05 = 0x05.
    cpu.load_and_run(vec![0xa9, 0x0a, 0x38, 0xe7, 0x10, 0x00]).unwrap();

    assert_eq!(cpu.mem_read(0x10).unwrap(), 0x05);
    assert_eq!(cpu.register_a, 0x05);
}

#[test]
fn observer_sees_every_instruction_boundary() {
    let mut cpu = fresh_cpu();
    cpu.load(vec![0xea, 0xea, 0x00]);
    cpu.reset();
    let mut counter = StepCounter::new();

    cpu.run_with_callback(&mut counter).unwrap();

    // Two no-operations and the break instruction.
    assert_eq!(counter.steps, 3);
}

#[test]
fn step_reports_halt_and_continue() {
    let mut cpu = fresh_cpu();
    cpu.load(vec![0xea, 0x00]);
    cpu.reset();

    assert_eq!(cpu.step().unwrap(), true);
    assert_eq!(cpu.step().unwrap(), false);
}
