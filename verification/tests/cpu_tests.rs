//! The processor's end-to-end behaviour on small programs.

use nes_core::bus::Bus;
use nes_core::bus::Mem;
use nes_core::cartridge::test_rom;
use nes_core::cpu::CPU;

#[test]
fn test_mem_read_write_to_ram() {
    let mut bus = Bus::new(test_rom(vec![]));
    bus.mem_write(0x01, 0x55).unwrap();
    assert_eq!(bus.mem_read(0x01).unwrap(), 0x55);
}

#[test]
fn test_0xa9_lda_immediate_load_data() {
    let bus = Bus::new(test_rom(vec![0xa9, 0x05, 0x00]));
    let mut cpu = CPU::new(bus);

    cpu.run().unwrap();

    assert_eq!(cpu.register_a, 0x05);
    assert!(cpu.status.bits() & 0b0000_0010 == 0x00);
    assert!(cpu.status.bits() & 0b1000_0000 == 0x00);
}

#[test]
fn test_0xa9_lda_zero_flag() {
    let bus = Bus::new(test_rom(vec![0xa9, 0x00, 0x00]));
    let mut cpu = CPU::new(bus);

    cpu.run().unwrap();

    assert!(cpu.status.bits() & 0b0000_0010 == 0b10);
}

#[test]
fn test_0xxx_tax_move_a_to_x() {
    let bus = Bus::new(test_rom(vec![0xa9, 0x0a, 0xaa, 0x00]));
    let mut cpu = CPU::new(bus);

    cpu.run().unwrap();

    assert_eq!(cpu.register_x, 10);
}

#[test]
fn test_0xe8_inx_overflow() {
    let bus = Bus::new(test_rom(vec![0xa9, 0xff, 0xaa, 0xe8, 0xe8, 0x00]));
    let mut cpu = CPU::new(bus);

    cpu.run().unwrap();

    assert_eq!(cpu.register_x, 1);
}

#[test]
fn test_5_ops_together() {
    let bus = Bus::new(test_rom(vec![0xa9, 0xc0, 0xaa, 0xe8, 0x00]));
    let mut cpu = CPU::new(bus);

    cpu.run().unwrap();

    assert_eq!(cpu.register_x, 0xc1);
}

#[test]
fn test_lda_from_memory() {
    let bus = Bus::new(test_rom(vec![0xa5, 0x10, 0x00]));
    let mut cpu = CPU::new(bus);
    cpu.mem_write(0x10, 0x55).unwrap();

    cpu.run().unwrap();

    assert_eq!(cpu.register_a, 0x55);
}

#[test]
fn load_and_run_lda_immediate() {
    let bus = Bus::new(test_rom(vec![]));
    let mut cpu = CPU::new(bus);

    cpu.load_and_run(vec![0xa9, 0x05, 0x00]).unwrap();

    assert_eq!(cpu.register_a, 0x05);
    assert!(cpu.status.bits() & 0b0000_0010 == 0x00);
    assert!(cpu.status.bits() & 0b1000_0000 == 0x00);
}

#[test]
fn load_and_run_lda_sets_zero_flag() {
    let bus = Bus::new(test_rom(vec![]));
    let mut cpu = CPU::new(bus);

    cpu.load_and_run(vec![0xa9, 0x00, 0x00]).unwrap();

    assert!(cpu.status.bits() & 0b0000_0010 == 0b10);
}

#[test]
fn load_and_run_tax_moves_a_to_x() {
    let bus = Bus::new(test_rom(vec![]));
    let mut cpu = CPU::new(bus);

    cpu.load_and_run(vec![0xa9, 0x0a, 0xaa, 0x00]).unwrap();

    assert_eq!(cpu.register_x, 10);
}

#[test]
fn load_and_run_inx_wraps_through_zero() {
    let bus = Bus::new(test_rom(vec![]));
    let mut cpu = CPU::new(bus);

    cpu.load_and_run(vec![0xa9, 0xff, 0xaa, 0xe8, 0xe8, 0x00]).unwrap();

    assert_eq!(cpu.register_x, 1);
}

#[test]
fn load_and_run_lda_zero_page_reads_ram() {
    let bus = Bus::new(test_rom(vec![]));
    let mut cpu = CPU::new(bus);
    cpu.mem_write(0x10, 0x55).unwrap();

    cpu.load_and_run(vec![0xa5, 0x10, 0x00]).unwrap();

    assert_eq!(cpu.register_a, 0x55);
}

#[test]
fn stack_pointer_wraps_after_256_pushes() {
    let bus = Bus::new(test_rom(vec![]));
    let mut cpu = CPU::new(bus);
    // 256 push-accumulator instructions, then break.
    let mut program = vec![0x48u8; 256];
    program.push(0x00);

    cpu.load_and_run(program).unwrap();

    assert_eq!(cpu.stack_pointer, 0xfd);
}

#[test]
fn jmp_indirect_wraps_inside_the_page() {
    let bus = Bus::new(test_rom(vec![]));
    let mut cpu = CPU::new(bus);
    // The pointer 0x02FF ends in 0xFF: the target's high byte must come
    // from 0x0200, not 0x0300.
    cpu.mem_write(0x02ff, 0x34).unwrap();
    cpu.mem_write(0x0200, 0x12).unwrap();
    cpu.mem_write(0x0300, 0x56).unwrap();

    cpu.load_and_run(vec![0x6c, 0xff, 0x02]).unwrap();

    // The break instruction at the target leaves the counter one past it.
    assert_eq!(cpu.program_counter, 0x1235);
}

#[test]
fn jsr_and_rts_return_past_the_call() {
    let bus = Bus::new(test_rom(vec![]));
    let mut cpu = CPU::new(bus);
    // 0x0000: JSR 0x0005; 0x0003: BRK; 0x0005: RTS.
    cpu.load_and_run(vec![0x20, 0x05, 0x00, 0x00, 0x00, 0x60]).unwrap();

    assert_eq!(cpu.program_counter, 0x0004);
    assert_eq!(cpu.stack_pointer, 0xfd);
}

#[test]
fn php_plp_forces_the_break_bits() {
    let bus = Bus::new(test_rom(vec![]));
    let mut cpu = CPU::new(bus);
    // SEC; PHP; CLC; PLP; BRK: the carry pushed by PHP survives the
    // round trip, break reads back low and its duplicate high.
    cpu.load_and_run(vec![0x38, 0x08, 0x18, 0x28, 0x00]).unwrap();

    assert!(cpu.status.bits() & 0x01 == 0x01);
    assert!(cpu.status.bits() & 0x10 == 0x00);
    assert!(cpu.status.bits() & 0x20 == 0x20);
}

#[test]
fn pha_pla_round_trips_the_accumulator() {
    let bus = Bus::new(test_rom(vec![]));
    let mut cpu = CPU::new(bus);
    // LDA #0x42; PHA; LDA #0x00; PLA; BRK.
    cpu.load_and_run(vec![0xa9, 0x42, 0x48, 0xa9, 0x00, 0x68, 0x00]).unwrap();

    assert_eq!(cpu.register_a, 0x42);
    assert_eq!(cpu.stack_pointer, 0xfd);
}
