//! The fatal conditions: each aborts the run with its own fault.

use nes_core::bus::Bus;
use nes_core::bus::Mem;
use nes_core::cartridge::Mirroring;
use nes_core::cartridge::Rom;
use nes_core::cartridge::test_rom;
use nes_core::cpu::CPU;
use nes_core::fault::Fault;
use nes_core::opcodes::AddressingMode;

#[test]
fn reading_a_write_only_register_is_fatal() {
    let mut bus = Bus::new(test_rom(vec![]));
    assert_eq!(bus.mem_read(0x2000), Err(Fault::ReadWriteOnly { addr: 0x2000 }));
    // The mirror at 0x2008 names the canonical register.
    assert_eq!(bus.mem_read(0x2008), Err(Fault::ReadWriteOnly { addr: 0x2000 }));
    assert_eq!(bus.mem_read(0x4014), Err(Fault::ReadWriteOnly { addr: 0x4014 }));
}

#[test]
fn writing_the_status_register_is_fatal() {
    let mut bus = Bus::new(test_rom(vec![]));
    assert_eq!(bus.mem_write(0x2002, 0x01), Err(Fault::WriteToStatus));
}

#[test]
fn writing_rom_space_is_fatal() {
    let mut bus = Bus::new(test_rom(vec![]));
    assert_eq!(bus.mem_write(0x8000, 0x01), Err(Fault::WriteToRom { addr: 0x8000 }));
    assert_eq!(bus.mem_write(0xffff, 0x01), Err(Fault::WriteToRom { addr: 0xffff }));
}

#[test]
fn resolving_the_none_mode_is_fatal() {
    let mut cpu = CPU::new(Bus::new(test_rom(vec![])));
    assert_eq!(
        cpu.get_absolute_address(&AddressingMode::NoneAddressing, 0x1234),
        Err(Fault::NoneAddressing)
    );
}

#[test]
fn a_program_that_stores_into_rom_aborts() {
    let mut cpu = CPU::new(Bus::new(test_rom(vec![])));
    // LDA #0x01; STA $8000.
    let r = cpu.load_and_run(vec![0xa9, 0x01, 0x8d, 0x00, 0x80, 0x00]);
    assert_eq!(r, Err(Fault::WriteToRom { addr: 0x8000 }));
}

#[test]
fn the_unused_ppu_range_is_fatal_through_the_data_port() {
    let mut bus = Bus::new(test_rom(vec![]));
    bus.mem_write(0x2006, 0x30).unwrap();
    bus.mem_write(0x2006, 0x00).unwrap();
    assert_eq!(bus.mem_read(0x2007), Err(Fault::PpuUnmapped { addr: 0x3000 }));
}

#[test]
fn a_palette_index_past_the_table_is_fatal() {
    let mut bus = Bus::new(test_rom(vec![]));
    bus.mem_write(0x2006, 0x3f).unwrap();
    bus.mem_write(0x2006, 0x20).unwrap();
    assert_eq!(bus.mem_read(0x2007), Err(Fault::PpuPalette { addr: 0x3f20 }));
}

#[test]
fn four_screen_name_tables_overrun_the_vram() {
    let rom = Rom {
        prg_rom: vec![0u8; 0x8000],
        chr_rom: vec![0u8; 0x2000],
        screen_mirroring: Mirroring::FourScreen,
    };
    let mut bus = Bus::new(rom);
    bus.mem_write(0x2006, 0x28).unwrap();
    bus.mem_write(0x2006, 0x00).unwrap();
    assert_eq!(bus.mem_read(0x2007), Err(Fault::PpuVram { addr: 0x2800 }));
}

#[test]
fn the_step_budget_runs_out_on_a_program_that_does_not_halt() {
    let mut cpu = CPU::new(Bus::new(test_rom(vec![])));
    cpu.load(vec![0xea, 0xea, 0x00]);
    cpu.reset();
    assert_eq!(cpu.run_for(1), Err(Fault::StepLimit));

    let mut cpu2 = CPU::new(Bus::new(test_rom(vec![])));
    cpu2.load(vec![0xea, 0xea, 0x00]);
    cpu2.reset();
    assert_eq!(cpu2.run_for(3), Ok(()));
}
