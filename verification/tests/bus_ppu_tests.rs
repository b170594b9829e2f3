//! The memory bus map and the picture-unit register block.

use nes_core::bus::Bus;
use nes_core::bus::Mem;
use nes_core::cartridge::Mirroring;
use nes_core::cartridge::test_rom;
use nes_core::ppu::NesPPU;
use nes_core::ppu::PPU;
use nes_core::ppu::addr::AddrRegister;
use nes_core::ppu::mask::Color;
use nes_core::ppu::mask::MaskRegister;

fn fresh_ppu() -> NesPPU {
    NesPPU::new(vec![0u8; 0x2000], Mirroring::Horizontal)
}

#[test]
fn ram_is_mirrored_every_two_kib() {
    let mut bus = Bus::new(test_rom(vec![]));
    bus.mem_write(0x0005, 0x42).unwrap();
    assert_eq!(bus.mem_read(0x0805).unwrap(), 0x42);
    assert_eq!(bus.mem_read(0x1005).unwrap(), 0x42);
    assert_eq!(bus.mem_read(0x1805).unwrap(), 0x42);
}

#[test]
fn rom_reads_come_from_the_program_image() {
    let mut bus = Bus::new(test_rom(vec![0xde, 0xad]));
    assert_eq!(bus.mem_read(0x8000).unwrap(), 0xde);
    assert_eq!(bus.mem_read(0x8001).unwrap(), 0xad);
}

#[test]
fn a_16_kib_image_is_mirrored_into_the_upper_bank() {
    let rom = nes_core::cartridge::Rom {
        prg_rom: {
            let mut prg = vec![0u8; 0x4000];
            prg[0x0002] = 0x99;
            prg
        },
        chr_rom: vec![0u8; 0x2000],
        screen_mirroring: Mirroring::Vertical,
    };
    let mut bus = Bus::new(rom);
    assert_eq!(bus.mem_read(0x8002).unwrap(), 0x99);
    assert_eq!(bus.mem_read(0xc002).unwrap(), 0x99);
}

#[test]
fn unmapped_reads_return_zero_twice_and_change_nothing() {
    let mut bus = Bus::new(test_rom(vec![]));
    bus.mem_write(0x0005, 0x42).unwrap();
    assert_eq!(bus.mem_read(0x5000).unwrap(), 0);
    assert_eq!(bus.mem_read(0x5000).unwrap(), 0);
    assert_eq!(bus.mem_read(0x0005).unwrap(), 0x42);
}

#[test]
fn unmapped_writes_are_dropped() {
    let mut bus = Bus::new(test_rom(vec![]));
    bus.mem_write(0x5000, 0x42).unwrap();
    assert_eq!(bus.mem_read(0x5000).unwrap(), 0);
}

#[test]
fn poll_nmi_status_starts_empty() {
    let mut bus = Bus::new(test_rom(vec![]));
    assert_eq!(bus.poll_nmi_status(), None);
}

#[test]
fn ppu_vram_writes_land_under_the_mirrored_address() {
    let mut ppu = fresh_ppu();
    ppu.write_to_ppu_addr(0x23);
    ppu.write_to_ppu_addr(0x05);
    ppu.write_to_data(0x66).unwrap();

    assert_eq!(ppu.vram[0x0305], 0x66);
}

#[test]
fn ppu_vram_reads_go_through_the_buffer() {
    let mut ppu = fresh_ppu();
    ppu.write_to_ctrl(0);
    ppu.vram[0x0305] = 0x66;

    ppu.write_to_ppu_addr(0x23);
    ppu.write_to_ppu_addr(0x05);

    ppu.read_data().unwrap();
    assert_eq!(ppu.addr.get(), 0x2306);
    assert_eq!(ppu.read_data().unwrap(), 0x66);
}

#[test]
fn ppu_vram_reads_cross_the_page_with_the_carry() {
    let mut ppu = fresh_ppu();
    ppu.write_to_ctrl(0);
    ppu.vram[0x01ff] = 0x66;
    ppu.vram[0x0200] = 0x77;

    ppu.write_to_ppu_addr(0x21);
    ppu.write_to_ppu_addr(0xff);

    ppu.read_data().unwrap();
    assert_eq!(ppu.read_data().unwrap(), 0x66);
    assert_eq!(ppu.read_data().unwrap(), 0x77);
}

#[test]
fn ppu_vram_reads_step_32_when_the_control_bit_is_set() {
    let mut ppu = fresh_ppu();
    ppu.write_to_ctrl(0b100);
    ppu.vram[0x01ff] = 0x66;
    ppu.vram[0x01ff + 32] = 0x77;
    ppu.vram[0x01ff + 64] = 0x88;

    ppu.write_to_ppu_addr(0x21);
    ppu.write_to_ppu_addr(0xff);

    ppu.read_data().unwrap();
    assert_eq!(ppu.read_data().unwrap(), 0x66);
    assert_eq!(ppu.read_data().unwrap(), 0x77);
    assert_eq!(ppu.read_data().unwrap(), 0x88);
}

#[test]
fn vram_horizontal_mirroring_pairs_the_tables() {
    let ppu = NesPPU::new(vec![0u8; 0x2000], Mirroring::Horizontal);
    assert_eq!(ppu.mirror_vram_addr(0x2405), 0x0005);
    assert_eq!(ppu.mirror_vram_addr(0x2805), 0x0405);
    assert_eq!(ppu.mirror_vram_addr(0x2c05), 0x0405);
}

#[test]
fn vram_vertical_mirroring_pairs_the_tables() {
    let ppu = NesPPU::new(vec![0u8; 0x2000], Mirroring::Vertical);
    assert_eq!(ppu.mirror_vram_addr(0x2805), 0x0005);
    assert_eq!(ppu.mirror_vram_addr(0x2c05), 0x0405);
}

#[test]
fn read_status_clears_vblank_and_resets_the_latch() {
    let mut ppu = fresh_ppu();
    ppu.status = 0x80;
    ppu.vram[0x0305] = 0x66;

    // One stray high-byte write leaves the latch on the low byte; the
    // status read puts it back.
    ppu.write_to_ppu_addr(0x21);
    let status = ppu.read_status();
    assert_eq!(status, 0x80);
    assert_eq!(ppu.status & 0x80, 0);

    ppu.write_to_ppu_addr(0x23);
    ppu.write_to_ppu_addr(0x05);
    ppu.read_data().unwrap();
    assert_eq!(ppu.read_data().unwrap(), 0x66);
}

#[test]
fn oam_data_writes_advance_the_address_reads_do_not() {
    let mut ppu = fresh_ppu();
    ppu.write_to_oam_addr(0x10);
    ppu.write_to_oam_data(0x66);
    ppu.write_to_oam_data(0x77);

    ppu.write_to_oam_addr(0x10);
    assert_eq!(ppu.read_oam_data(), 0x66);

    ppu.write_to_oam_addr(0x11);
    assert_eq!(ppu.read_oam_data(), 0x77);
}

#[test]
fn the_bus_routes_the_ppu_register_window() {
    let mut bus = Bus::new(test_rom(vec![]));
    // Write the data-port address through the mirrored window, then
    // write and read back a name-table byte through the data port.
    bus.mem_write(0x2006, 0x23).unwrap();
    bus.mem_write(0x2006, 0x05).unwrap();
    bus.mem_write(0x2007, 0x66).unwrap();

    bus.mem_write(0x3ff6, 0x23).unwrap();
    bus.mem_write(0x3ff6, 0x05).unwrap();
    bus.mem_read(0x3ff7).unwrap();
    assert_eq!(bus.mem_read(0x2007).unwrap(), 0x66);
}

#[test]
fn addr_register_mirrors_down_past_the_window() {
    let mut addr = AddrRegister::new();
    addr.update(0x41);
    assert_eq!(addr.get(), 0x0100);
}

#[test]
fn addr_register_increment_carries_into_the_high_byte() {
    let mut addr = AddrRegister::new();
    addr.update(0x21);
    addr.update(0xff);
    addr.increment(1);
    assert_eq!(addr.get(), 0x2200);
}

#[test]
fn mask_register_reports_its_bits() {
    let mut mask = MaskRegister::new();
    mask.update(0b1010_0001);
    assert!(mask.is_grayscale());
    assert!(!mask.leftmost_8xpl_background());
    assert!(!mask.leftmost_8xpl_sprite());
    assert!(!mask.show_background());
    assert!(!mask.show_sprites());
    assert_eq!(mask.emphasize(), vec![Color::Red, Color::Blue]);
}

#[test]
fn opcode_lookup_is_total_and_describes_lda() {
    let op = nes_core::opcodes::lookup(0xa9);
    assert_eq!(op.code, 0xa9);
    assert_eq!(op.mnemonic, "LDA");
    assert_eq!(op.len, 2);
    assert_eq!(op.cycles, 2);
    assert!(matches!(op.mode, nes_core::opcodes::AddressingMode::Immediate));
    let brk = nes_core::opcodes::lookup(0x00);
    assert_eq!(brk.mnemonic, "BRK");
    assert_eq!(brk.len, 1);
}

#[test]
fn flags_pack_and_unpack() {
    let mut flags = nes_core::flags::CpuFlags::from_bits_truncate(0b100100);
    assert_eq!(flags.bits(), 0x24);
    assert!(flags.contains(nes_core::flags::FLAG_INTERRUPT_DISABLE));
    flags.insert(nes_core::flags::FLAG_CARRY);
    assert_eq!(flags.bits(), 0x25);
    flags.remove(nes_core::flags::FLAG_CARRY);
    flags.set(nes_core::flags::FLAG_NEGATIVE, true);
    assert_eq!(flags.bits(), 0xa4);
}
