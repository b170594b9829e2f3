//! Tile decoding into pixel frames.

use nes_core::render::Frame;
use nes_core::render::show_tile;
use nes_core::render::show_tile_bank;

fn grey_palette() -> Vec<(u8, u8, u8)> {
    vec![(0, 0, 0), (85, 85, 85), (170, 170, 170), (255, 255, 255)]
}

fn pixel_of(frame: &Frame, x: usize, y: usize) -> (u8, u8, u8) {
    let base = (y * 256 + x) * 3;
    (frame.data[base], frame.data[base + 1], frame.data[base + 2])
}

#[test]
fn frame_set_pixel_lands_at_the_right_bytes() {
    let mut frame = Frame::new();
    frame.set_pixel(1, 2, (10, 20, 30));
    assert_eq!(pixel_of(&frame, 1, 2), (10, 20, 30));
    assert_eq!(pixel_of(&frame, 2, 2), (0, 0, 0));
    assert_eq!(pixel_of(&frame, 1, 1), (0, 0, 0));
}

#[test]
fn show_tile_combines_the_two_bit_planes() {
    let mut chr = vec![0u8; 0x2000];
    // Tile 0, row 0: first plane 1000_0000, second plane 0000_0001.
    chr[0] = 0x80;
    chr[8] = 0x01;
    let frame = show_tile(&chr, 0, 0, &grey_palette());

    // Bit 7 belongs to pixel 0: first plane only, index 0b10.
    assert_eq!(pixel_of(&frame, 0, 0), (170, 170, 170));
    // Bit 0 belongs to pixel 7: second plane only, index 0b01.
    assert_eq!(pixel_of(&frame, 7, 0), (85, 85, 85));
    // In between: both planes clear.
    assert_eq!(pixel_of(&frame, 3, 0), (0, 0, 0));
    // Other rows stay black.
    assert_eq!(pixel_of(&frame, 0, 1), (0, 0, 0));
}

#[test]
fn show_tile_reads_from_the_second_bank() {
    let mut chr = vec![0u8; 0x2000];
    // Tile 2 of bank 1, row 3: both planes set at bit 5 — pixel 2.
    chr[0x1000 + 2 * 16 + 3] = 0x20;
    chr[0x1000 + 2 * 16 + 3 + 8] = 0x20;
    let frame = show_tile(&chr, 1, 2, &grey_palette());

    assert_eq!(pixel_of(&frame, 2, 3), (255, 255, 255));
    assert_eq!(pixel_of(&frame, 1, 3), (0, 0, 0));
}

#[test]
fn show_tile_bank_lays_tiles_on_the_grid() {
    let mut chr = vec![0u8; 0x2000];
    // Tile 20 starts the second grid row; light its pixel (0, 0).
    chr[20 * 16] = 0x80;
    // Tile 1 sits one cell right of tile 0.
    chr[16] = 0x80;
    chr[16 + 8] = 0x80;
    let frame = show_tile_bank(&chr, 0, &grey_palette());

    assert_eq!(pixel_of(&frame, 0, 10), (170, 170, 170));
    assert_eq!(pixel_of(&frame, 10, 0), (255, 255, 255));
    assert_eq!(pixel_of(&frame, 0, 0), (0, 0, 0));
}
