//! Decoding graphics-ROM tiles into a pixel frame.
//!
//! A tile is 16 bytes of two bit planes; each of its 64 pixels carries a
//! two-bit colour index. The frame is a 256 by 240 buffer of RGB
//! triples. Which RGB triple stands for each index is the embedding
//! program's choice: the four entries come in as a parameter, so the
//! decoding logic stays free of presentation data.

use vstd::prelude::*;

verus! {

/// Frame width in pixels.
pub const FRAME_WIDTH: usize = 256;

/// Frame height in pixels.
pub const FRAME_HEIGHT: usize = 240;

/// The RGB triple of the pixel at `(x, y)` in a frame buffer.
pub open spec fn pixel(data: Seq<u8>, x: int, y: int) -> (u8, u8, u8) {
    let base = (y * 256 + x) * 3;
    (data[base], data[base + 1], data[base + 2])
}

/// The two-bit colour index of pixel `(x, y)` of one tile: bit `7 - x`
/// of the tile's second bit plane above the same bit of the first.
pub open spec fn tile_color_index(chr: Seq<u8>, bank: int, tile_n: int, x: int, y: int) -> u8 {
    let upper = chr[bank * 0x1000 + tile_n * 16 + y];
    let lower = chr[bank * 0x1000 + tile_n * 16 + y + 8];
    (((upper >> (7 - x) as u8) & 1) << 1) | ((lower >> (7 - x) as u8) & 1)
}

/// A 256 by 240 RGB frame buffer, three bytes per pixel.
pub struct Frame {
    pub data: Vec<u8>,
}

impl Frame {
    /// The frame's size invariant.
    pub open spec fn wf(&self) -> bool {
        self.data@.len() == 256 * 240 * 3
    }

    /// A black frame.
    pub fn new() -> (r: Self)
        ensures
            r.wf(),
            forall|i: int, j: int|
                0 <= i < 256 && 0 <= j < 240 ==> pixel(r.data@, i, j) == (0u8, 0u8, 0u8),
    {
        let frame = Frame { data: crate::cartridge::zero_vec(256 * 240 * 3) };
        proof {
            assert forall|i: int, j: int| 0 <= i < 256 && 0 <= j < 240 implies pixel(
                frame.data@,
                i,
                j,
            ) == (0u8, 0u8, 0u8) by {
                assert(0 <= (j * 256 + i) * 3 && (j * 256 + i) * 3 + 2 < 256 * 240 * 3);
            }
        }
        frame
    }

    /// Paints the pixel at `(x, y)`; every other pixel keeps its colour.
    pub fn set_pixel(&mut self, x: usize, y: usize, rgb: (u8, u8, u8))
        requires
            old(self).wf(),
            x < 256,
            y < 240,
        ensures
            final(self).wf(),
            pixel(final(self).data@, x as int, y as int) == rgb,
            forall|i: int, j: int|
                0 <= i < 256 && 0 <= j < 240 && !(i == x && j == y) ==> pixel(
                    final(self).data@,
                    i,
                    j,
                ) == pixel(old(self).data@, i, j),
    {
        let base = (y * 256 + x) * 3;
        self.data.set(base, rgb.0);
        self.data.set(base + 1, rgb.1);
        self.data.set(base + 2, rgb.2);
        proof {
            assert forall|i: int, j: int|
                0 <= i < 256 && 0 <= j < 240 && !(i == x && j == y) implies pixel(
                final(self).data@,
                i,
                j,
            ) == pixel(old(self).data@, i, j) by {
                assert(j * 256 + i != y * 256 + x);
                assert((j * 256 + i) * 3 + 2 < (y * 256 + x) * 3 || (j * 256 + i) * 3 > (y * 256
                    + x) * 3 + 2);
            }
        }
    }
}

/// Draws one 8 by 8 tile with its top-left corner at `(tx, ty)`. The
/// four palette entries stand for the tile's four colour indices; every
/// pixel outside the tile's box keeps its colour.
pub fn draw_tile(
    frame: &mut Frame,
    chr_rom: &Vec<u8>,
    bank: usize,
    tile_n: usize,
    tx: usize,
    ty: usize,
    palette: &Vec<(u8, u8, u8)>,
)
    requires
        old(frame).wf(),
        chr_rom@.len() == 0x2000,
        bank <= 1,
        tile_n < 256,
        tx + 8 <= 256,
        ty + 8 <= 240,
        palette@.len() == 4,
    ensures
        final(frame).wf(),
        forall|x: int, y: int|
            0 <= x < 8 && 0 <= y < 8 ==> pixel(final(frame).data@, tx + x, ty + y) == palette@[(
            tile_color_index(chr_rom@, bank as int, tile_n as int, x, y) as int)],
        forall|i: int, j: int|
            0 <= i < 256 && 0 <= j < 240 && !(tx <= i < tx + 8 && ty <= j < ty + 8) ==> pixel(
                final(frame).data@,
                i,
                j,
            ) == pixel(old(frame).data@, i, j),
{
    let bank_offset = bank * 0x1000;
    let mut y: usize = 0;
    while y < 8
        invariant
            frame.wf(),
            chr_rom@.len() == 0x2000,
            bank <= 1,
            tile_n < 256,
            bank_offset == bank * 0x1000,
            tx + 8 <= 256,
            ty + 8 <= 240,
            palette@.len() == 4,
            y <= 8,
            forall|px: int, py: int|
                0 <= px < 8 && 0 <= py < y ==> pixel(frame.data@, tx + px, ty + py) == palette@[(
                tile_color_index(chr_rom@, bank as int, tile_n as int, px, py) as int)],
            forall|i: int, j: int|
                0 <= i < 256 && 0 <= j < 240 && !(tx <= i < tx + 8 && ty <= j < ty + y) ==> pixel(
                    frame.data@,
                    i,
                    j,
                ) == pixel(old(frame).data@, i, j),
        decreases 8 - y,
    {
        let upper = chr_rom[bank_offset + tile_n * 16 + y];
        let lower = chr_rom[bank_offset + tile_n * 16 + y + 8];
        let mut x: usize = 0;
        while x < 8
            invariant
                frame.wf(),
                chr_rom@.len() == 0x2000,
                bank <= 1,
                tile_n < 256,
                bank_offset == bank * 0x1000,
                tx + 8 <= 256,
                ty + 8 <= 240,
                palette@.len() == 4,
                y < 8,
                x <= 8,
                upper == chr_rom@[bank as int * 0x1000 + tile_n as int * 16 + y],
                lower == chr_rom@[bank as int * 0x1000 + tile_n as int * 16 + y + 8],
                forall|px: int, py: int|
                    0 <= px < 8 && 0 <= py < y ==> pixel(frame.data@, tx + px, ty + py)
                        == palette@[(tile_color_index(
                        chr_rom@,
                        bank as int,
                        tile_n as int,
                        px,
                        py,
                    ) as int)],
                forall|px: int|
                    0 <= px < x ==> pixel(frame.data@, tx + px, ty + y as int) == palette@[(
                    tile_color_index(chr_rom@, bank as int, tile_n as int, px, y as int) as int)],
                forall|i: int, j: int|
                    0 <= i < 256 && 0 <= j < 240 && !(tx <= i < tx + 8 && ty <= j < ty + y) && !(tx
                        <= i < tx + x && j == ty + y) ==> pixel(frame.data@, i, j) == pixel(
                        old(frame).data@,
                        i,
                        j,
                    ),
            decreases 8 - x,
        {
            let shift = (7 - x) as u8;
            let value = (((upper >> shift) & 1) << 1) | ((lower >> shift) & 1);
            proof {
                assert((((upper >> shift) & 1) << 1) | ((lower >> shift) & 1) < 4) by (bit_vector);
            }
            frame.set_pixel(tx + x, ty + y, palette[value as usize]);
            x = x + 1;
        }
        y = y + 1;
    }
}

/// Renders one tile of a graphics-ROM bank into a fresh frame at the
/// top-left corner; the rest of the frame is black.
pub fn show_tile(chr_rom: &Vec<u8>, bank: usize, tile_n: usize, palette: &Vec<(u8, u8, u8)>) -> (r:
    Frame)
    requires
        chr_rom@.len() == 0x2000,
        bank <= 1,
        tile_n < 256,
        palette@.len() == 4,
    ensures
        r.wf(),
        forall|x: int, y: int|
            0 <= x < 8 && 0 <= y < 8 ==> pixel(r.data@, x, y) == palette@[(tile_color_index(
                chr_rom@,
                bank as int,
                tile_n as int,
                x,
                y,
            ) as int)],
        forall|i: int, j: int|
            0 <= i < 256 && 0 <= j < 240 && !(i < 8 && j < 8) ==> pixel(r.data@, i, j) == (
            0u8,
            0u8,
            0u8,
            ),
{
    let mut frame = Frame::new();
    draw_tile(&mut frame, chr_rom, bank, tile_n, 0, 0, palette);
    frame
}

/// Where tile `n` of a bank view sits in the frame: a grid of 20 tile
/// cells per row, 10 pixels apart.
pub open spec fn bank_cell(n: int) -> (int, int) {
    ((n % 20) * 10, (n / 20) * 10)
}

/// Whether pixel `(i, j)` lies inside tile `n`'s 8 by 8 grid cell.
pub open spec fn in_bank_cell(n: int, i: int, j: int) -> bool {
    bank_cell(n).0 <= i < bank_cell(n).0 + 8 && bank_cell(n).1 <= j < bank_cell(n).1 + 8
}

/// Renders the first 255 tiles of a graphics-ROM bank into a fresh
/// frame, laid out on the `bank_cell` grid.
pub fn show_tile_bank(chr_rom: &Vec<u8>, bank: usize, palette: &Vec<(u8, u8, u8)>) -> (r: Frame)
    requires
        chr_rom@.len() == 0x2000,
        bank <= 1,
        palette@.len() == 4,
    ensures
        r.wf(),
        forall|n: int, x: int, y: int|
            0 <= n < 255 && 0 <= x < 8 && 0 <= y < 8 ==> pixel(
                r.data@,
                bank_cell(n).0 + x,
                bank_cell(n).1 + y,
            ) == palette@[(tile_color_index(chr_rom@, bank as int, n, x, y) as int)],
        forall|i: int, j: int|
            0 <= i < 256 && 0 <= j < 240 && (forall|n: int| 0 <= n < 255 ==> !in_bank_cell(n, i, j))
                ==> pixel(r.data@, i, j) == (0u8, 0u8, 0u8),
{
    let mut frame = Frame::new();
    let mut n: usize = 0;
    while n < 255
        invariant
            frame.wf(),
            chr_rom@.len() == 0x2000,
            bank <= 1,
            palette@.len() == 4,
            n <= 255,
            forall|m: int, x: int, y: int|
                0 <= m < n && 0 <= x < 8 && 0 <= y < 8 ==> pixel(
                    frame.data@,
                    bank_cell(m).0 + x,
                    bank_cell(m).1 + y,
                ) == palette@[(tile_color_index(chr_rom@, bank as int, m, x, y) as int)],
            forall|i: int, j: int|
                0 <= i < 256 && 0 <= j < 240 && (forall|m: int|
                    0 <= m < n ==> !in_bank_cell(m, i, j)) ==> pixel(frame.data@, i, j) == (
                0u8,
                0u8,
                0u8,
                ),
        decreases 255 - n,
    {
        let tile_x = (n % 20) * 10;
        let tile_y = (n / 20) * 10;
        proof {
            assert(tile_x + 8 <= 256 && tile_y + 8 <= 240) by {
                assert(n % 20 < 20 && n / 20 <= 12) by (nonlinear_arith)
                    requires
                        n < 255,
                ;
            }
        }
        let ghost before = frame.data@;
        draw_tile(&mut frame, chr_rom, bank, n, tile_x, tile_y, palette);
        proof {
            assert(tile_x as int == bank_cell(n as int).0 && tile_y as int == bank_cell(
                n as int,
            ).1);
            assert forall|m: int, x: int, y: int|
                0 <= m < n + 1 && 0 <= x < 8 && 0 <= y < 8 implies pixel(
                frame.data@,
                bank_cell(m).0 + x,
                bank_cell(m).1 + y,
            ) == palette@[(tile_color_index(chr_rom@, bank as int, m, x, y) as int)] by {
                if m < n {
                    lemma_cells_disjoint(m, n as int);
                }
            }
            assert forall|i: int, j: int|
                0 <= i < 256 && 0 <= j < 240 && (forall|m: int|
                    0 <= m < n + 1 ==> !in_bank_cell(m, i, j)) implies pixel(frame.data@, i, j)
                == (0u8, 0u8, 0u8) by {
                assert(!in_bank_cell(n as int, i, j));
                assert(pixel(frame.data@, i, j) == pixel(before, i, j));
                assert(forall|m: int| 0 <= m < n ==> !in_bank_cell(m, i, j));
            }
        }
        n = n + 1;
    }
    frame
}

/// Different grid cells never overlap: their corners stand at least 10
/// pixels apart in one direction, and a tile spans 8.
proof fn lemma_cells_disjoint(m: int, n: int)
    requires
        0 <= m,
        0 <= n,
        m != n,
    ensures
        bank_cell(m).0 + 10 <= bank_cell(n).0 || bank_cell(n).0 + 10 <= bank_cell(m).0
            || bank_cell(m).1 + 10 <= bank_cell(n).1 || bank_cell(n).1 + 10 <= bank_cell(m).1,
{
    vstd::arithmetic::div_mod::lemma_fundamental_div_mod(m, 20);
    vstd::arithmetic::div_mod::lemma_fundamental_div_mod(n, 20);
    vstd::arithmetic::div_mod::lemma_mod_bound(m, 20);
    vstd::arithmetic::div_mod::lemma_mod_bound(n, 20);
}

} // verus!
