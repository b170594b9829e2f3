//! The picture unit's mask register: how sprites and background are
//! rendered. Its 8 bits, from bit 0 up: greyscale, show background in
//! the leftmost 8 pixels, show sprites in the leftmost 8 pixels, show
//! background, show sprites, emphasize red, emphasize green, emphasize
//! blue.

use vstd::prelude::*;

verus! {

pub const MASK_GRAYSCALE: u8 = 0x01;

pub const MASK_LEFTMOST_8PXL_BACKGROUND: u8 = 0x02;

pub const MASK_LEFTMOST_8PXL_SPRITE: u8 = 0x04;

pub const MASK_SHOW_BACKGROUND: u8 = 0x08;

pub const MASK_SHOW_SPRITES: u8 = 0x10;

pub const MASK_EMPHASIZE_RED: u8 = 0x20;

pub const MASK_EMPHASIZE_GREEN: u8 = 0x40;

pub const MASK_EMPHASIZE_BLUE: u8 = 0x80;

/// A colour channel the mask register can emphasize.
#[derive(Clone, Copy, Debug, PartialEq, Eq, Structural)]
pub enum Color {
    Red,
    Green,
    Blue,
}

/// The emphasized channels a mask byte selects, in red-green-blue order.
pub open spec fn emphasize_colors(bits: u8) -> Seq<Color> {
    let reds: Seq<Color> = if bits & MASK_EMPHASIZE_RED != 0 {
        seq![Color::Red]
    } else {
        Seq::empty()
    };
    let greens: Seq<Color> = if bits & MASK_EMPHASIZE_GREEN != 0 {
        seq![Color::Green]
    } else {
        Seq::empty()
    };
    let blues: Seq<Color> = if bits & MASK_EMPHASIZE_BLUE != 0 {
        seq![Color::Blue]
    } else {
        Seq::empty()
    };
    reds + greens + blues
}

/// The mask register, stored as its raw byte.
#[derive(Clone, Copy, Debug)]
pub struct MaskRegister {
    bits: u8,
}

impl View for MaskRegister {
    type V = u8;

    closed spec fn view(&self) -> u8 {
        self.bits
    }
}

impl MaskRegister {
    /// A cleared mask register.
    pub fn new() -> (r: Self)
        ensures
            r@ == 0,
    {
        MaskRegister { bits: 0 }
    }

    /// True when the greyscale bit is set.
    pub fn is_grayscale(&self) -> (r: bool)
        ensures
            r == (self@ & MASK_GRAYSCALE != 0),
    {
        self.bits & MASK_GRAYSCALE != 0
    }

    /// True when the background is shown in the leftmost 8 pixels.
    pub fn leftmost_8xpl_background(&self) -> (r: bool)
        ensures
            r == (self@ & MASK_LEFTMOST_8PXL_BACKGROUND != 0),
    {
        self.bits & MASK_LEFTMOST_8PXL_BACKGROUND != 0
    }

    /// True when sprites are shown in the leftmost 8 pixels.
    pub fn leftmost_8xpl_sprite(&self) -> (r: bool)
        ensures
            r == (self@ & MASK_LEFTMOST_8PXL_SPRITE != 0),
    {
        self.bits & MASK_LEFTMOST_8PXL_SPRITE != 0
    }

    /// True when the background is shown at all.
    pub fn show_background(&self) -> (r: bool)
        ensures
            r == (self@ & MASK_SHOW_BACKGROUND != 0),
    {
        self.bits & MASK_SHOW_BACKGROUND != 0
    }

    /// True when sprites are shown at all.
    pub fn show_sprites(&self) -> (r: bool)
        ensures
            r == (self@ & MASK_SHOW_SPRITES != 0),
    {
        self.bits & MASK_SHOW_SPRITES != 0
    }

    /// The emphasized colour channels, in red-green-blue order.
    pub fn emphasize(&mut self) -> (r: Vec<Color>)
        ensures
            *final(self) == *old(self),
            r@ == emphasize_colors(old(self)@),
    {
        let mut result: Vec<Color> = Vec::new();
        if self.bits & MASK_EMPHASIZE_RED != 0 {
            result.push(Color::Red);
        }
        if self.bits & MASK_EMPHASIZE_GREEN != 0 {
            result.push(Color::Green);
        }
        if self.bits & MASK_EMPHASIZE_BLUE != 0 {
            result.push(Color::Blue);
        }
        proof {
            assert(result@ =~= emphasize_colors(self@));
        }
        result
    }

    /// Stores a byte written through the mapped window.
    pub fn update(&mut self, data: u8)
        ensures
            final(self)@ == data,
    {
        self.bits = data;
    }
}

} // verus!
