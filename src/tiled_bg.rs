//! Tiled backgrounds: the control register fields, the scroll offsets and the
//! tile maps in video memory.
use vstd::prelude::*;
use crate::ptr::Ptr;
use crate::reg::{REG_BGCNT, REG_BG_OFS, VRAM};
use crate::sprites::{bit, replace_bits, ColorMode};

verus! {

/// The value of one background control register.
#[derive(Clone, Copy, Debug, PartialEq, Eq, Structural)]
pub struct BgControl(pub u16);

/// Bytes of video memory taken by one screen block of 0x400 tile entries.
pub const SCREENBLOCK_BYTES: u32 = 0x800;

/// Number of tile entries in a screen block.
pub const SCREENBLOCK_ENTRIES: u32 = 0x400;

impl BgControl {
    /// Address of control register `n` (taken modulo 4: there are four).
    pub fn register_address(n: u32) -> (r: u32)
        ensures
            r == REG_BGCNT + 2 * (n % 4),
    {
        let k = n & 3;
        assert(n & 3 == n % 4 && n & 3 < 4) by (bit_vector);
        REG_BGCNT + 2 * k
    }

    /// Set the priority (low two bits of `priority`) in bits 0 and 1.
    pub fn set_priority(&mut self, priority: u16)
        ensures
            final(self).0 == replace_bits(old(self).0, 0b11, priority & 0b11),
    {
        let priority = priority & 0b11;
        self.0 = (self.0 & !0b11u16) | priority;
    }

    /// Set the character base block (low two bits of `block_n`) in bits 2 and 3.
    pub fn set_character_base_block(&mut self, block_n: u16)
        ensures
            final(self).0 == replace_bits(old(self).0, 0b1100, (block_n & 0b11) << 2u16),
    {
        let block_n = block_n & 0b11;
        self.0 = (self.0 & !0b1100u16) | (block_n << 2u16);
    }

    /// Set the colour mode in bit 7.
    pub fn set_color_mode(&mut self, color_mode: ColorMode)
        ensures
            final(self).0 == replace_bits(old(self).0, 0x80, color_mode.value() >> 6u16),
    {
        self.0 = (self.0 & !0x80u16) | (color_mode.bits() >> 6u16);
    }

    /// Set the mosaic flag in bit 6.
    pub fn set_mosaic_enabled(&mut self, mosaic: bool)
        ensures
            final(self).0 == replace_bits(old(self).0, 0x40, bit(mosaic) << 6u16),
    {
        let p: u16 = if mosaic {
            1
        } else {
            0
        };
        self.0 = (self.0 & !0x40u16) | (p << 6u16);
    }

    /// Set the affine wrapping flag in bit 13.
    pub fn set_affine_wrapping_enabled(&mut self, wrapping: bool)
        ensures
            final(self).0 == replace_bits(old(self).0, 0x2000, bit(wrapping) << 13u16),
    {
        let p: u16 = if wrapping {
            1
        } else {
            0
        };
        self.0 = (self.0 & !0x2000u16) | (p << 13u16);
    }

    /// Or the screen base block (low five bits of `block_n`) into bits 8 to
    /// 12. The bits already there are kept.
    pub fn set_screen_base_block(&mut self, block_n: u16)
        ensures
            final(self).0 == old(self).0 | ((block_n & 0b11111) << 8u16),
    {
        let block_n = block_n & 0b11111;
        self.0 = self.0 | (block_n << 8u16);
    }

    /// Set the size bits (14 and 15).
    pub fn set_bg_size<Bg: BgSize>(&mut self, bg_size: Bg)
        ensures
            final(self).0 == (old(self).0 & 0x3FFF) | bg_size.bg_bits(),
    {
        let bits = bg_size.into_bg_bits();
        self.0 = (self.0 & 0x3FFF) | bits;
    }
}

/// A background size, as the two top bits of the control register.
pub trait BgSize {
    spec fn bg_bits(&self) -> u16;

    fn into_bg_bits(self) -> (r: u16)
        ensures
            r == self.bg_bits(),
    ;
}

/// Sizes of a regular background, in tiles of 8x8 pixels.
#[derive(Clone, Copy, Debug, PartialEq, Eq, Structural)]
pub enum RegularBgSize {
    /// 256x256 pixels.
    _32x32,
    /// 512x256 pixels.
    _64x32,
    /// 256x512 pixels.
    _32x64,
    /// 512x512 pixels.
    _64x64,
}

impl BgSize for RegularBgSize {
    open spec fn bg_bits(&self) -> u16 {
        match *self {
            RegularBgSize::_32x32 => 0x0000,
            RegularBgSize::_64x32 => 0x4000,
            RegularBgSize::_32x64 => 0x8000,
            RegularBgSize::_64x64 => 0xC000,
        }
    }

    fn into_bg_bits(self) -> (r: u16) {
        match self {
            RegularBgSize::_32x32 => 0x0000,
            RegularBgSize::_64x32 => 0x4000,
            RegularBgSize::_32x64 => 0x8000,
            RegularBgSize::_64x64 => 0xC000,
        }
    }
}

/// Sizes of an affine background, in tiles.
#[derive(Clone, Copy, Debug, PartialEq, Eq, Structural)]
pub enum AffineBgSize {
    _16x16,
    _32x32,
    _64x64,
    _128x128,
}

impl BgSize for AffineBgSize {
    open spec fn bg_bits(&self) -> u16 {
        match *self {
            AffineBgSize::_16x16 => 0x0000,
            AffineBgSize::_32x32 => 0x4000,
            AffineBgSize::_64x64 => 0x8000,
            AffineBgSize::_128x128 => 0xC000,
        }
    }

    fn into_bg_bits(self) -> (r: u16) {
        match self {
            AffineBgSize::_16x16 => 0x0000,
            AffineBgSize::_32x32 => 0x4000,
            AffineBgSize::_64x64 => 0x8000,
            AffineBgSize::_128x128 => 0xC000,
        }
    }
}

/// The scroll offset of background `n`. The hardware registers are write
/// only, so the current x and y are kept here; whoever holds the value writes
/// it to `register_address` after each change. Offsets wrap around.
#[derive(Clone, Copy, Debug, PartialEq, Eq, Structural)]
pub struct BgOffset {
    pub x: i16,
    pub y: i16,
    pub n: u32,
}

impl BgOffset {
    /// The offset `(x, y)` of background `n` (taken modulo 4).
    pub fn get(x: i16, y: i16, n: u32) -> (r: BgOffset)
        ensures
            r == (BgOffset { x, y, n: n % 4 }),
    {
        let k = n & 3;
        assert(n & 3 == n % 4) by (bit_vector);
        BgOffset { x, y, n: k }
    }

    /// Address of this background's offset registers (x, then y).
    pub fn register_address(&self) -> (r: u32)
        requires
            self.n < 4,
        ensures
            r == REG_BG_OFS + 4 * self.n,
    {
        REG_BG_OFS + 4 * self.n
    }

    pub fn set_x(&mut self, x: i16) -> (r: &mut BgOffset)
        ensures
            *r == (BgOffset { x, ..*old(self) }),
            *final(self) == *final(r),
    {
        self.x = x;
        self
    }

    pub fn set_y(&mut self, y: i16) -> (r: &mut BgOffset)
        ensures
            *r == (BgOffset { y, ..*old(self) }),
            *final(self) == *final(r),
    {
        self.y = y;
        self
    }

    pub fn set(&mut self, x: i16, y: i16) -> (r: &mut BgOffset)
        ensures
            *r == (BgOffset { x, y, ..*old(self) }),
            *final(self) == *final(r),
    {
        self.x = x;
        self.y = y;
        self
    }

    /// Move by `(x, y)`, wrapping around.
    pub fn translate(&mut self, x: i16, y: i16) -> (r: &mut BgOffset)
        ensures
            *r == (BgOffset { x: old(self).x.wrapping_add(x), y: old(self).y.wrapping_add(y), ..*old(self) }),
            *final(self) == *final(r),
    {
        self.x = self.x.wrapping_add(x);
        self.y = self.y.wrapping_add(y);
        self
    }

    /// As `set_x`, without handing the offset back for chaining.
    pub fn set_x_nc(&mut self, x: i16)
        ensures
            *final(self) == (BgOffset { x, ..*old(self) }),
    {
        self.x = x;
    }

    /// As `set_y`, without handing the offset back for chaining.
    pub fn set_y_nc(&mut self, y: i16)
        ensures
            *final(self) == (BgOffset { y, ..*old(self) }),
    {
        self.y = y;
    }

    /// As `set`, without handing the offset back for chaining.
    pub fn set_nc(&mut self, x: i16, y: i16)
        ensures
            *final(self) == (BgOffset { x, y, ..*old(self) }),
    {
        self.x = x;
        self.y = y;
    }

    /// As `translate`, without handing the offset back for chaining.
    pub fn translate_nc(&mut self, x: i16, y: i16)
        ensures
            *final(self) == (BgOffset { x: old(self).x.wrapping_add(x), y: old(self).y.wrapping_add(y), ..*old(self) }),
    {
        self.x = self.x.wrapping_add(x);
        self.y = self.y.wrapping_add(y);
    }
}

/// One entry of a tile map: which tile, and its palette and flips.
#[derive(Clone, Copy, Debug, PartialEq, Eq, Structural)]
pub struct TileEntry(pub u16);

/// A tile map held in one of the 32 screen blocks of video memory.
#[derive(Clone, Copy, Debug, PartialEq, Eq, Structural)]
pub struct Tilemap {
    pub base: u32,
}

impl Tilemap {
    /// The map in screen block `n` (taken modulo 32). Its memory is not
    /// cleared.
    pub fn new(n: i32) -> (r: Tilemap)
        ensures
            r.base == VRAM + SCREENBLOCK_BYTES * (n % 32),
    {
        let k = (n & 31) as u32;
        assert((n & 31) == n % 32 && 0 <= n & 31 < 32) by (bit_vector);
        Tilemap { base: VRAM + SCREENBLOCK_BYTES * k }
    }

    /// The address of entry `i` of the map.
    pub fn entry(&self, i: u32) -> (r: Ptr<TileEntry>)
        requires
            self.base + 2 * i <= u32::MAX,
        ensures
            r.num == self.base + 2 * i,
    {
        Ptr::from_u32(self.base + 2 * i)
    }
}

/// The affine parameters of a background: the reference point, after the
/// four matrix words.
#[derive(Clone, Copy, Debug)]
pub struct BgAffine {
    pub padding: [u16; 4],
    pub dx: i32,
    pub dy: i32,
}

} // verus!
