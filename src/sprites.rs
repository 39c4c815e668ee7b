//! Sprite attribute words: the fields of the three 16-bit attributes of an
//! object and how each setter packs its field.
use vstd::prelude::*;

verus! {

/// Special effects for a sprite (attribute 0, bits 10 and 11).
#[derive(Clone, Copy, Debug, PartialEq, Eq, Structural)]
pub enum SpriteMode {
    /// Normal rendering.
    Normal,
    /// Alpha blending.
    Alpha,
    /// Part of the object window: not drawn, used as a mask.
    Masked,
    /// Not a valid mode; kept for experiments.
    Forbidden,
}

impl SpriteMode {
    pub open spec fn value(self) -> u16 {
        match self {
            SpriteMode::Normal => 0x0000,
            SpriteMode::Alpha => 0x0400,
            SpriteMode::Masked => 0x0800,
            SpriteMode::Forbidden => 0x0C00,
        }
    }

    fn bits(self) -> (r: u16)
        ensures
            r == self.value(),
    {
        match self {
            SpriteMode::Normal => 0x0000,
            SpriteMode::Alpha => 0x0400,
            SpriteMode::Masked => 0x0800,
            SpriteMode::Forbidden => 0x0C00,
        }
    }
}

/// Affine rendering of a sprite (attribute 0, bits 8 and 9).
#[derive(Clone, Copy, Debug, PartialEq, Eq, Structural)]
pub enum AffineMode {
    /// No affine transform.
    Normal,
    /// Uses the selected affine matrix.
    Affine,
    /// The sprite is hidden.
    Disabled,
    /// Affine, with the drawing area doubled.
    Doubled,
}

impl AffineMode {
    pub open spec fn value(self) -> u16 {
        match self {
            AffineMode::Normal => 0x0000,
            AffineMode::Affine => 0x0100,
            AffineMode::Disabled => 0x0200,
            AffineMode::Doubled => 0x0300,
        }
    }

    fn bits(self) -> (r: u16)
        ensures
            r == self.value(),
    {
        match self {
            AffineMode::Normal => 0x0000,
            AffineMode::Affine => 0x0100,
            AffineMode::Disabled => 0x0200,
            AffineMode::Doubled => 0x0300,
        }
    }
}

/// Colour depth of a sprite's tiles (attribute 0, bit 13).
#[derive(Clone, Copy, Debug, PartialEq, Eq, Structural)]
pub enum ColorMode {
    /// 16 colours, 4 bits a pixel.
    _4bpp,
    /// 256 colours, 8 bits a pixel.
    _8bpp,
}

impl ColorMode {
    pub open spec fn value(self) -> u16 {
        match self {
            ColorMode::_4bpp => 0x0000,
            ColorMode::_8bpp => 0x2000,
        }
    }

    pub fn bits(self) -> (r: u16)
        ensures
            r == self.value(),
    {
        match self {
            ColorMode::_4bpp => 0x0000,
            ColorMode::_8bpp => 0x2000,
        }
    }
}

/// A sprite's width and height in pixels. The shape goes into attribute 0,
/// the size into attribute 1: the high half of `value` is the shape bits,
/// the low half the size bits.
#[derive(Clone, Copy, Debug, PartialEq, Eq, Structural)]
pub enum SpriteDimensions {
    _8x8,
    _16x16,
    _32x32,
    _64x64,
    _16x8,
    _32x8,
    _32x16,
    _64x32,
    _8x16,
    _8x32,
    _16x32,
    _32x64,
}

impl SpriteDimensions {
    pub open spec fn value(self) -> u32 {
        match self {
            SpriteDimensions::_8x8 => 0x0000_0000,
            SpriteDimensions::_16x16 => 0x0000_4000,
            SpriteDimensions::_32x32 => 0x0000_8000,
            SpriteDimensions::_64x64 => 0x0000_C000,
            SpriteDimensions::_16x8 => 0x4000_0000,
            SpriteDimensions::_32x8 => 0x4000_4000,
            SpriteDimensions::_32x16 => 0x4000_8000,
            SpriteDimensions::_64x32 => 0x4000_C000,
            SpriteDimensions::_8x16 => 0x8000_0000,
            SpriteDimensions::_8x32 => 0x8000_4000,
            SpriteDimensions::_16x32 => 0x8000_8000,
            SpriteDimensions::_32x64 => 0x8000_C000,
        }
    }

    /// The shape bits (for attribute 0) and the size bits (for attribute 1).
    pub fn into_tuple(self) -> (r: (u16, u16))
        ensures
            r.0 == self.value() / 0x1_0000,
            r.1 == self.value() % 0x1_0000,
    {
        match self {
            SpriteDimensions::_8x8 => (0x0000, 0x0000),
            SpriteDimensions::_16x16 => (0x0000, 0x4000),
            SpriteDimensions::_32x32 => (0x0000, 0x8000),
            SpriteDimensions::_64x64 => (0x0000, 0xC000),
            SpriteDimensions::_16x8 => (0x4000, 0x0000),
            SpriteDimensions::_32x8 => (0x4000, 0x4000),
            SpriteDimensions::_32x16 => (0x4000, 0x8000),
            SpriteDimensions::_64x32 => (0x4000, 0xC000),
            SpriteDimensions::_8x16 => (0x8000, 0x0000),
            SpriteDimensions::_8x32 => (0x8000, 0x4000),
            SpriteDimensions::_16x32 => (0x8000, 0x8000),
            SpriteDimensions::_32x64 => (0x8000, 0xC000),
        }
    }
}

/// Drawing priority of a sprite (attribute 2, bits 10 and 11).
#[derive(Clone, Copy, Debug, PartialEq, Eq, Structural)]
pub enum SpritePriority {
    Last,
    Background,
    Foreground,
    First,
}

impl SpritePriority {
    pub open spec fn value(self) -> u16 {
        match self {
            SpritePriority::Last => 0x0000,
            SpritePriority::Background => 0x0400,
            SpritePriority::Foreground => 0x0800,
            SpritePriority::First => 0x0C00,
        }
    }

    fn bits(self) -> (r: u16)
        ensures
            r == self.value(),
    {
        match self {
            SpritePriority::Last => 0x0000,
            SpritePriority::Background => 0x0400,
            SpritePriority::Foreground => 0x0800,
            SpritePriority::First => 0x0C00,
        }
    }
}

/// Y coordinate, attribute 0.
pub const Y_COORD_MASK: u16 = 0x00FF;
/// Affine mode, attribute 0.
pub const AFFINE_MODE_MASK: u16 = 0x0300;
/// Special effects mode, attribute 0.
pub const SPRITE_MODE_MASK: u16 = 0x0C00;
/// Mosaic enable, attribute 0.
pub const MOSAIC_MASK: u16 = 0x1000;
/// Colour mode, attribute 0.
pub const COLOR_MODE_MASK: u16 = 0x2000;
/// Shape, attribute 0.
pub const SPRITE_SHAPE_MASK: u16 = 0xC000;
/// X coordinate (nine bits), attribute 1.
pub const X_COORD_MASK: u16 = 0x01FF;
/// Horizontal flip, attribute 1.
pub const HORIZONTAL_FLIP_MASK: u16 = 0x1000;
/// Vertical flip, attribute 1.
pub const VERTICAL_FLIP_MASK: u16 = 0x2000;
/// Size, attribute 1.
pub const SPRITE_SIZE_MASK: u16 = 0xC000;
/// Tile index, attribute 2.
pub const TILE_INDEX_MASK: u16 = 0x03FF;
/// Priority, attribute 2.
pub const PRIORITY_MASK: u16 = 0x0C00;
/// Palette bank, attribute 2.
pub const PALETTE_BANK_INDEX_MASK: u16 = 0xF000;

/// The three attribute words of one sprite, as laid out in object memory,
/// with a filler word that keeps the entry word aligned.
#[derive(Clone, Copy, Debug, PartialEq, Eq, Structural)]
pub struct SpriteAttributes {
    pub a0: u16,
    pub a1: u16,
    pub a2: u16,
    pub filler: u16,
}

/// `word` with the bits of `mask` replaced by `value`.
pub open spec fn replace_bits(word: u16, mask: u16, value: u16) -> u16 {
    (word & !mask) | value
}

/// One for `true`, zero for `false`.
pub open spec fn bit(b: bool) -> u16 {
    if b {
        1
    } else {
        0
    }
}

fn bit_of(b: bool) -> (r: u16)
    ensures
        r == bit(b),
{
    if b {
        1
    } else {
        0
    }
}

impl SpriteAttributes {
    /// All three attributes zero.
    pub fn default() -> (r: SpriteAttributes)
        ensures
            r.a0 == 0 && r.a1 == 0 && r.a2 == 0 && r.filler == 0,
    {
        SpriteAttributes { a0: 0, a1: 0, a2: 0, filler: 0 }
    }

    /// Attributes with every field set from the arguments, starting from
    /// zero. Each field goes to its own bits, so the words are the fields
    /// side by side.
    pub fn new(
        x: u16,
        y: u16,
        affine_mode: AffineMode,
        sprite_mode: SpriteMode,
        dimensions: SpriteDimensions,
        color_mode: ColorMode,
        mosaic_enabled: bool,
        horizontal_flipped: bool,
        vertical_flipped: bool,
        priority: SpritePriority,
        palette_bank_index: u16,
        tile_index: u16,
    ) -> (r: SpriteAttributes)
        ensures
            r.a0 == (y & Y_COORD_MASK) | (dimensions.value() / 0x1_0000) as u16 | color_mode.value()
                | affine_mode.value() | sprite_mode.value() | (bit(mosaic_enabled) << 12u16),
            r.a1 == (x & X_COORD_MASK) | (dimensions.value() % 0x1_0000) as u16 | (bit(
                vertical_flipped,
            ) << 13u16) | (bit(horizontal_flipped) << 12u16),
            r.a2 == priority.value() | (tile_index & TILE_INDEX_MASK) | (palette_bank_index << 12u16),
            r.filler == 0,
    {
        let mut result = Self::default();
        result.set_x(x);
        result.set_y(y);
        result.set_priority(priority);
        result.set_dimensions(dimensions);
        result.set_tile_index(tile_index);
        result.set_color_mode(color_mode);
        result.set_affine_mode(affine_mode);
        result.set_sprite_mode(sprite_mode);
        result.set_mosaic_enabled(mosaic_enabled);
        result.set_vertically_flipped(vertical_flipped);
        result.set_palette_bank_index(palette_bank_index);
        result.set_horizontally_flipped(horizontal_flipped);
        let (w, h) = dimensions.into_tuple();
        let ghost yv = y;
        let ghost xv = x;
        let ghost am = affine_mode.value();
        let ghost sm = sprite_mode.value();
        let ghost cm = color_mode.value();
        let ghost m = bit(mosaic_enabled);
        let ghost hf = bit(horizontal_flipped);
        let ghost vf = bit(vertical_flipped);
        let ghost pr = priority.value();
        let ghost ti = tile_index;
        let ghost pb = palette_bank_index;
        proof {
            assert(w == 0 || w == 0x4000 || w == 0x8000);
            assert(h == 0 || h == 0x4000 || h == 0x8000 || h == 0xC000);
            assert(replace_bits(
                replace_bits(
                    replace_bits(
                        replace_bits(replace_bits(replace_bits(0, 0x00FF, yv & 0x00FF), 0xC000, w), 0x2000, cm),
                        0x0300,
                        am,
                    ),
                    0x0C00,
                    sm,
                ),
                0x1000,
                m << 12u16,
            ) == (yv & 0x00FF) | w | cm | am | sm | (m << 12u16)) by (bit_vector)
                requires
                    w == 0 || w == 0x4000 || w == 0x8000,
                    cm == 0 || cm == 0x2000,
                    am == 0 || am == 0x100 || am == 0x200 || am == 0x300,
                    sm == 0 || sm == 0x400 || sm == 0x800 || sm == 0xC00,
                    m == 0 || m == 1,
            ;
            assert(replace_bits(
                replace_bits(
                    replace_bits(replace_bits(0, 0x01FF, xv & 0x01FF), 0xC000, h),
                    0x2000,
                    vf << 13u16,
                ),
                0x1000,
                hf << 12u16,
            ) == (xv & 0x01FF) | h | (vf << 13u16) | (hf << 12u16)) by (bit_vector)
                requires
                    h == 0 || h == 0x4000 || h == 0x8000 || h == 0xC000,
                    vf == 0 || vf == 1,
                    hf == 0 || hf == 1,
            ;
            assert(replace_bits(
                replace_bits(replace_bits(0, 0x0C00, pr), 0x03FF, ti & 0x03FF),
                0xF000,
                pb << 12u16,
            ) == pr | (ti & 0x03FF) | (pb << 12u16)) by (bit_vector)
                requires
                    pr == 0 || pr == 0x400 || pr == 0x800 || pr == 0xC00,
            ;
        }
        result
    }

    /// Set the X coordinate (its low nine bits).
    pub fn set_x(&mut self, x: u16)
        ensures
            *final(self) == (SpriteAttributes { a1: replace_bits(old(self).a1, X_COORD_MASK, x & X_COORD_MASK), ..*old(self) }),
    {
        let x = x & X_COORD_MASK;
        self.a1 = (self.a1 & !X_COORD_MASK) | x;
    }

    /// Set the Y coordinate (its low eight bits).
    pub fn set_y(&mut self, y: u16)
        ensures
            *final(self) == (SpriteAttributes { a0: replace_bits(old(self).a0, Y_COORD_MASK, y & Y_COORD_MASK), ..*old(self) }),
    {
        let y = y & Y_COORD_MASK;
        self.a0 = (self.a0 & !Y_COORD_MASK) | y;
    }

    pub fn set_priority(&mut self, priority: SpritePriority)
        ensures
            *final(self) == (SpriteAttributes { a2: replace_bits(old(self).a2, PRIORITY_MASK, priority.value()), ..*old(self) }),
    {
        let pr = priority.bits();
        self.a2 = (self.a2 & !PRIORITY_MASK) | pr;
    }

    /// Set the shape bits in attribute 0 and the size bits in attribute 1.
    pub fn set_dimensions(&mut self, dim: SpriteDimensions)
        ensures
            *final(self) == (SpriteAttributes {
                a0: replace_bits(old(self).a0, SPRITE_SHAPE_MASK, (dim.value() / 0x1_0000) as u16),
                a1: replace_bits(old(self).a1, SPRITE_SIZE_MASK, (dim.value() % 0x1_0000) as u16),
                ..*old(self)
            }),
    {
        let (width, height) = dim.into_tuple();
        self.a0 = (self.a0 & !SPRITE_SHAPE_MASK) | width;
        self.a1 = (self.a1 & !SPRITE_SIZE_MASK) | height;
    }

    pub fn set_color_mode(&mut self, color_mode: ColorMode)
        ensures
            *final(self) == (SpriteAttributes { a0: replace_bits(old(self).a0, COLOR_MODE_MASK, color_mode.value()), ..*old(self) }),
    {
        self.a0 = (self.a0 & !COLOR_MODE_MASK) | color_mode.bits();
    }

    pub fn set_affine_mode(&mut self, affine_mode: AffineMode)
        ensures
            *final(self) == (SpriteAttributes { a0: replace_bits(old(self).a0, AFFINE_MODE_MASK, affine_mode.value()), ..*old(self) }),
    {
        let am = affine_mode.bits();
        self.a0 = (self.a0 & !AFFINE_MODE_MASK) | am;
    }

    pub fn set_sprite_mode(&mut self, sprite_mode: SpriteMode)
        ensures
            *final(self) == (SpriteAttributes { a0: replace_bits(old(self).a0, SPRITE_MODE_MASK, sprite_mode.value()), ..*old(self) }),
    {
        let sm = sprite_mode.bits();
        self.a0 = (self.a0 & !SPRITE_MODE_MASK) | sm;
    }

    pub fn set_mosaic_enabled(&mut self, enabled: bool)
        ensures
            *final(self) == (SpriteAttributes { a0: replace_bits(old(self).a0, MOSAIC_MASK, bit(enabled) << 12u16), ..*old(self) }),
    {
        let p = bit_of(enabled) << 12u16;
        self.a0 = (self.a0 & !MOSAIC_MASK) | p;
    }

    pub fn set_vertically_flipped(&mut self, flipped: bool)
        ensures
            *final(self) == (SpriteAttributes { a1: replace_bits(old(self).a1, VERTICAL_FLIP_MASK, bit(flipped) << 13u16), ..*old(self) }),
    {
        let p = bit_of(flipped) << 13u16;
        self.a1 = (self.a1 & !VERTICAL_FLIP_MASK) | p;
    }

    pub fn set_horizontally_flipped(&mut self, flipped: bool)
        ensures
            *final(self) == (SpriteAttributes { a1: replace_bits(old(self).a1, HORIZONTAL_FLIP_MASK, bit(flipped) << 12u16), ..*old(self) }),
    {
        let p = bit_of(flipped) << 12u16;
        self.a1 = (self.a1 & !HORIZONTAL_FLIP_MASK) | p;
    }

    /// Set the palette bank (the index's low four bits go to the top bits).
    pub fn set_palette_bank_index(&mut self, index: u16)
        ensures
            *final(self) == (SpriteAttributes { a2: replace_bits(old(self).a2, PALETTE_BANK_INDEX_MASK, index << 12u16), ..*old(self) }),
    {
        let index = index << 12u16;
        self.a2 = (self.a2 & !PALETTE_BANK_INDEX_MASK) | index;
    }

    /// Set the tile index (its low ten bits).
    pub fn set_tile_index(&mut self, index: u16)
        ensures
            *final(self) == (SpriteAttributes { a2: replace_bits(old(self).a2, TILE_INDEX_MASK, index & TILE_INDEX_MASK), ..*old(self) }),
    {
        let index = index & TILE_INDEX_MASK;
        self.a2 = (self.a2 & !TILE_INDEX_MASK) | index;
    }
}

/// One entry of the sprite affine matrices, interleaved with the attribute
/// entries in object memory: three filler words before each parameter.
#[derive(Clone, Copy, Debug)]
pub struct SpriteAffine {
    pub fill0: [u16; 3],
    pub pa: i16,
    pub fill1: [u16; 3],
    pub pb: i16,
    pub fill2: [u16; 3],
    pub pc: i16,
    pub fill3: [u16; 3],
    pub pd: i16,
}

} // verus!
