//! The display control register: its fields and how they pack into the
//! register's value.
use vstd::prelude::*;

verus! {

/// Which of the six display modes is active (bits 0 to 2).
#[derive(Clone, Copy, Debug, PartialEq, Eq, Structural)]
pub enum VideoMode {
    Mode0,
    Mode1,
    Mode2,
    Mode3,
    Mode4,
    Mode5,
}

impl VideoMode {
    pub open spec fn value(self) -> u32 {
        match self {
            VideoMode::Mode0 => 0,
            VideoMode::Mode1 => 1,
            VideoMode::Mode2 => 2,
            VideoMode::Mode3 => 3,
            VideoMode::Mode4 => 4,
            VideoMode::Mode5 => 5,
        }
    }

    fn bits(self) -> (r: u32)
        ensures
            r == self.value(),
    {
        match self {
            VideoMode::Mode0 => 0,
            VideoMode::Mode1 => 1,
            VideoMode::Mode2 => 2,
            VideoMode::Mode3 => 3,
            VideoMode::Mode4 => 4,
            VideoMode::Mode5 => 5,
        }
    }

    /// `val` with its mode bits replaced by this mode.
    pub fn set(self, val: u32) -> (r: u32)
        ensures
            r == (val & !0b111u32) | self.value(),
    {
        (val & !0b111u32) | self.bits()
    }
}

/// Which page the bitmap modes display (bit 4).
#[derive(Clone, Copy, Debug, PartialEq, Eq, Structural)]
pub enum FrameBufferStart {
    /// The frame buffer starts at 0x06000000.
    Base,
    /// The frame buffer starts at 0x0600A000.
    Offset,
}

impl FrameBufferStart {
    pub open spec fn value(self) -> u32 {
        match self {
            FrameBufferStart::Base => 0,
            FrameBufferStart::Offset => 0x10,
        }
    }

    fn bits(self) -> (r: u32)
        ensures
            r == self.value(),
    {
        match self {
            FrameBufferStart::Base => 0,
            FrameBufferStart::Offset => 0x10,
        }
    }

    /// `val` with the frame buffer bit replaced.
    pub fn set(self, val: u32) -> (r: u32)
        ensures
            r == (val & !0x10u32) | self.value(),
    {
        (val & !0x10u32) | self.bits()
    }
}

/// How sprite tiles are laid out in memory (bit 6).
#[derive(Clone, Copy, Debug, PartialEq, Eq, Structural)]
pub enum SpriteStorageMode {
    _2D,
    _1D,
}

impl SpriteStorageMode {
    pub open spec fn value(self) -> u32 {
        match self {
            SpriteStorageMode::_2D => 0,
            SpriteStorageMode::_1D => 0x40,
        }
    }

    fn bits(self) -> (r: u32)
        ensures
            r == self.value(),
    {
        match self {
            SpriteStorageMode::_2D => 0,
            SpriteStorageMode::_1D => 0x40,
        }
    }

    /// `val` with the sprite storage bit replaced.
    pub fn set(self, val: u32) -> (r: u32)
        ensures
            r == (val & !0x40u32) | self.value(),
    {
        (val & !0x40u32) | self.bits()
    }
}

/// Whether sprites may be processed during horizontal blank (bit 5).
#[derive(Clone, Copy, Debug, PartialEq, Eq, Structural)]
pub enum HBlankProcessing {
    Off,
    Force,
}

impl HBlankProcessing {
    pub open spec fn value(self) -> u32 {
        match self {
            HBlankProcessing::Off => 0,
            HBlankProcessing::Force => 0x20,
        }
    }

    fn bits(self) -> (r: u32)
        ensures
            r == self.value(),
    {
        match self {
            HBlankProcessing::Off => 0,
            HBlankProcessing::Force => 0x20,
        }
    }

    /// `val` with the horizontal blank bit replaced.
    pub fn set(self, val: u32) -> (r: u32)
        ensures
            r == (val & !0x20u32) | self.value(),
    {
        (val & !0x20u32) | self.bits()
    }
}

/// Whether the display is forced blank (bit 7).
#[derive(Clone, Copy, Debug, PartialEq, Eq, Structural)]
pub enum DisplayState {
    Blank,
    On,
}

impl DisplayState {
    pub open spec fn value(self) -> u32 {
        match self {
            DisplayState::Blank => 0x80,
            DisplayState::On => 0,
        }
    }

    fn bits(self) -> (r: u32)
        ensures
            r == self.value(),
    {
        match self {
            DisplayState::Blank => 0x80,
            DisplayState::On => 0,
        }
    }

    /// `val` with the forced blank bit replaced.
    pub fn set(self, val: u32) -> (r: u32)
        ensures
            r == (val & !0x80u32) | self.value(),
    {
        (val & !0x80u32) | self.bits()
    }
}

pub const BG0_MASK: u16 = 0x0100;
pub const BG1_MASK: u16 = 0x0200;
pub const BG2_MASK: u16 = 0x0400;
pub const BG3_MASK: u16 = 0x0800;
pub const SPRITES_MASK: u16 = 0x1000;
pub const WINDOW0_MASK: u16 = 0x2000;
pub const WINDOW1_MASK: u16 = 0x2000;
pub const SPRITE_WINDOWS_MASK: u16 = 0x2000;

/// The fields of the display control register.
#[derive(Clone, Copy, Debug, PartialEq, Eq, Structural)]
pub struct GraphicsMode {
    pub vm: VideoMode,
    pub frame_buffer_start: FrameBufferStart,
    pub hblank_policy: HBlankProcessing,
    pub sprite_storage_mode: SpriteStorageMode,
    pub display_state: DisplayState,
    pub bg0_enabled: bool,
    pub bg1_enabled: bool,
    pub bg2_enabled: bool,
    pub bg3_enabled: bool,
    pub sprites_enabled: bool,
    pub window0_enabled: bool,
    pub window1_enabled: bool,
    pub sprite_windows_enabled: bool,
}

/// `mask` when `on`, else zero.
pub open spec fn flag(on: bool, mask: u16) -> u16 {
    if on {
        mask
    } else {
        0
    }
}

fn flag_bits(on: bool, mask: u16) -> (r: u16)
    ensures
        r == flag(on, mask),
{
    if on {
        mask
    } else {
        0
    }
}

impl GraphicsMode {
    /// The enable flags of a register value; the mode and the other fields
    /// take their defaults (mode 0, base frame buffer, no forced processing,
    /// 2D sprite storage, display on).
    pub fn from_u16(n: u16) -> (r: GraphicsMode)
        ensures
            r.vm == VideoMode::Mode0,
            r.frame_buffer_start == FrameBufferStart::Base,
            r.hblank_policy == HBlankProcessing::Off,
            r.sprite_storage_mode == SpriteStorageMode::_2D,
            r.display_state == DisplayState::On,
            r.bg0_enabled == (n & BG0_MASK != 0),
            r.bg1_enabled == (n & BG1_MASK != 0),
            r.bg2_enabled == (n & BG2_MASK != 0),
            r.bg3_enabled == (n & BG3_MASK != 0),
            r.sprites_enabled == (n & SPRITES_MASK != 0),
            r.window0_enabled == (n & WINDOW0_MASK != 0),
            r.window1_enabled == (n & WINDOW1_MASK != 0),
            r.sprite_windows_enabled == (n & SPRITE_WINDOWS_MASK != 0),
    {
        GraphicsMode {
            vm: VideoMode::Mode0,
            frame_buffer_start: FrameBufferStart::Base,
            hblank_policy: HBlankProcessing::Off,
            sprite_storage_mode: SpriteStorageMode::_2D,
            display_state: DisplayState::On,
            bg0_enabled: n & BG0_MASK != 0,
            bg1_enabled: n & BG1_MASK != 0,
            bg2_enabled: n & BG2_MASK != 0,
            bg3_enabled: n & BG3_MASK != 0,
            sprites_enabled: n & SPRITES_MASK != 0,
            window0_enabled: n & WINDOW0_MASK != 0,
            window1_enabled: n & WINDOW1_MASK != 0,
            sprite_windows_enabled: n & SPRITE_WINDOWS_MASK != 0,
        }
    }

    /// The value to store in the display control register for these fields.
    /// The sprite window flag also sets bit 0.
    pub fn register_value(&self) -> (r: u16)
        ensures
            r == self.vm.value() as u16 | self.frame_buffer_start.value() as u16
                | self.hblank_policy.value() as u16 | (if self.sprite_windows_enabled {
                1u16
            } else {
                0u16
            }) | self.display_state.value() as u16 | self.sprite_storage_mode.value() as u16 | (
            flag(self.bg0_enabled, BG0_MASK) | flag(self.bg1_enabled, BG1_MASK) | flag(
                self.bg2_enabled,
                BG2_MASK,
            ) | flag(self.bg3_enabled, BG3_MASK) | flag(self.sprites_enabled, SPRITES_MASK) | flag(
                self.window0_enabled,
                WINDOW0_MASK,
            ) | flag(self.window1_enabled, WINDOW1_MASK) | flag(
                self.sprite_windows_enabled,
                SPRITE_WINDOWS_MASK,
            )),
    {
        let window_bit: u16 = if self.sprite_windows_enabled {
            1
        } else {
            0
        };
        let flags = flag_bits(self.bg0_enabled, BG0_MASK) | flag_bits(self.bg1_enabled, BG1_MASK)
            | flag_bits(self.bg2_enabled, BG2_MASK) | flag_bits(self.bg3_enabled, BG3_MASK)
            | flag_bits(self.sprites_enabled, SPRITES_MASK) | flag_bits(
            self.window0_enabled,
            WINDOW0_MASK,
        ) | flag_bits(self.window1_enabled, WINDOW1_MASK) | flag_bits(
            self.sprite_windows_enabled,
            SPRITE_WINDOWS_MASK,
        );
        self.vm.bits() as u16 | self.frame_buffer_start.bits() as u16 | self.hblank_policy.bits() as u16
            | window_bit | self.display_state.bits() as u16 | self.sprite_storage_mode.bits() as u16
            | flags
    }
}

impl Default for GraphicsMode {
    /// The fields of a zero register value.
    fn default() -> (r: GraphicsMode)
        ensures
            r.vm == VideoMode::Mode0,
            r.frame_buffer_start == FrameBufferStart::Base,
            r.hblank_policy == HBlankProcessing::Off,
            r.sprite_storage_mode == SpriteStorageMode::_2D,
            r.display_state == DisplayState::On,
            !r.bg0_enabled && !r.bg1_enabled && !r.bg2_enabled && !r.bg3_enabled,
            !r.sprites_enabled && !r.window0_enabled && !r.window1_enabled,
            !r.sprite_windows_enabled,
    {
        let r = GraphicsMode::from_u16(0);
        proof {
            assert(0u16 & BG0_MASK == 0 && 0u16 & BG1_MASK == 0 && 0u16 & BG2_MASK == 0 && 0u16
                & BG3_MASK == 0 && 0u16 & SPRITES_MASK == 0 && 0u16 & WINDOW0_MASK == 0)
                by (bit_vector);
        }
        r
    }
}

} // verus!
