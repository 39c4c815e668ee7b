use gba::graphics::{
    DisplayState, FrameBufferStart, GraphicsMode, HBlankProcessing, SpriteStorageMode, VideoMode,
};
use gba::input::{InputState, Key, KeySet};
use gba::sprites::{
    AffineMode, ColorMode, SpriteAttributes, SpriteDimensions, SpriteMode, SpritePriority,
};
use gba::tiled_bg::{AffineBgSize, BgControl, BgOffset, RegularBgSize, Tilemap};

#[test]
fn display_field_setters_replace_their_bits() {
    assert_eq!(VideoMode::Mode3.set(0xFFFF_FFFF), 0xFFFF_FFFB);
    assert_eq!(VideoMode::Mode0.set(0x0000_0105), 0x0000_0100);
    assert_eq!(FrameBufferStart::Offset.set(0), 0x10);
    assert_eq!(FrameBufferStart::Base.set(0xFF), 0xEF);
    assert_eq!(SpriteStorageMode::_1D.set(0), 0x40);
    assert_eq!(HBlankProcessing::Force.set(0), 0x20);
    assert_eq!(HBlankProcessing::Off.set(0xFF), 0xDF);
    assert_eq!(DisplayState::Blank.set(0), 0x80);
    assert_eq!(DisplayState::On.set(0xFF), 0x7F);
}

#[test]
fn graphics_mode_reads_enable_flags() {
    let m = GraphicsMode::from_u16(0x1300);
    assert!(m.bg0_enabled && m.bg1_enabled && m.sprites_enabled);
    assert!(!m.bg2_enabled && !m.bg3_enabled && !m.window0_enabled);
    assert_eq!(m.vm, VideoMode::Mode0);
    assert_eq!(m.display_state, DisplayState::On);
}

#[test]
fn graphics_mode_register_value() {
    let mut m = GraphicsMode::default();
    assert_eq!(m.register_value(), 0);
    m.vm = VideoMode::Mode3;
    m.bg2_enabled = true;
    assert_eq!(m.register_value(), 0x0403);
    m.display_state = DisplayState::Blank;
    m.sprite_storage_mode = SpriteStorageMode::_1D;
    assert_eq!(m.register_value(), 0x04C3);
    // The window flags share one bit; the sprite window flag also sets bit 0.
    assert_eq!(GraphicsMode::from_u16(0x2000).register_value(), 0x2001);
}

#[test]
fn sprite_attributes_new_packs_every_field() {
    let a = SpriteAttributes::new(
        300,
        50,
        AffineMode::Affine,
        SpriteMode::Alpha,
        SpriteDimensions::_32x16,
        ColorMode::_8bpp,
        true,
        true,
        false,
        SpritePriority::First,
        5,
        700,
    );
    assert_eq!(a.a0, 0x7532);
    assert_eq!(a.a1, 0x912C);
    assert_eq!(a.a2, 0x5EBC);
    assert_eq!(a.filler, 0);
}

#[test]
fn sprite_setters_mask_their_fields() {
    let mut a = SpriteAttributes::default();
    a.set_x(0xFFFF);
    assert_eq!(a.a1, 0x01FF);
    a.set_y(0x1234);
    assert_eq!(a.a0, 0x0034);
    a.set_tile_index(0xFFFF);
    assert_eq!(a.a2, 0x03FF);
    a.set_palette_bank_index(0xF);
    assert_eq!(a.a2, 0xF3FF);
    a.set_priority(SpritePriority::Background);
    assert_eq!(a.a2, 0xF7FF);
    a.set_vertically_flipped(true);
    a.set_horizontally_flipped(true);
    assert_eq!(a.a1, 0x31FF);
    a.set_horizontally_flipped(false);
    assert_eq!(a.a1, 0x21FF);
    a.set_dimensions(SpriteDimensions::_64x32);
    assert_eq!((a.a0, a.a1), (0x4034, 0xE1FF));
    a.set_color_mode(ColorMode::_8bpp);
    a.set_affine_mode(AffineMode::Doubled);
    a.set_sprite_mode(SpriteMode::Masked);
    a.set_mosaic_enabled(true);
    assert_eq!(a.a0, 0x7B34);
    a.set_mosaic_enabled(false);
    a.set_affine_mode(AffineMode::Normal);
    assert_eq!(a.a0, 0x6834);
}

#[test]
fn sprite_dimensions_split_into_shape_and_size() {
    assert_eq!(SpriteDimensions::_64x32.into_tuple(), (0x4000, 0xC000));
    assert_eq!(SpriteDimensions::_8x8.into_tuple(), (0, 0));
    assert_eq!(SpriteDimensions::_32x64.into_tuple(), (0x8000, 0xC000));
}

#[test]
fn background_control_setters() {
    let mut c = BgControl(0xFFFF);
    c.set_priority(0);
    assert_eq!(c.0, 0xFFFC);
    let mut c = BgControl(0);
    c.set_character_base_block(7);
    assert_eq!(c.0, 0x000C);
    c.set_color_mode(ColorMode::_8bpp);
    assert_eq!(c.0, 0x008C);
    c.set_mosaic_enabled(true);
    assert_eq!(c.0, 0x00CC);
    c.set_affine_wrapping_enabled(true);
    assert_eq!(c.0, 0x20CC);
    c.set_screen_base_block(0xFF);
    assert_eq!(c.0, 0x3FCC);
    c.set_bg_size(RegularBgSize::_32x64);
    assert_eq!(c.0, 0xBFCC);
    c.set_bg_size(AffineBgSize::_16x16);
    assert_eq!(c.0, 0x3FCC);
    assert_eq!(BgControl::register_address(5), 0x0400_000A);
}

#[test]
fn background_offset_keeps_and_wraps() {
    let mut o = BgOffset::get(1, 2, 6);
    assert_eq!(o.n, 2);
    assert_eq!(o.register_address(), 0x0400_0018);
    o.set_x(10).set_y(20);
    assert_eq!((o.x, o.y), (10, 20));
    o.translate(i16::MAX, -30);
    assert_eq!((o.x, o.y), (i16::MIN + 9, -10));
    o.set(3, 4);
    assert_eq!((o.x, o.y), (3, 4));
    o.set_x_nc(7);
    o.set_y_nc(8);
    assert_eq!((o.x, o.y), (7, 8));
    o.translate_nc(1, 1);
    assert_eq!((o.x, o.y), (8, 9));
    o.set_nc(0, 0);
    assert_eq!((o.x, o.y), (0, 0));
}

#[test]
fn tilemap_screen_blocks() {
    assert_eq!(Tilemap::new(1).base, 0x0600_0800);
    assert_eq!(Tilemap::new(33).base, 0x0600_0800);
    assert_eq!(Tilemap::new(-1).base, 0x0600_F800);
    assert_eq!(Tilemap::new(0).entry(3).num, 0x0600_0006);
}

#[test]
fn input_keys_are_active_low() {
    let s = InputState(0x03FE);
    assert!(s.key_down(Key::A));
    assert!(!s.key_down(Key::B));
    let ab = KeySet::from(Key::A).add(Key::B);
    assert!(!s.all_keys_down(ab));
    assert!(s.any_keys_down(ab));
    assert!(s.all_keys_down(Key::A.into()));
    assert_eq!(s.pressed_keys().0, 0xFC01);
    assert!(!InputState(0x03FF).any_keys_down(KeySet::all()));
}

#[test]
fn key_sets() {
    let s = KeySet::empty().add(Key::L);
    assert!(s.contains(Key::L));
    assert!(!s.contains(Key::R));
    assert_eq!(s.0, 0x0200);
    assert_eq!(KeySet::all().0, 0x03FF);
    assert_eq!(KeySet::empty().0, 0);
    assert_eq!(Key::Start.bits(), 0x0008);
}
