use gba::palette::{
    channel_to_5, img_as_palleted_sprite_4bpp, img_as_palleted_sprite_8bpp, rgb_to_color,
    tiled_pixel_index, ImageError,
};

/// Row-major RGB data of a `width x height` image whose pixel colour is given by `f(x, y)`.
fn image(width: u32, height: u32, f: impl Fn(u32, u32) -> (u8, u8, u8)) -> Vec<u8> {
    let mut v = Vec::new();
    for y in 0..height {
        for x in 0..width {
            let (r, g, b) = f(x, y);
            v.push(r);
            v.push(g);
            v.push(b);
        }
    }
    v
}

/// An 8-bit channel value that scales to the 5-bit value `v`.
fn channel_for(v: u32) -> u8 {
    ((v * 255 + 30) / 31) as u8
}

#[test]
fn channel_scaling_matches_float_formula() {
    for c in 0..=255u8 {
        let float = ((c as f32 / 255.0f32) * 31.0f32) as u16;
        assert_eq!(channel_to_5(c), float, "channel {}", c);
    }
    for v in 0..32u32 {
        assert_eq!(channel_to_5(channel_for(v)) as u32, v);
    }
}

#[test]
fn colors_pack_blue_green_red() {
    assert_eq!(rgb_to_color(255, 0, 0), 31);
    assert_eq!(rgb_to_color(0, 255, 0), 992);
    assert_eq!(rgb_to_color(0, 0, 255), 31744);
    assert_eq!(rgb_to_color(128, 128, 128), 15855);
    assert_eq!(rgb_to_color(255, 255, 255), 0x7FFF);
}

#[test]
fn tile_order_walks_tiles_then_rows() {
    assert_eq!(tiled_pixel_index(16, 8, 0), 0);
    assert_eq!(tiled_pixel_index(16, 8, 7), 7);
    assert_eq!(tiled_pixel_index(16, 8, 8), 16);
    assert_eq!(tiled_pixel_index(16, 8, 63), 7 * 16 + 7);
    assert_eq!(tiled_pixel_index(16, 8, 64), 8);
    assert_eq!(tiled_pixel_index(16, 8, 72), 24);
    assert_eq!(tiled_pixel_index(8, 16, 64), 64);
}

fn red_green(width: u32, height: u32) -> Vec<u8> {
    image(width, height, |x, _| if x < 8 { (255, 0, 0) } else { (0, 255, 0) })
}

#[test]
fn eight_bpp_two_tiles() {
    let (pal, px) = img_as_palleted_sprite_8bpp(16, 8, &red_green(16, 8)).unwrap();
    assert_eq!(pal, vec![0, 31, 992]);
    assert_eq!(px.len(), 128);
    assert!(px[..64].iter().all(|&p| p == 1));
    assert!(px[64..].iter().all(|&p| p == 2));
}

#[test]
fn eight_bpp_black_is_the_first_entry() {
    let rgb = image(8, 8, |x, y| if (x + y) % 2 == 0 { (0, 0, 0) } else { (255, 255, 255) });
    let (pal, px) = img_as_palleted_sprite_8bpp(8, 8, &rgb).unwrap();
    assert_eq!(pal, vec![0, 0x7FFF]);
    assert_eq!(px[0], 0);
    assert_eq!(px[1], 1);
}

#[test]
fn four_bpp_two_tiles() {
    let (pal, px) = img_as_palleted_sprite_4bpp(16, 8, &red_green(16, 8)).unwrap();
    assert_eq!(pal, vec![0x8000, 31, 992]);
    assert_eq!(px.len(), 64);
    assert!(px[..32].iter().all(|&p| p == 0x11));
    assert!(px[32..].iter().all(|&p| p == 0x22));
}

#[test]
fn four_bpp_packs_low_nibble_first() {
    let rgb = image(8, 8, |x, _| if x % 2 == 0 { (255, 0, 0) } else { (0, 0, 255) });
    let (pal, px) = img_as_palleted_sprite_4bpp(8, 8, &rgb).unwrap();
    assert_eq!(pal, vec![0x8000, 31, 31744]);
    assert!(px.iter().all(|&p| p == 0x21));
}

#[test]
fn pixels_outside_whole_tiles_are_zero() {
    let rgb = image(10, 8, |_, _| (255, 0, 0));
    let (_, px4) = img_as_palleted_sprite_4bpp(10, 8, &rgb).unwrap();
    assert_eq!(px4.len(), 40);
    assert!(px4[..32].iter().all(|&p| p == 0x11));
    assert!(px4[32..].iter().all(|&p| p == 0));
    let (_, px8) = img_as_palleted_sprite_8bpp(10, 8, &rgb).unwrap();
    assert_eq!(px8.len(), 80);
    assert!(px8[..64].iter().all(|&p| p == 1));
    assert!(px8[64..].iter().all(|&p| p == 0));
}

#[test]
fn size_mismatch_is_reported() {
    let rgb = vec![0u8; 10];
    assert_eq!(img_as_palleted_sprite_8bpp(2, 2, &rgb), Err(ImageError::SizeMismatch));
    assert_eq!(img_as_palleted_sprite_4bpp(2, 2, &rgb), Err(ImageError::SizeMismatch));
}

#[test]
fn odd_pixel_count_is_reported() {
    let rgb = vec![0u8; 27];
    assert_eq!(img_as_palleted_sprite_8bpp(3, 3, &rgb), Err(ImageError::OddPixelCount));
    assert_eq!(img_as_palleted_sprite_4bpp(3, 3, &rgb), Err(ImageError::OddPixelCount));
}

#[test]
fn four_bpp_holds_fifteen_colors_at_most() {
    let colors = |n: u32| {
        image(8, 8, move |x, y| {
            let i = (y * 8 + x) % n;
            (channel_for(i), channel_for(1), 0)
        })
    };
    let (pal, _) = img_as_palleted_sprite_4bpp(8, 8, &colors(15)).unwrap();
    assert_eq!(pal.len(), 16);
    assert_eq!(img_as_palleted_sprite_4bpp(8, 8, &colors(16)), Err(ImageError::TooManyColors));
}

#[test]
fn eight_bpp_holds_two_hundred_fifty_six_entries() {
    // 256 distinct colours, one of them black, which is already the first entry.
    let with_black = image(16, 16, |x, y| {
        let i = y * 16 + x;
        (channel_for(i % 32), channel_for(i / 32), 0)
    });
    let (pal, _) = img_as_palleted_sprite_8bpp(16, 16, &with_black).unwrap();
    assert_eq!(pal.len(), 256);
    let without_black = image(16, 16, |x, y| {
        let i = y * 16 + x;
        (channel_for(i % 32), channel_for(i / 32 + 1), 0)
    });
    assert_eq!(
        img_as_palleted_sprite_8bpp(16, 16, &without_black),
        Err(ImageError::TooManyColors)
    );
}
