//! Conversion of an RGB image into palette-indexed sprite data: pixels are
//! taken tile by tile (8x8 tiles, left to right, then top to bottom, each tile
//! row by row), each colour is reduced to 15 bits, and the palette lists the
//! colours in order of first appearance after a fixed first entry.
use vstd::prelude::*;

verus! {

/// Why an image cannot be converted.
#[derive(Clone, Copy, Debug, PartialEq, Eq, Structural)]
pub enum ImageError {
    /// The pixel data does not hold three bytes for each of `width * height` pixels.
    SizeMismatch,
    /// The image has an odd number of pixels.
    OddPixelCount,
    /// The image has more colours than the palette can hold.
    TooManyColors,
}

/// First palette entry of 16-colour data (a colour no pixel can have).
pub const FIRST_ENTRY_4BPP: u16 = 0x8000;

/// First palette entry of 256-colour data (black).
pub const FIRST_ENTRY_8BPP: u16 = 0;

/// An 8-bit colour channel scaled down to 5 bits (rounded down).
pub open spec fn channel5(c: u8) -> int {
    c * 31 / 255
}

/// A colour in the console's 15-bit format: blue in bits 10 to 14, green in
/// bits 5 to 9, red in bits 0 to 4.
pub open spec fn color15(r: u8, g: u8, b: u8) -> u16 {
    (channel5(b) * 1024 + channel5(g) * 32 + channel5(r)) as u16
}

/// The 15-bit colour of pixel `i` of row-major RGB data.
pub open spec fn pixel_color(rgb: Seq<u8>, i: int) -> u16 {
    color15(rgb[3 * i], rgb[3 * i + 1], rgb[3 * i + 2])
}

/// Number of pixels covered by whole 8x8 tiles.
pub open spec fn tiled_len(width: int, height: int) -> int {
    (width / 8) * (height / 8) * 64
}

/// The row-major index of the pixel that comes `k`-th in tile order.
pub open spec fn tiled_source(width: int, k: int) -> int {
    let t = k / 64;
    let j = k % 64;
    (t / (width / 8) * 8 + j / 8) * width + t % (width / 8) * 8 + j % 8
}

/// The colours of the image in tile order.
pub open spec fn tiled_colors(width: int, height: int, rgb: Seq<u8>) -> Seq<u16> {
    Seq::new(tiled_len(width, height) as nat, |k: int| pixel_color(rgb, tiled_source(width, k)))
}

/// The palette after the colours `cs`, starting from `init`: each colour not
/// yet in it is appended.
pub open spec fn palette_of(cs: Seq<u16>, init: Seq<u16>) -> Seq<u16>
    decreases cs.len(),
{
    if cs.len() == 0 {
        init
    } else {
        let p = palette_of(cs.drop_last(), init);
        if p.contains(cs.last()) {
            p
        } else {
            p.push(cs.last())
        }
    }
}

/// Index of the first occurrence of `c` in `s` (`s.len()` when absent).
pub open spec fn first_index(s: Seq<u16>, c: u16) -> int
    decreases s.len(),
{
    if s.len() == 0 {
        0
    } else if s[0] == c {
        0
    } else {
        1 + first_index(s.drop_first(), c)
    }
}

/// The row-major pixel data holds three bytes for each pixel.
pub open spec fn size_ok(width: u32, height: u32, rgb: Seq<u8>) -> bool {
    rgb.len() == 3 * width * height
}

proof fn lemma_first_index(s: Seq<u16>, c: u16)
    ensures
        0 <= first_index(s, c) <= s.len(),
        forall|j: int| 0 <= j < first_index(s, c) ==> #[trigger] s[j] != c,
        first_index(s, c) < s.len() ==> s[first_index(s, c)] == c,
        first_index(s, c) < s.len() <==> s.contains(c),
    decreases s.len(),
{
    if s.len() > 0 && s[0] != c {
        let t = s.drop_first();
        lemma_first_index(t, c);
        assert forall|j: int| 0 <= j < first_index(s, c) implies #[trigger] s[j] != c by {
            if j > 0 {
                assert(s[j] == t[j - 1]);
            }
        }
        if t.contains(c) {
            let w = choose|w: int| 0 <= w < t.len() && t[w] == c;
            assert(s[w + 1] == c);
        }
        if s.contains(c) {
            let w = choose|w: int| 0 <= w < s.len() && s[w] == c;
            assert(t[w - 1] == c);
        }
    } else if s.len() > 0 {
        assert(s[0] == c);
    }
}

proof fn lemma_first_index_at(s: Seq<u16>, c: u16, i: int)
    requires
        0 <= i <= s.len(),
        forall|j: int| 0 <= j < i ==> #[trigger] s[j] != c,
        i == s.len() || s[i] == c,
    ensures
        first_index(s, c) == i,
    decreases s.len(),
{
    if s.len() > 0 && i > 0 {
        let t = s.drop_first();
        assert forall|j: int| 0 <= j < i - 1 implies #[trigger] t[j] != c by {
            assert(t[j] == s[j + 1]);
        }
        lemma_first_index_at(t, c, i - 1);
    }
}

/// The palette after a prefix of the colours is a prefix of the palette after
/// a longer one.
proof fn lemma_palette_prefix(cs: Seq<u16>, init: Seq<u16>, i: int, j: int)
    requires
        0 <= i <= j <= cs.len(),
    ensures
        palette_of(cs.take(i), init).len() <= palette_of(cs.take(j), init).len(),
        palette_of(cs.take(j), init).take(palette_of(cs.take(i), init).len() as int) == palette_of(
            cs.take(i),
            init,
        ),
    decreases j - i,
{
    if i < j {
        lemma_palette_prefix(cs, init, i, j - 1);
        assert(cs.take(j).drop_last() =~= cs.take(j - 1));
        let p = palette_of(cs.take(j - 1), init);
        let q = palette_of(cs.take(j), init);
        let pi = palette_of(cs.take(i), init);
        assert(q.take(pi.len() as int) =~= p.take(pi.len() as int));
    } else {
        let p = palette_of(cs.take(j), init);
        assert(p.take(p.len() as int) =~= p);
    }
}

/// Appending to a sequence keeps the first index of a colour already in it.
proof fn lemma_index_stable(before: Seq<u16>, after: Seq<u16>, c: u16)
    requires
        before.len() <= after.len(),
        after.take(before.len() as int) == before,
        before.contains(c),
    ensures
        first_index(after, c) == first_index(before, c),
        first_index(after, c) < after.len(),
{
    lemma_first_index(before, c);
    let fi = first_index(before, c);
    assert(after[fi] == before[fi]);
    assert forall|m: int| 0 <= m < fi implies #[trigger] after[m] != c by {
        assert(after[m] == before[m]);
    }
    lemma_first_index_at(after, c, fi);
}

/// Each of the first `k` colours of `cs` is in `pal`, and `idx` holds the
/// index of its first occurrence there.
spec fn indexed(pal: Seq<u16>, idx: Seq<u8>, cs: Seq<u16>, k: int) -> bool {
    &&& idx.len() == k
    &&& forall|i: int|
        0 <= i < k ==> #[trigger] idx[i] == first_index(pal, cs[i]) && first_index(pal, cs[i])
            < pal.len()
}

/// A colour appended to a sequence that lacks it is found at the end.
proof fn lemma_push_new(s: Seq<u16>, c: u16)
    requires
        first_index(s, c) == s.len(),
    ensures
        first_index(s.push(c), c) == s.len(),
{
    lemma_first_index(s, c);
    assert forall|m: int| 0 <= m < s.len() implies #[trigger] s.push(c)[m] != c by {
        assert(s.push(c)[m] == s[m]);
    }
    lemma_first_index_at(s.push(c), c, s.len() as int);
}

/// One more colour indexed, while the palette only grows at its end.
proof fn lemma_step(before: Seq<u16>, after: Seq<u16>, idx: Seq<u8>, cs: Seq<u16>, k: int, j: int)
    requires
        indexed(before, idx, cs, k),
        0 <= k < cs.len(),
        before.len() <= after.len(),
        after.take(before.len() as int) == before,
        first_index(after, cs[k]) == j,
        0 <= j < after.len(),
        j < 256,
    ensures
        indexed(after, idx.push(j as u8), cs, k + 1),
{
    let idx2 = idx.push(j as u8);
    assert forall|i: int| 0 <= i < k + 1 implies #[trigger] idx2[i] == first_index(after, cs[i])
        && first_index(after, cs[i]) < after.len() by {
        if i < k {
            assert(idx2[i] == idx[i]);
            lemma_first_index(before, cs[i]);
            lemma_index_stable(before, after, cs[i]);
        }
    }
}

/// Index of the first occurrence of `color` in `pal` (`pal.len()` when absent).
fn find_color(pal: &Vec<u16>, color: u16) -> (r: usize)
    ensures
        r == first_index(pal@, color),
{
    let mut j: usize = 0;
    while j < pal.len() && pal[j] != color
        invariant
            0 <= j <= pal.len(),
            forall|i: int| 0 <= i < j ==> #[trigger] pal@[i] != color,
        decreases pal.len() - j,
    {
        j += 1;
    }
    proof {
        lemma_first_index_at(pal@, color, j as int);
    }
    j
}

/// The 5-bit value of an 8-bit channel.
pub fn channel_to_5(c: u8) -> (r: u16)
    ensures
        r == channel5(c),
        r < 32,
{
    ((c as u32) * 31 / 255) as u16
}

/// The 15-bit colour of `(r, g, b)`.
pub fn rgb_to_color(r: u8, g: u8, b: u8) -> (c: u16)
    ensures
        c == color15(r, g, b),
{
    channel_to_5(b) * 1024 + channel_to_5(g) * 32 + channel_to_5(r)
}

/// The row-major index of the pixel that comes `k`-th in tile order, for an
/// image of the given size.
pub fn tiled_pixel_index(width: u32, height: u32, k: u64) -> (r: u64)
    requires
        k < tiled_len(width as int, height as int),
    ensures
        r == tiled_source(width as int, k as int),
        r < width * height,
{
    let tiles_per_row = (width / 8) as u64;
    let tile_rows = (height / 8) as u64;
    let t = k / 64;
    let j = k % 64;
    assert(tiles_per_row > 0 && t < tiles_per_row * tile_rows) by (nonlinear_arith)
        requires
            k < tiles_per_row * tile_rows * 64,
            t == k / 64,
            tiles_per_row >= 0,
            tile_rows >= 0,
    ;
    let ix = t % tiles_per_row;
    let iy = t / tiles_per_row;
    let x = j % 8;
    let y = j / 8;
    assert(iy < tile_rows) by (nonlinear_arith)
        requires
            t < tiles_per_row * tile_rows,
            iy == t / tiles_per_row,
            tiles_per_row > 0,
    ;
    let row = iy * 8 + y;
    let col = ix * 8 + x;
    assert(row < height && col < width) by (nonlinear_arith)
        requires
            iy < tile_rows,
            tile_rows == height / 8,
            ix < tiles_per_row,
            tiles_per_row == width / 8,
            x < 8,
            y < 8,
            row == iy * 8 + y,
            col == ix * 8 + x,
    ;
    assert(row * width + col < width * height && width * height <= 0xffff_ffff_ffff_ffffu64)
        by (nonlinear_arith)
        requires
            row < height,
            col < width,
            width <= 0xffff_ffffu32,
            height <= 0xffff_ffffu32,
    ;
    assert(row * width <= row * width + col);
    row * (width as u64) + col
}

/// The palette and the palette index of each pixel in tile order: the
/// palette starts as `[first]` and may hold at most `limit` colours.
fn index_pixels(width: u32, height: u32, rgb: &Vec<u8>, first: u16, limit: usize) -> (r: Result<
    (Vec<u16>, Vec<u8>),
    ImageError,
>)
    requires
        size_ok(width, height, rgb@),
        1 <= limit <= 256,
    ensures
        match r {
            Ok((pal, idx)) => {
                let cs = tiled_colors(width as int, height as int, rgb@);
                &&& pal@ == palette_of(cs, seq![first])
                &&& pal@.len() <= limit
                &&& idx@.len() == cs.len()
                &&& forall|k: int| 0 <= k < cs.len() ==> #[trigger] idx@[k] == first_index(pal@, cs[k])
                &&& forall|k: int| 0 <= k < cs.len() ==> first_index(pal@, #[trigger] cs[k]) < pal@.len()
            },
            Err(e) => e == ImageError::TooManyColors && palette_of(
                tiled_colors(width as int, height as int, rgb@),
                seq![first],
            ).len() > limit,
        },
{
    let ghost cs = tiled_colors(width as int, height as int, rgb@);
    let ghost init = seq![first];
    assert(((width / 8) as u64) * ((height / 8) as u64) * 64 <= (width as u64) * (height as u64)
        && (width as u64) * (height as u64) <= 0xffff_ffff_ffff_ffffu64) by (nonlinear_arith)
        requires
            width <= 0xffff_ffffu32,
            height <= 0xffff_ffffu32,
    ;
    let n: u64 = ((width / 8) as u64) * ((height / 8) as u64) * 64;
    let mut pal: Vec<u16> = Vec::new();
    pal.push(first);
    let mut idx: Vec<u8> = Vec::new();
    let mut k: u64 = 0;
    proof {
        assert(cs.take(0) =~= Seq::<u16>::empty());
        assert(pal@ =~= init);
    }
    while k < n
        invariant
            n == cs.len(),
            0 <= k <= n,
            size_ok(width, height, rgb@),
            1 <= limit <= 256,
            cs == tiled_colors(width as int, height as int, rgb@),
            init == seq![first],
            pal@ == palette_of(cs.take(k as int), init),
            pal@.len() <= limit,
            indexed(pal@, idx@, cs, k as int),
        decreases n - k,
    {
        let src = tiled_pixel_index(width, height, k);
        assert(3 * src + 2 < rgb.len()) by (nonlinear_arith)
            requires
                src < width * height,
                rgb.len() == 3 * width * height,
        ;
        let s = src as usize;
        let color = rgb_to_color(rgb[3 * s], rgb[3 * s + 1], rgb[3 * s + 2]);
        assert(color == cs[k as int]);
        let ghost before = pal@;
        let j = find_color(&pal, color);
        proof {
            lemma_first_index(pal@, color);
            assert(cs.take(k + 1).drop_last() =~= cs.take(k as int));
            assert(cs.take(k + 1).last() == color);
            if j == pal.len() {
                lemma_push_new(pal@, color);
            }
        }
        if j == pal.len() {
            if pal.len() == limit {
                proof {
                    lemma_palette_prefix(cs, init, k + 1, n as int);
                    assert(cs.take(n as int) =~= cs);
                }
                return Err(ImageError::TooManyColors);
            }
            pal.push(color);
        }
        proof {
            assert(pal@.take(before.len() as int) =~= before);
            lemma_step(before, pal@, idx@, cs, k as int, j as int);
        }
        idx.push(j as u8);
        k += 1;
    }
    proof {
        assert(cs.take(n as int) =~= cs);
        assert forall|i: int| 0 <= i < cs.len() implies first_index(pal@, #[trigger] cs[i]) < pal@.len() by {
            assert(indexed(pal@, idx@, cs, n as int));
            assert(idx@[i] == first_index(pal@, cs[i]));
        }
    }
    Ok((pal, idx))
}

/// Check the size of the pixel data and the parity of the pixel count.
fn check_image(width: u32, height: u32, rgb: &Vec<u8>) -> (r: Result<usize, ImageError>)
    ensures
        match r {
            Ok(n) => size_ok(width, height, rgb@) && n == width * height && n % 2 == 0,
            Err(e) => (e == ImageError::SizeMismatch && !size_ok(width, height, rgb@)) || (e
                == ImageError::OddPixelCount && size_ok(width, height, rgb@) && (width * height) % 2
                == 1),
        },
{
    assert((width as u128) * (height as u128) <= 0xffff_ffff_ffff_ffffu128) by (nonlinear_arith)
        requires
            width <= 0xffff_ffffu32,
            height <= 0xffff_ffffu32,
    ;
    let pixels: u128 = (width as u128) * (height as u128);
    assert(3 * pixels == 3 * width * height) by (nonlinear_arith)
        requires
            pixels == width * height,
    ;
    if rgb.len() as u128 != 3 * pixels {
        return Err(ImageError::SizeMismatch);
    }
    assert(pixels == width * height);
    if pixels % 2 == 1 {
        return Err(ImageError::OddPixelCount);
    }
    assert(pixels <= rgb.len());
    Ok(pixels as usize)
}

/// 256-colour sprite data from an RGB image of `width * height` pixels given
/// row by row, three bytes a pixel: the palette, starting with black, and one
/// palette index per pixel in tile order; bytes past the whole tiles are zero.
pub fn img_as_palleted_sprite_8bpp(width: u32, height: u32, rgb: &Vec<u8>) -> (r: Result<
    (Vec<u16>, Vec<u8>),
    ImageError,
>)
    ensures
        match r {
            Ok((pal, px)) => {
                let cs = tiled_colors(width as int, height as int, rgb@);
                &&& size_ok(width, height, rgb@)
                &&& (width * height) % 2 == 0
                &&& pal@ == palette_of(cs, seq![FIRST_ENTRY_8BPP])
                &&& pal@.len() <= 256
                &&& px@.len() == width * height
                &&& forall|k: int| 0 <= k < cs.len() ==> #[trigger] px@[k] == first_index(pal@, cs[k])
                &&& forall|k: int| cs.len() <= k < px@.len() ==> #[trigger] px@[k] == 0
            },
            Err(e) => {
                &&& (e == ImageError::SizeMismatch) == !size_ok(width, height, rgb@)
                &&& (e == ImageError::OddPixelCount) == (size_ok(width, height, rgb@) && (width
                    * height) % 2 == 1)
                &&& (e == ImageError::TooManyColors) == (size_ok(width, height, rgb@) && (width
                    * height) % 2 == 0 && palette_of(
                    tiled_colors(width as int, height as int, rgb@),
                    seq![FIRST_ENTRY_8BPP],
                ).len() > 256)
            },
        },
{
    let total = match check_image(width, height, rgb) {
        Ok(n) => n,
        Err(e) => {
            return Err(e);
        },
    };
    let (pal, idx) = match index_pixels(width, height, rgb, FIRST_ENTRY_8BPP, 256) {
        Ok(v) => v,
        Err(e) => {
            return Err(e);
        },
    };
    let ghost cs = tiled_colors(width as int, height as int, rgb@);
    assert(cs.len() <= width * height) by (nonlinear_arith)
        requires
            cs.len() == (width / 8) * (height / 8) * 64,
            width >= 0,
            height >= 0,
    ;
    let mut px: Vec<u8> = idx;
    while px.len() < total
        invariant
            cs.len() <= px@.len() <= total,
            total == width * height,
            forall|k: int| 0 <= k < cs.len() ==> #[trigger] px@[k] == first_index(pal@, cs[k]),
            forall|k: int| cs.len() <= k < px@.len() ==> #[trigger] px@[k] == 0,
        decreases total - px.len(),
    {
        px.push(0);
    }
    Ok((pal, px))
}

/// 16-colour sprite data from an RGB image of `width * height` pixels given
/// row by row, three bytes a pixel: the palette, starting with an entry no
/// pixel can match, and the palette indices in tile order, two to a byte (the
/// first of each pair in the low four bits); bytes past the whole tiles are
/// zero.
pub fn img_as_palleted_sprite_4bpp(width: u32, height: u32, rgb: &Vec<u8>) -> (r: Result<
    (Vec<u16>, Vec<u8>),
    ImageError,
>)
    ensures
        match r {
            Ok((pal, px)) => {
                let cs = tiled_colors(width as int, height as int, rgb@);
                &&& size_ok(width, height, rgb@)
                &&& (width * height) % 2 == 0
                &&& pal@ == palette_of(cs, seq![FIRST_ENTRY_4BPP])
                &&& pal@.len() <= 16
                &&& px@.len() == width * height / 2
                &&& forall|m: int|
                    0 <= m < cs.len() / 2 ==> #[trigger] px@[m] == first_index(pal@, cs[2 * m]) + 16
                        * first_index(pal@, cs[2 * m + 1])
                &&& forall|m: int| cs.len() / 2 <= m < px@.len() ==> #[trigger] px@[m] == 0
            },
            Err(e) => {
                &&& (e == ImageError::SizeMismatch) == !size_ok(width, height, rgb@)
                &&& (e == ImageError::OddPixelCount) == (size_ok(width, height, rgb@) && (width
                    * height) % 2 == 1)
                &&& (e == ImageError::TooManyColors) == (size_ok(width, height, rgb@) && (width
                    * height) % 2 == 0 && palette_of(
                    tiled_colors(width as int, height as int, rgb@),
                    seq![FIRST_ENTRY_4BPP],
                ).len() > 16)
            },
        },
{
    let total = match check_image(width, height, rgb) {
        Ok(n) => n,
        Err(e) => {
            return Err(e);
        },
    };
    let (pal, idx) = match index_pixels(width, height, rgb, FIRST_ENTRY_4BPP, 16) {
        Ok(v) => v,
        Err(e) => {
            return Err(e);
        },
    };
    let ghost cs = tiled_colors(width as int, height as int, rgb@);
    assert(cs.len() <= width * height && cs.len() % 2 == 0) by (nonlinear_arith)
        requires
            cs.len() == (width / 8) * (height / 8) * 64,
            width >= 0,
            height >= 0,
    ;
    let half = total / 2;
    let n_idx = idx.len();
    let pairs = n_idx / 2;
    let mut px: Vec<u8> = Vec::new();
    let mut m: usize = 0;
    while m < pairs
        invariant
            pairs == cs.len() / 2,
            idx@.len() == cs.len(),
            n_idx == idx@.len(),
            cs.len() % 2 == 0,
            0 <= m <= pairs,
            px@.len() == m,
            pal@.len() <= 16,
            forall|k: int| 0 <= k < cs.len() ==> #[trigger] idx@[k] == first_index(pal@, cs[k]),
            forall|k: int| 0 <= k < cs.len() ==> first_index(pal@, #[trigger] cs[k]) < pal@.len(),
            forall|i: int|
                0 <= i < m ==> #[trigger] px@[i] == first_index(pal@, cs[2 * i]) + 16 * first_index(
                    pal@,
                    cs[2 * i + 1],
                ),
        decreases pairs - m,
    {
        assert(2 * m + 1 < idx@.len());
        let lo = idx[2 * m];
        let hi = idx[2 * m + 1];
        proof {
            assert(idx@[2 * m as int] == first_index(pal@, cs[2 * m as int]));
            assert(idx@[2 * m + 1] == first_index(pal@, cs[2 * m + 1]));
            assert(first_index(pal@, cs[2 * m as int]) < pal@.len());
            assert(first_index(pal@, cs[2 * m + 1]) < pal@.len());
        }
        px.push(lo + 16 * hi);
        m += 1;
    }
    while px.len() < half
        invariant
            pairs <= px@.len() <= half,
            pairs == cs.len() / 2,
            half == width * height / 2,
            forall|i: int|
                0 <= i < pairs ==> #[trigger] px@[i] == first_index(pal@, cs[2 * i]) + 16 * first_index(
                    pal@,
                    cs[2 * i + 1],
                ),
            forall|i: int| pairs <= i < px@.len() ==> #[trigger] px@[i] == 0,
        decreases half - px.len(),
    {
        px.push(0);
    }
    Ok((pal, px))
}

} // verus!
