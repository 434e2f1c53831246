//! Geometry and pixel work for the tray icon: the font size for a label, the
//! background pill behind it, and the alpha and mask planes of the finished
//! 64 x 64 BGRA image.

use vstd::prelude::*;

verus! {

/// Width and height of the icon image in pixels.
pub const ICON_SIZE: i32 = 64;
/// Bytes in the 64 x 64 BGRA image.
pub const PIXEL_BYTES: usize = 16384;
/// Bytes in the 1-bit mask of the image.
pub const MASK_BYTES: usize = 512;
/// Colour (BGRA) of the background pill.
pub const PILL_COLOR: [u8; 4] = [0, 0, 0, 210];

pub open spec fn in_i32(x: int) -> bool {
    i32::MIN <= x <= i32::MAX
}

/// `n / d` rounded to the nearest integer, halves away from zero (`d > 0`).
pub open spec fn div_round_half_away(n: int, d: int) -> int {
    if n >= 0 {
        (n + d / 2) / d
    } else {
        -((-n + d / 2) / d)
    }
}

/// `n / d` truncated toward zero (`d > 0`).
pub open spec fn div_trunc(n: int, d: int) -> int {
    if n >= 0 {
        n / d
    } else {
        -((-n) / d)
    }
}

/// Unscaled font height for a label of `len` bytes: fewer characters get a
/// larger font.
pub open spec fn base_font(len: nat) -> int {
    if len <= 2 {
        42
    } else if len == 3 {
        34
    } else if len == 4 {
        28
    } else {
        22
    }
}

/// A length in pixels scaled by `text_scale` percent, to the nearest pixel
/// (halves away from zero).
pub open spec fn scaled(base: int, text_scale: int) -> int {
    div_round_half_away(base * text_scale, 100)
}

pub open spec fn font_size_of(len: nat, text_scale: int) -> int {
    scaled(base_font(len), text_scale)
}

/// Estimated width of one character: 0.6 of the font height, truncated.
pub open spec fn char_width_of(font: int) -> int {
    div_trunc(3 * font, 5)
}

/// The rounded rectangle `(left, top, right, bottom)` with corner `radius`.
pub struct Pill {
    pub left: i32,
    pub top: i32,
    pub right: i32,
    pub bottom: i32,
    pub radius: i32,
}

/// How the label is drawn: font height, text colour as a `0x00BBGGRR`
/// value, and the background pill when one is drawn.
pub struct IconLayout {
    pub font_size: i32,
    pub text_color: u32,
    pub pill: Option<Pill>,
}

/// Estimated box of a label of `len` bytes in font height `font`, centred
/// on a `canvas`-pixel square: `(left, top, width, height)`.
pub open spec fn spec_text_bounds(len: nat, font: int, canvas: int) -> (int, int, int, int) {
    let tw = char_width_of(font) * len;
    (div_trunc(canvas - tw, 2), div_trunc(canvas - font, 2), tw, font)
}

/// The pill pads the text box by 4 and 2 scaled pixels, with an 8-pixel
/// scaled corner radius: `(left, top, right, bottom, radius)`.
pub open spec fn pill_of(len: nat, text_scale: int) -> (int, int, int, int, int) {
    let f = font_size_of(len, text_scale);
    let b = spec_text_bounds(len, f, ICON_SIZE as int);
    let pad_x = scaled(4, text_scale);
    let pad_y = scaled(2, text_scale);
    let radius = scaled(8, text_scale);
    (b.0 - pad_x, b.1 - pad_y, b.0 + b.2 + pad_x, b.1 + b.3 + pad_y, radius)
}

/// The i32 arithmetic of the text box stays in range.
pub open spec fn bounds_fit(len: nat, font: int, canvas: int) -> bool {
    let tw = char_width_of(font) * len;
    &&& len <= i32::MAX
    &&& in_i32(tw)
    &&& in_i32(canvas - tw)
    &&& in_i32(canvas - font)
}

/// The i32 arithmetic of the layout stays in range for this label length
/// and scale.
pub open spec fn layout_fits(len: nat, text_scale: int) -> bool {
    let f = font_size_of(len, text_scale);
    let b = spec_text_bounds(len, f, ICON_SIZE as int);
    let pad_x = scaled(4, text_scale);
    let pad_y = scaled(2, text_scale);
    &&& bounds_fit(len, f, ICON_SIZE as int)
    &&& in_i32(b.0 - pad_x)
    &&& in_i32(b.1 - pad_y)
    &&& in_i32(b.0 + b.2)
    &&& in_i32(b.0 + b.2 + pad_x)
    &&& in_i32(b.1 + b.3)
    &&& in_i32(b.1 + b.3 + pad_y)
}

pub open spec fn spec_text_color(color: [u8; 4]) -> u32 {
    (color[2] as int * 65536 + color[1] as int * 256 + color[0] as int) as u32
}

fn round_half_away_100(n: i64) -> (r: i64)
    requires
        -1_000_000_000_000 <= n <= 1_000_000_000_000,
    ensures
        r == div_round_half_away(n as int, 100),
{
    if n >= 0 {
        (n + 50) / 100
    } else {
        -((-n + 50) / 100)
    }
}

fn trunc_div(n: i64, d: i64) -> (r: i64)
    requires
        d > 0,
        -1_000_000_000_000 <= n <= 1_000_000_000_000,
    ensures
        r == div_trunc(n as int, d as int),
{
    if n >= 0 {
        n / d
    } else {
        -((-n) / d)
    }
}

proof fn lemma_round_bounds(n: int)
    requires
        -100_000_000_000 <= n <= 100_000_000_000,
    ensures
        -1_000_000_001 <= div_round_half_away(n, 100) <= 1_000_000_001,
{
}

/// The font height for a label of `len` bytes at `text_scale` percent.
pub fn font_size(len: usize, text_scale: i32) -> (r: i32)
    ensures
        r == font_size_of(len as nat, text_scale as int),
{
    let base: i64 = if len <= 2 {
        42
    } else if len == 3 {
        34
    } else if len == 4 {
        28
    } else {
        22
    };
    let t = text_scale as i64;
    proof {
        assert(-100_000_000_000 <= base * t <= 100_000_000_000) by (nonlinear_arith)
            requires
                22 <= base <= 42,
                i32::MIN <= t <= i32::MAX,
        ;
        lemma_round_bounds((base * t) as int);
    }
    round_half_away_100(base * t) as i32
}

/// The text colour of an RGBA colour, as `0x00BBGGRR`.
pub fn text_color(color: [u8; 4]) -> (r: u32)
    ensures
        r == spec_text_color(color),
{
    color[2] as u32 * 65536 + color[1] as u32 * 256 + color[0] as u32
}

/// Estimates the box of a label `label_len` bytes long in font height
/// `font_size`, centred on a `canvas`-pixel square: characters are 0.6 of
/// the font height wide (truncated), and the box is as high as the font.
/// Returns `(left, top, width, height)`.
pub fn text_bounds(label_len: usize, font_size: i32, canvas: i32) -> (r: (i32, i32, i32, i32))
    requires
        bounds_fit(label_len as nat, font_size as int, canvas as int),
    ensures
        r.0 == spec_text_bounds(label_len as nat, font_size as int, canvas as int).0,
        r.1 == spec_text_bounds(label_len as nat, font_size as int, canvas as int).1,
        r.2 == spec_text_bounds(label_len as nat, font_size as int, canvas as int).2,
        r.3 == spec_text_bounds(label_len as nat, font_size as int, canvas as int).3,
{
    let f = font_size as i64;
    let cw = trunc_div(3 * f, 5);
    let len = label_len as i64;
    proof {
        assert(in_i32(cw * len));
    }
    let tw = cw * len;
    let tx = trunc_div(canvas as i64 - tw, 2);
    let ty = trunc_div(canvas as i64 - f, 2);
    (tx as i32, ty as i32, tw as i32, font_size)
}

/// Font height, text colour and (when `show_background`) the pill for a
/// label `label_len` bytes long at `text_scale` percent.
pub fn icon_layout(label_len: usize, color: [u8; 4], show_background: bool, text_scale: i32) -> (r:
    IconLayout)
    requires
        show_background ==> layout_fits(label_len as nat, text_scale as int),
    ensures
        r.font_size == font_size_of(label_len as nat, text_scale as int),
        r.text_color == spec_text_color(color),
        show_background ==> (r.pill matches Some(p) && ({
            let e = pill_of(label_len as nat, text_scale as int);
            &&& p.left == e.0
            &&& p.top == e.1
            &&& p.right == e.2
            &&& p.bottom == e.3
            &&& p.radius == e.4
        })),
        !show_background ==> r.pill is None,
{
    let f = font_size(label_len, text_scale);
    let pill = if show_background {
        let t = text_scale as i64;
        let (tx, ty, tw, th) = text_bounds(label_len, f, ICON_SIZE);
        let pad_x = round_half_away_100(4 * t);
        let pad_y = round_half_away_100(2 * t);
        let radius = round_half_away_100(8 * t);
        proof {
            lemma_round_bounds(8 * t as int);
        }
        let (tx, ty, tw, th) = (tx as i64, ty as i64, tw as i64, th as i64);
        Some(
            Pill {
                left: (tx - pad_x) as i32,
                top: (ty - pad_y) as i32,
                right: (tx + tw + pad_x) as i32,
                bottom: (ty + th + pad_y) as i32,
                radius: radius as i32,
            },
        )
    } else {
        None
    };
    IconLayout { font_size: f, text_color: text_color(color), pill }
}

/// Pixel `(px, py)` lies within the rectangle: in its middle band, or in
/// the corner discs of the given radius.
pub open spec fn rr_contains(px: int, py: int, left: int, top: int, right: int, bottom: int, r: int) -> bool {
    if px >= left + r && px < right - r {
        py >= top && py < bottom
    } else if py >= top + r && py < bottom - r {
        px >= left && px < right
    } else {
        ||| in_disc(px, py, left + r, top + r, r)
        ||| in_disc(px, py, right - r - 1, top + r, r)
        ||| in_disc(px, py, left + r, bottom - r - 1, r)
        ||| in_disc(px, py, right - r - 1, bottom - r - 1, r)
    }
}

pub open spec fn in_disc(px: int, py: int, cx: int, cy: int, r: int) -> bool {
    (px - cx) * (px - cx) + (py - cy) * (py - cy) <= r * r
}

/// The i32 arithmetic of the disc test stays in range.
pub open spec fn disc_fits(px: int, py: int, cx: int, cy: int, r: int) -> bool {
    &&& in_i32(px - cx)
    &&& in_i32(py - cy)
    &&& in_i32((px - cx) * (px - cx))
    &&& in_i32((py - cy) * (py - cy))
    &&& in_i32((px - cx) * (px - cx) + (py - cy) * (py - cy))
    &&& in_i32(r * r)
}

/// The i32 arithmetic of `rr_contains`, in the order it is evaluated, stays
/// in range.
pub open spec fn rr_fits(px: int, py: int, left: int, top: int, right: int, bottom: int, r: int) -> bool {
    &&& in_i32(left + r)
    &&& (px >= left + r ==> in_i32(right - r))
    &&& (!(px >= left + r && px < right - r) ==> {
        &&& in_i32(top + r)
        &&& (py >= top + r ==> in_i32(bottom - r))
        &&& (!(py >= top + r && py < bottom - r) ==> {
            &&& in_i32(right - r)
            &&& in_i32(right - r - 1)
            &&& in_i32(bottom - r)
            &&& in_i32(bottom - r - 1)
            &&& disc_fits(px, py, left + r, top + r, r)
            &&& (!in_disc(px, py, left + r, top + r, r) ==> disc_fits(px, py, right - r - 1, top + r, r))
            &&& (!in_disc(px, py, left + r, top + r, r) && !in_disc(px, py, right - r - 1, top + r, r)
                ==> disc_fits(px, py, left + r, bottom - r - 1, r))
            &&& (!in_disc(px, py, left + r, top + r, r) && !in_disc(px, py, right - r - 1, top + r, r)
                && !in_disc(px, py, left + r, bottom - r - 1, r) ==> disc_fits(
                px,
                py,
                right - r - 1,
                bottom - r - 1,
                r,
            ))
        })
    })
}

fn disc_contains(px: i64, py: i64, cx: i64, cy: i64, r: i64) -> (b: bool)
    requires
        in_i32(px as int),
        in_i32(py as int),
        in_i32(cx as int),
        in_i32(cy as int),
        in_i32(r as int),
        disc_fits(px as int, py as int, cx as int, cy as int, r as int),
    ensures
        b == in_disc(px as int, py as int, cx as int, cy as int, r as int),
{
    let dx = px - cx;
    let dy = py - cy;
    dx * dx + dy * dy <= r * r
}

/// Whether pixel `(px, py)` is inside the rounded rectangle
/// `(left, top, right, bottom)` with corner radius `radius`.
pub fn rounded_rect_contains(px: i32, py: i32, left: i32, top: i32, right: i32, bottom: i32, radius: i32) -> (b:
    bool)
    requires
        rr_fits(px as int, py as int, left as int, top as int, right as int, bottom as int, radius as int),
    ensures
        b == rr_contains(px as int, py as int, left as int, top as int, right as int, bottom as int, radius as int),
{
    let (px, py, l, t, rt, bt, r) = (
        px as i64,
        py as i64,
        left as i64,
        top as i64,
        right as i64,
        bottom as i64,
        radius as i64,
    );
    if px >= l + r && px < rt - r {
        return py >= t && py < bt;
    }
    if py >= t + r && py < bt - r {
        return px >= l && px < rt;
    }
    if disc_contains(px, py, l + r, t + r, r) {
        return true;
    }
    if disc_contains(px, py, rt - r - 1, t + r, r) {
        return true;
    }
    if disc_contains(px, py, l + r, bt - r - 1, r) {
        return true;
    }
    disc_contains(px, py, rt - r - 1, bt - r - 1, r)
}

pub open spec fn max0(a: int) -> int {
    if a > 0 { a } else { 0 }
}

pub open spec fn min64(a: int) -> int {
    if a < 64 { a } else { 64 }
}

/// Pixel `(x, y)` of the 64 x 64 image is painted by the pill.
pub open spec fn in_pill(x: int, y: int, left: int, top: int, right: int, bottom: int, r: int) -> bool {
    &&& max0(top) <= y < min64(bottom)
    &&& max0(left) <= x < min64(right)
    &&& rr_contains(x, y, left, top, right, bottom, r)
}

/// Every pixel of the clipped rectangle can be tested without overflow.
pub open spec fn pill_fits(left: int, top: int, right: int, bottom: int, r: int) -> bool {
    forall|x: int, y: int|
        max0(top) <= y < min64(bottom) && max0(left) <= x < min64(right) ==> #[trigger] rr_fits(
            x,
            y,
            left,
            top,
            right,
            bottom,
            r,
        )
}

/// The pixel (as `y * 64 + x`) that byte `i` of the image belongs to.
pub open spec fn pixel_of(i: int) -> int {
    i / 4
}

/// The image after filling the pill with `color` (BGRA).
pub open spec fn filled_byte(
    old: Seq<u8>,
    i: int,
    left: int,
    top: int,
    right: int,
    bottom: int,
    r: int,
    color: [u8; 4],
) -> u8 {
    if in_pill(pixel_of(i) % 64, pixel_of(i) / 64, left, top, right, bottom, r) {
        color[i % 4]
    } else {
        old[i]
    }
}

/// Fills the rounded rectangle `(left, top, right, bottom)` with corner
/// `radius` in the 64 x 64 BGRA image, clipped to the image.
pub fn fill_rounded_rect(
    pixels: &mut Vec<u8>,
    left: i32,
    top: i32,
    right: i32,
    bottom: i32,
    radius: i32,
    color: [u8; 4],
)
    requires
        old(pixels)@.len() == PIXEL_BYTES,
        pill_fits(left as int, top as int, right as int, bottom as int, radius as int),
    ensures
        final(pixels)@.len() == PIXEL_BYTES,
        forall|i: int|
            0 <= i < PIXEL_BYTES ==> #[trigger] final(pixels)@[i] == filled_byte(
                old(pixels)@,
                i,
                left as int,
                top as int,
                right as int,
                bottom as int,
                radius as int,
                color,
            ),
{
    let ghost orig = pixels@;
    let ghost (l, t, rt, bt, r) = (left as int, top as int, right as int, bottom as int, radius as int);
    let y0: i32 = if top > 0 { top } else { 0 };
    let y1: i32 = if bottom < 64 { bottom } else { 64 };
    let x0: i32 = if left > 0 { left } else { 0 };
    let x1: i32 = if right < 64 { right } else { 64 };
    let mut y = y0;
    while y < y1
        invariant
            pixels@.len() == PIXEL_BYTES,
            l == left as int,
            t == top as int,
            rt == right as int,
            bt == bottom as int,
            r == radius as int,
            y0 == max0(t),
            y1 == min64(bt),
            x0 == max0(l),
            x1 == min64(rt),
            y0 <= y,
            y <= y1 || y == y0,
            pill_fits(l, t, rt, bt, r),
            forall|i: int|
                0 <= i < PIXEL_BYTES ==> #[trigger] pixels@[i] == (if pixel_of(i) / 64 < y {
                    filled_byte(orig, i, l, t, rt, bt, r, color)
                } else {
                    orig[i]
                }),
        decreases 64 - y,
    {
        let mut x = x0;
        while x < x1
            invariant
                pixels@.len() == PIXEL_BYTES,
                l == left as int,
                t == top as int,
                rt == right as int,
                bt == bottom as int,
                r == radius as int,
                y0 == max0(t),
                y1 == min64(bt),
                x0 == max0(l),
                x1 == min64(rt),
                y0 <= y < y1,
                x0 <= x,
                x <= x1 || x == x0,
                pill_fits(l, t, rt, bt, r),
                forall|i: int|
                    0 <= i < PIXEL_BYTES ==> #[trigger] pixels@[i] == (if pixel_of(i) / 64 < y || (
                    pixel_of(i) / 64 == y && pixel_of(i) % 64 < x) {
                        filled_byte(orig, i, l, t, rt, bt, r, color)
                    } else {
                        orig[i]
                    }),
            decreases 64 - x,
        {
            assert(rr_fits(x as int, y as int, l, t, rt, bt, r));
            let inside = rounded_rect_contains(x, y, left, top, right, bottom, radius);
            let idx: usize = ((y as usize) * 64 + (x as usize)) * 4;
            let ghost before = pixels@;
            if inside {
                pixels.set(idx, color[0]);
                pixels.set(idx + 1, color[1]);
                pixels.set(idx + 2, color[2]);
                pixels.set(idx + 3, color[3]);
            }
            assert forall|i: int| 0 <= i < PIXEL_BYTES implies #[trigger] pixels@[i] == (if pixel_of(i)
                / 64 < y || (pixel_of(i) / 64 == y && pixel_of(i) % 64 < x + 1) {
                filled_byte(orig, i, l, t, rt, bt, r, color)
            } else {
                orig[i]
            }) by {
                if idx <= i < idx + 4 {
                    assert(pixel_of(i) == y * 64 + x);
                    assert(pixel_of(i) / 64 == y);
                    assert(pixel_of(i) % 64 == x);
                    assert(i % 4 == i - idx);
                } else {
                    assert(pixels@[i] == before[i]);
                    assert(pixel_of(i) != y * 64 + x);
                }
            }
            x = x + 1;
        }
        assert forall|i: int| 0 <= i < PIXEL_BYTES implies #[trigger] pixels@[i] == (if pixel_of(i) / 64
            < y + 1 {
            filled_byte(orig, i, l, t, rt, bt, r, color)
        } else {
            orig[i]
        }) by {
            if pixel_of(i) / 64 == y && pixel_of(i) % 64 >= x {
                assert(!in_pill(pixel_of(i) % 64, pixel_of(i) / 64, l, t, rt, bt, r));
            }
        }
        y = y + 1;
    }
    assert forall|i: int| 0 <= i < PIXEL_BYTES implies #[trigger] pixels@[i] == filled_byte(
        orig,
        i,
        l,
        t,
        rt,
        bt,
        r,
        color,
    ) by {
        if pixel_of(i) / 64 >= y {
            assert(!in_pill(pixel_of(i) % 64, pixel_of(i) / 64, l, t, rt, bt, r));
        }
    }
}


/// Byte `i` after the alpha pass: a fully transparent pixel with any colour
/// becomes opaque (only whole 4-byte pixels are considered).
pub open spec fn alpha_fixed_byte(old: Seq<u8>, i: int) -> u8 {
    let base = i - i % 4;
    if i % 4 == 3 && base + 4 <= old.len() && old[i] == 0 && (old[base + 2] != 0 || old[base + 1] != 0
        || old[base] != 0) {
        255
    } else {
        old[i]
    }
}

/// Makes every pixel that has a colour but zero alpha fully opaque (text
/// drawn by GDI leaves alpha at zero).
pub fn opaque_alpha(pixels: &mut Vec<u8>)
    ensures
        final(pixels)@.len() == old(pixels)@.len(),
        forall|i: int|
            0 <= i < old(pixels)@.len() ==> #[trigger] final(pixels)@[i] == alpha_fixed_byte(old(pixels)@, i),
{
    let ghost orig = pixels@;
    let len = pixels.len();
    let n = len / 4;
    let mut k: usize = 0;
    while k < n
        invariant
            n == orig.len() / 4,
            orig.len() <= usize::MAX,
            pixels@.len() == orig.len(),
            k <= n,
            forall|i: int|
                0 <= i < orig.len() ==> #[trigger] pixels@[i] == (if i < 4 * k {
                    alpha_fixed_byte(orig, i)
                } else {
                    orig[i]
                }),
        decreases n - k,
    {
        assert(4 * k + 4 <= orig.len());
        let base = 4 * k;
        if pixels[base + 3] == 0 && (pixels[base + 2] != 0 || pixels[base + 1] != 0 || pixels[base] != 0) {
            pixels.set(base + 3, 255);
        }
        assert forall|i: int| 0 <= i < orig.len() implies #[trigger] pixels@[i] == (if i < 4 * (k + 1) {
            alpha_fixed_byte(orig, i)
        } else {
            orig[i]
        }) by {
            if base <= i < base + 4 {
                assert(i - i % 4 == base);
            }
        }
        k += 1;
    }
    assert forall|i: int| 0 <= i < orig.len() implies #[trigger] pixels@[i] == alpha_fixed_byte(orig, i) by {
        if i >= 4 * k {
            assert(i - i % 4 + 4 > orig.len());
        }
    }
}

/// Bit `p` of the mask: pixel `p` (`y * 64 + x`) has nonzero alpha.
pub open spec fn mask_bit(pixels: Seq<u8>, p: int) -> int {
    if pixels[4 * p + 3] > 0 {
        1
    } else {
        0
    }
}

/// The first `k` bits of mask byte `j`, most significant first.
pub open spec fn mask_prefix(pixels: Seq<u8>, j: int, k: nat) -> int
    decreases k,
{
    if k == 0 {
        0
    } else {
        2 * mask_prefix(pixels, j, (k - 1) as nat) + mask_bit(pixels, 8 * j + k - 1)
    }
}

/// Mask byte `j` covers pixels `8j .. 8j + 8`, the first in the top bit.
pub open spec fn mask_byte(pixels: Seq<u8>, j: int) -> int {
    mask_prefix(pixels, j, 8)
}

proof fn lemma_mask_prefix_bound(pixels: Seq<u8>, j: int, k: nat)
    requires
        k <= 8,
    ensures
        0 <= mask_prefix(pixels, j, k) < pow2_small(k),
    decreases k,
{
    if k > 0 {
        lemma_mask_prefix_bound(pixels, j, (k - 1) as nat);
    }
}

pub open spec fn pow2_small(k: nat) -> int
    decreases k,
{
    if k == 0 {
        1
    } else {
        2 * pow2_small((k - 1) as nat)
    }
}

/// The 1-bit mask of the 64 x 64 image: a pixel's bit is set when its
/// alpha is nonzero.
pub fn mask_bits(pixels: &Vec<u8>) -> (r: Vec<u8>)
    requires
        pixels@.len() == PIXEL_BYTES,
    ensures
        r@.len() == MASK_BYTES,
        forall|j: int| 0 <= j < MASK_BYTES ==> #[trigger] r@[j] as int == mask_byte(pixels@, j),
{
    let mut out: Vec<u8> = Vec::new();
    let mut j: usize = 0;
    while j < MASK_BYTES
        invariant
            pixels@.len() == PIXEL_BYTES,
            j <= MASK_BYTES,
            out@.len() == j,
            forall|q: int| 0 <= q < j ==> #[trigger] out@[q] as int == mask_byte(pixels@, q),
        decreases MASK_BYTES - j,
    {
        let mut b: u32 = 0;
        let mut k: usize = 0;
        while k < 8
            invariant
                pixels@.len() == PIXEL_BYTES,
                j < MASK_BYTES,
                k <= 8,
                b as int == mask_prefix(pixels@, j as int, k as nat),
            decreases 8 - k,
        {
            proof {
                lemma_mask_prefix_bound(pixels@, j as int, k as nat);
                reveal_with_fuel(pow2_small, 9);
                assert(pow2_small(8) == 256);
                lemma_pow2_small_mono(k as nat);
            }
            let p = 8 * j + k;
            let bit: u32 = if pixels[4 * p + 3] > 0 {
                1
            } else {
                0
            };
            b = 2 * b + bit;
            k += 1;
        }
        proof {
            lemma_mask_prefix_bound(pixels@, j as int, 8);
            reveal_with_fuel(pow2_small, 9);
                assert(pow2_small(8) == 256);
        }
        out.push(b as u8);
        j += 1;
    }
    out
}

proof fn lemma_pow2_small_mono(k: nat)
    requires
        k < 8,
    ensures
        pow2_small(k) <= 128,
    decreases 8 - k,
{
    reveal_with_fuel(pow2_small, 8);
    assert(pow2_small(7) == 128);
    if k < 7 {
        lemma_pow2_small_mono(k + 1);
    }
}


fn fits(x: i128) -> (b: bool)
    ensures
        b == in_i32(x as int),
{
    -2147483648 <= x && x <= 2147483647
}

fn disc_fits_at(px: i128, py: i128, cx: i128, cy: i128, r: i128) -> (b: bool)
    requires
        -0x1_0000_0000_0000 <= px <= 0x1_0000_0000_0000,
        -0x1_0000_0000_0000 <= py <= 0x1_0000_0000_0000,
        -0x1_0000_0000_0000 <= cx <= 0x1_0000_0000_0000,
        -0x1_0000_0000_0000 <= cy <= 0x1_0000_0000_0000,
        -0x1_0000_0000_0000 <= r <= 0x1_0000_0000_0000,
    ensures
        b == disc_fits(px as int, py as int, cx as int, cy as int, r as int),
{
    let dx = px - cx;
    let dy = py - cy;
    proof {
        assert(dx * dx <= 0x10_0000_0000_0000_0000_0000_0000) by (nonlinear_arith)
            requires
                -0x2_0000_0000_0000 <= dx <= 0x2_0000_0000_0000,
        ;
        assert(dy * dy <= 0x10_0000_0000_0000_0000_0000_0000) by (nonlinear_arith)
            requires
                -0x2_0000_0000_0000 <= dy <= 0x2_0000_0000_0000,
        ;
        assert(r * r <= 0x10_0000_0000_0000_0000_0000_0000) by (nonlinear_arith)
            requires
                -0x2_0000_0000_0000 <= r <= 0x2_0000_0000_0000,
        ;
        assert(dx * dx >= 0) by (nonlinear_arith);
        assert(dy * dy >= 0) by (nonlinear_arith);
        assert(r * r >= 0) by (nonlinear_arith);
    }
    fits(dx) && fits(dy) && fits(dx * dx) && fits(dy * dy) && fits(dx * dx + dy * dy) && fits(r * r)
}

fn rr_fits_at(px: i32, py: i32, left: i32, top: i32, right: i32, bottom: i32, radius: i32) -> (b: bool)
    ensures
        b == rr_fits(px as int, py as int, left as int, top as int, right as int, bottom as int, radius as int),
{
    let (px, py, l, t, rt, bt, r) = (
        px as i128,
        py as i128,
        left as i128,
        top as i128,
        right as i128,
        bottom as i128,
        radius as i128,
    );
    if !fits(l + r) {
        return false;
    }
    if px >= l + r && !fits(rt - r) {
        return false;
    }
    if px >= l + r && px < rt - r {
        return true;
    }
    if !fits(t + r) {
        return false;
    }
    if py >= t + r && !fits(bt - r) {
        return false;
    }
    if py >= t + r && py < bt - r {
        return true;
    }
    if !(fits(rt - r) && fits(rt - r - 1) && fits(bt - r) && fits(bt - r - 1)) {
        return false;
    }
    if !disc_fits_at(px, py, l + r, t + r, r) {
        return false;
    }
    if disc_contains(px as i64, py as i64, (l + r) as i64, (t + r) as i64, r as i64) {
        return true;
    }
    if !disc_fits_at(px, py, rt - r - 1, t + r, r) {
        return false;
    }
    if disc_contains(px as i64, py as i64, (rt - r - 1) as i64, (t + r) as i64, r as i64) {
        return true;
    }
    if !disc_fits_at(px, py, l + r, bt - r - 1, r) {
        return false;
    }
    if disc_contains(px as i64, py as i64, (l + r) as i64, (bt - r - 1) as i64, r as i64) {
        return true;
    }
    disc_fits_at(px, py, rt - r - 1, bt - r - 1, r)
}

/// Whether every pixel of the clipped rectangle can be tested without i32
/// overflow (the condition `fill_rounded_rect` needs).
pub fn pill_in_range(left: i32, top: i32, right: i32, bottom: i32, radius: i32) -> (b: bool)
    ensures
        b == pill_fits(left as int, top as int, right as int, bottom as int, radius as int),
{
    let y0: i32 = if top > 0 { top } else { 0 };
    let y1: i32 = if bottom < 64 { bottom } else { 64 };
    let x0: i32 = if left > 0 { left } else { 0 };
    let x1: i32 = if right < 64 { right } else { 64 };
    let mut y = y0;
    while y < y1
        invariant
            y0 == max0(top as int),
            y1 == min64(bottom as int),
            x0 == max0(left as int),
            x1 == min64(right as int),
            y0 <= y,
            y <= y1 || y == y0,
            forall|xx: int, yy: int|
                y0 <= yy < y && x0 <= xx < x1 ==> #[trigger] rr_fits(
                    xx,
                    yy,
                    left as int,
                    top as int,
                    right as int,
                    bottom as int,
                    radius as int,
                ),
        decreases 64 - y,
    {
        let mut x = x0;
        while x < x1
            invariant
                y0 == max0(top as int),
                y1 == min64(bottom as int),
                x0 == max0(left as int),
                x1 == min64(right as int),
                y0 <= y < y1,
                x0 <= x,
                x <= x1 || x == x0,
                forall|xx: int, yy: int|
                    (y0 <= yy < y && x0 <= xx < x1) || (yy == y && x0 <= xx < x) ==> #[trigger] rr_fits(
                        xx,
                        yy,
                        left as int,
                        top as int,
                        right as int,
                        bottom as int,
                        radius as int,
                    ),
            decreases 64 - x,
        {
            if !rr_fits_at(x, y, left, top, right, bottom, radius) {
                return false;
            }
            x = x + 1;
        }
        y = y + 1;
    }
    true
}

/// Whether the layout arithmetic stays in i32 range for a label of
/// `label_len` bytes at `text_scale` percent (the condition `icon_layout`
/// needs when it lays out a pill).
pub fn layout_in_range(label_len: usize, text_scale: i32) -> (b: bool)
    ensures
        b == layout_fits(label_len as nat, text_scale as int),
{
    if label_len > 2147483647 {
        return false;
    }
    let f = font_size(label_len, text_scale) as i128;
    let t = text_scale as i128;
    let len = label_len as i128;
    let cw = (trunc_div(3 * (f as i64), 5)) as i128;
    proof {
        assert(-0x1_0000_0000_0000_0000 <= cw * len <= 0x1_0000_0000_0000_0000) by (nonlinear_arith)
            requires
                -0x1_0000_0000 <= cw <= 0x1_0000_0000,
                0 <= len <= 0x1_0000_0000,
        ;
    }
    let tw = cw * len;
    let tx = if 64 - tw >= 0 {
        (64 - tw) / 2
    } else {
        -((tw - 64) / 2)
    };
    let ty = (trunc_div(64 - (f as i64), 2)) as i128;
    let pad_x = (round_half_away_100(4 * (t as i64))) as i128;
    let pad_y = (round_half_away_100(2 * (t as i64))) as i128;
    fits(tw) && fits(64 - tw) && fits(tx - pad_x) && fits(ty - pad_y) && fits(tx + tw) && fits(tx + tw + pad_x)
        && fits(ty + f) && fits(ty + f + pad_y)
}


/// Rounding to hundredths: within half a unit, a half rounding away from
/// zero.
pub proof fn lemma_round_half_away_100(n: int)
    ensures
        -50 <= n - 100 * div_round_half_away(n, 100) <= 50,
        n - 100 * div_round_half_away(n, 100) == 50 ==> n < 0,
        n - 100 * div_round_half_away(n, 100) == -50 ==> n > 0,
{
}

/// Font height: 42, 34, 28 or 22 pixels for labels of at most 2, 3, 4 and
/// more bytes, times the scale percentage, to the nearest pixel (halves
/// away from zero).
pub proof fn lemma_font_size(len: nat, t: int)
    ensures
        len <= 2 ==> base_font(len) == 42,
        len == 3 ==> base_font(len) == 34,
        len == 4 ==> base_font(len) == 28,
        len >= 5 ==> base_font(len) == 22,
        -50 <= base_font(len) * t - 100 * font_size_of(len, t) <= 50,
        base_font(len) * t - 100 * font_size_of(len, t) == 50 ==> base_font(len) * t < 0,
        base_font(len) * t - 100 * font_size_of(len, t) == -50 ==> base_font(len) * t > 0,
{
    lemma_round_half_away_100(base_font(len) * t);
}

/// A character is 0.6 of the font height wide, truncated toward zero.
pub proof fn lemma_char_width(f: int)
    ensures
        f >= 0 ==> 0 <= 3 * f - 5 * char_width_of(f) < 5,
        f < 0 ==> 0 <= 5 * char_width_of(f) - 3 * f < 5,
{
}

/// A mask byte holds eight pixels, the first in the top bit.
pub proof fn lemma_mask_byte_bits(p: Seq<u8>, j: int)
    ensures
        mask_byte(p, j) == 128 * mask_bit(p, 8 * j) + 64 * mask_bit(p, 8 * j + 1) + 32 * mask_bit(
            p,
            8 * j + 2,
        ) + 16 * mask_bit(p, 8 * j + 3) + 8 * mask_bit(p, 8 * j + 4) + 4 * mask_bit(p, 8 * j + 5) + 2
            * mask_bit(p, 8 * j + 6) + mask_bit(p, 8 * j + 7),
        forall|q: int| #[trigger] mask_bit(p, q) == (if p[4 * q + 3] > 0 { 1int } else { 0int }),
{
    reveal_with_fuel(mask_prefix, 9);
}

/// The alpha pass touches only alpha bytes: it makes a transparent pixel
/// with some colour opaque and leaves every other byte as it was.
pub proof fn lemma_alpha_pass(old: Seq<u8>, i: int)
    requires
        0 <= i < old.len(),
        old.len() % 4 == 0,
    ensures
        i % 4 != 3 ==> alpha_fixed_byte(old, i) == old[i],
        i % 4 == 3 && old[i] != 0 ==> alpha_fixed_byte(old, i) == old[i],
        i % 4 == 3 && old[i] == 0 && (old[i - 1] != 0 || old[i - 2] != 0 || old[i - 3] != 0)
            ==> alpha_fixed_byte(old, i) == 255,
        i % 4 == 3 && old[i] == 0 && old[i - 1] == 0 && old[i - 2] == 0 && old[i - 3] == 0
            ==> alpha_fixed_byte(old, i) == 0,
{
}

} // verus!
