use vstd::prelude::*;

use crate::decoder::{DecodedFrame, PixelFormat};
use crate::error::ViewerError;

verus! {

/// Surface dimensions of the rendering viewport in physical pixels.
#[derive(Debug, Clone, Copy, PartialEq, Eq, Structural)]
pub struct ViewportSize {
    /// Viewport width in physical pixels.
    pub width: u32,
    /// Viewport height in physical pixels.
    pub height: u32,
}

impl Default for ViewportSize {
    fn default() -> (v: Self)
        ensures
            v == (ViewportSize { width: 0, height: 0 }),
    {
        ViewportSize { width: 0, height: 0 }
    }
}

/// A renderer that presents decoded frames on a display surface.
pub trait Renderer {
    /// Prepares the renderer for a surface of `initial_size`.
    fn initialize(&mut self, initial_size: ViewportSize) -> Result<(), ViewerError>;

    /// Adapts the renderer to a new surface size.
    fn resize(&mut self, new_size: ViewportSize) -> Result<(), ViewerError>;

    /// Draws `frame` into the back buffer.
    fn render_frame(&mut self, frame: &DecodedFrame) -> Result<(), ViewerError>;

    /// Shows the back buffer.
    fn present(&mut self) -> Result<(), ViewerError>;

    /// Releases the surface; the renderer must be initialized again before use.
    fn shutdown(&mut self) -> Result<(), ViewerError>;
}

/// BT.601 full-range coefficients in 16.16 fixed point.
pub const R_CR: i32 = 91_881;
/// Green weight of the blue-difference chroma.
pub const G_CB: i32 = 22_554;
/// Green weight of the red-difference chroma.
pub const G_CR: i32 = 46_802;
/// Blue weight of the blue-difference chroma.
pub const B_CB: i32 = 116_130;

/// A 16.16 fixed-point colour value reduced to an 8-bit channel: `clamp(v >> 16, 0, 255)`.
pub open spec fn channel(v: int) -> int {
    let q = v / 65536;
    if q < 0 {
        0
    } else if q > 255 {
        255
    } else {
        q
    }
}

/// Red channel of an NV12 sample.
pub open spec fn nv12_red(luma: u8, cb: u8, cr: u8) -> int {
    channel(luma * 65536 + R_CR * (cr - 128))
}

/// Green channel of an NV12 sample.
pub open spec fn nv12_green(luma: u8, cb: u8, cr: u8) -> int {
    channel(luma * 65536 - G_CB * (cb - 128) - G_CR * (cr - 128))
}

/// Blue channel of an NV12 sample.
pub open spec fn nv12_blue(luma: u8, cb: u8, cr: u8) -> int {
    channel(luma * 65536 + B_CB * (cb - 128))
}

/// Opaque `0xAARRGGBB` word of an NV12 sample.
pub open spec fn nv12_pixel(luma: u8, cb: u8, cr: u8) -> u32 {
    (0xFF00_0000 + nv12_red(luma, cb, cr) * 65536 + nv12_green(luma, cb, cr) * 256 + nv12_blue(
        luma,
        cb,
        cr,
    )) as u32
}

/// Whether an NV12 sample converts to a pixel with any colour.
pub open spec fn nv12_is_lit(luma: u8, cb: u8, cr: u8) -> bool {
    nv12_red(luma, cb, cr) != 0 || nv12_green(luma, cb, cr) != 0 || nv12_blue(luma, cb, cr) != 0
}

fn to_channel(v: i32) -> (c: u32)
    ensures
        c == channel(v as int),
        c <= 255,
{
    if v < 0 {
        0
    } else {
        let q = v / 65536;
        if q > 255 {
            255
        } else {
            q as u32
        }
    }
}

proof fn lemma_pack_rgb(r: u32, g: u32, b: u32)
    requires
        r <= 255,
        g <= 255,
        b <= 255,
    ensures
        0xFF00_0000u32 | (r << 16u32) | (g << 8u32) | b == 0xFF00_0000 + r * 65536 + g * 256 + b,
        ((0xFF00_0000u32 | (r << 16u32) | (g << 8u32) | b) & 0x00FF_FFFFu32 != 0) == (r != 0 || g
            != 0 || b != 0),
{
    assert(0xFF00_0000u32 | (r << 16u32) | (g << 8u32) | b == 0xFF00_0000 + r * 65536 + g * 256
        + b) by (bit_vector)
        requires
            r <= 255,
            g <= 255,
            b <= 255,
    ;
    assert(((0xFF00_0000u32 | (r << 16u32) | (g << 8u32) | b) & 0x00FF_FFFFu32 != 0) == (r != 0
        || g != 0 || b != 0)) by (bit_vector)
        requires
            r <= 255,
            g <= 255,
            b <= 255,
    ;
}

/// `n / d` (rounded down) clamped to an 8-bit channel: the exact value of a real-valued
/// channel `n / d` clamped to `[0, 255]` and then truncated.
pub open spec fn reference_channel(n: int, d: int) -> int {
    let q = n / d;
    if q < 0 {
        0
    } else if q > 255 {
        255
    } else {
        q
    }
}

/// Red channel of the real-valued BT.601 full-range reference, `Y + 1.402 (Cr - 128)`.
pub open spec fn reference_red(luma: u8, cr: u8) -> int {
    reference_channel(1000 * luma + 1402 * (cr - 128), 1000)
}

/// Green channel of the reference, `Y - 0.344136 (Cb - 128) - 0.714136 (Cr - 128)`.
pub open spec fn reference_green(luma: u8, cb: u8, cr: u8) -> int {
    reference_channel(1_000_000 * luma - 344_136 * (cb - 128) - 714_136 * (cr - 128), 1_000_000)
}

/// Blue channel of the reference, `Y + 1.772 (Cb - 128)`.
pub open spec fn reference_blue(luma: u8, cb: u8) -> int {
    reference_channel(1000 * luma + 1772 * (cb - 128), 1000)
}

/// Two values less than one apart, `a / 65536` and `n / d`, round down to integers at
/// most one apart.
proof fn lemma_floors_close(a: int, n: int, d: int)
    requires
        d > 0,
        -65536 * d < a * d - n * 65536 < 65536 * d,
    ensures
        -1 <= a / 65536 - n / d <= 1,
{
    let p = a / 65536;
    let q = n / d;
    let r1 = a % 65536;
    let r2 = n % d;
    vstd::arithmetic::div_mod::lemma_fundamental_div_mod(a, 65536);
    vstd::arithmetic::div_mod::lemma_fundamental_div_mod(n, d);
    assert(0 <= r1 < 65536);
    vstd::arithmetic::div_mod::lemma_mod_bound(n, d);
    assert(a * d - n * 65536 == 65536 * d * (p - q) + r1 * d - 65536 * r2) by (nonlinear_arith)
        requires
            a == 65536 * p + r1,
            n == d * q + r2,
    ;
    assert(-1 <= p - q <= 1) by (nonlinear_arith)
        requires
            d > 0,
            0 <= r1 < 65536,
            0 <= r2 < d,
            -65536 * d < 65536 * d * (p - q) + r1 * d - 65536 * r2 < 65536 * d,
    ;
}

/// The fixed-point conversion is within one of the real-valued BT.601 full-range
/// reference on every channel, for every NV12 sample.
pub proof fn lemma_nv12_within_one_of_reference(luma: u8, cb: u8, cr: u8)
    ensures
        -1 <= nv12_red(luma, cb, cr) - reference_red(luma, cr) <= 1,
        -1 <= nv12_green(luma, cb, cr) - reference_green(luma, cb, cr) <= 1,
        -1 <= nv12_blue(luma, cb, cr) - reference_blue(luma, cb) <= 1,
{
    lemma_floors_close(
        luma * 65536 + R_CR * (cr - 128),
        1000 * luma + 1402 * (cr - 128),
        1000,
    );
    lemma_floors_close(
        luma * 65536 - G_CB * (cb - 128) - G_CR * (cr - 128),
        1_000_000 * luma - 344_136 * (cb - 128) - 714_136 * (cr - 128),
        1_000_000,
    );
    lemma_floors_close(
        luma * 65536 + B_CB * (cb - 128),
        1000 * luma + 1772 * (cb - 128),
        1000,
    );
}

/// Converts one NV12 sample to an opaque `0RGB` word stored in `out`, with BT.601
/// full-range coefficients in 16.16 fixed point. Returns 1 when the pixel has any
/// colour and 0 when it is pure black.
pub fn nv12_to_bgra(luma: u8, chroma_b: u8, chroma_r: u8, out: &mut u32) -> (lit: u8)
    ensures
        *final(out) == nv12_pixel(luma, chroma_b, chroma_r),
        lit == (if nv12_is_lit(luma, chroma_b, chroma_r) {
            1u8
        } else {
            0u8
        }),
{
    let l = (luma as i32) * 65536;
    let cb = (chroma_b as i32) - 128;
    let cr = (chroma_r as i32) - 128;
    let red = to_channel(l + R_CR * cr);
    let green = to_channel(l - G_CB * cb - G_CR * cr);
    let blue = to_channel(l + B_CB * cb);
    let pixel = 0xFF00_0000u32 | (red << 16u32) | (green << 8u32) | blue;
    proof {
        lemma_pack_rgb(red, green, blue);
    }
    *out = pixel;
    if pixel & 0x00FF_FFFF != 0 {
        1
    } else {
        0
    }
}


/// `n / d` rounded to the nearest integer, halves away from zero (`n, d` non-negative).
pub open spec fn round_div(n: int, d: int) -> int {
    (2 * n + d) / (2 * d)
}

/// `x` clamped into `[lo, hi]`.
pub open spec fn clamp_int(x: int, lo: int, hi: int) -> int {
    if x < lo {
        lo
    } else if x > hi {
        hi
    } else {
        x
    }
}

/// The largest rectangle of the frame's aspect ratio that fits the target, centred:
/// `(x, y, width, height)`. Zero dimensions count as one. The frame is scaled by
/// `min(target_w / frame_w, target_h / frame_h)` and each scaled side is rounded to
/// the nearest pixel, at least one and at most the target side.
pub open spec fn aspect_fit(frame_w: u32, frame_h: u32, target_w: u32, target_h: u32) -> (
    u32,
    u32,
    u32,
    u32,
) {
    let fw: int = if frame_w == 0 { 1 } else { frame_w as int };
    let fh: int = if frame_h == 0 { 1 } else { frame_h as int };
    let tw: int = if target_w == 0 { 1 } else { target_w as int };
    let th: int = if target_h == 0 { 1 } else { target_h as int };
    let by_width = tw * fh <= th * fw;
    let w = if by_width { tw } else { clamp_int(round_div(fw * th, fh), 1, tw) };
    let h = if by_width { clamp_int(round_div(fh * tw, fw), 1, th) } else { th };
    (((tw - w) / 2) as u32, ((th - h) / 2) as u32, w as u32, h as u32)
}

/// The product of two 32-bit values fits in 64 bits.
pub proof fn lemma_mul_u32_fits(a: u32, b: u32)
    ensures
        0 <= (a as int) * (b as int) <= u64::MAX,
{
    assert(0 <= (a as int) * (b as int) <= 0xFFFF_FFFF * 0xFFFF_FFFF) by (nonlinear_arith)
        requires
            a <= 0xFFFF_FFFF,
            b <= 0xFFFF_FFFF,
    ;
}

proof fn lemma_round_div_bounds(n: int, d: int, cap: int)
    requires
        n >= 0,
        d > 0,
        cap >= 0,
        n <= cap * d,
    ensures
        0 <= round_div(n, d) <= cap,
{
    assert(0 <= (2 * n + d) / (2 * d)) by (nonlinear_arith)
        requires
            n >= 0,
            d > 0,
    ;
    assert((2 * n + d) / (2 * d) <= cap) by (nonlinear_arith)
        requires
            n >= 0,
            d > 0,
            cap >= 0,
            n <= cap * d,
    ;
}

/// Rounding `n / d` to the nearest integer misses `n` by less than `d` once multiplied back.
proof fn lemma_round_div_close(n: int, d: int)
    requires
        n >= 0,
        d > 0,
    ensures
        -d < d * round_div(n, d) - n < d,
{
    let q = round_div(n, d);
    vstd::arithmetic::div_mod::lemma_fundamental_div_mod(2 * n + d, 2 * d);
    vstd::arithmetic::div_mod::lemma_mod_bound(2 * n + d, 2 * d);
    assert(-d < d * q - n < d) by (nonlinear_arith)
        requires
            d > 0,
            2 * n + d == 2 * d * q + (2 * n + d) % (2 * d),
            0 <= (2 * n + d) % (2 * d) < 2 * d,
    ;
}

/// The fitted rectangle shows the whole frame without cropping: it lies inside the
/// target, fills it along one side, is centred along the other, and keeps the frame's
/// aspect ratio up to rounding (`|w * fh - h * fw| <= fw + fh`). Zero sizes act as one.
pub proof fn lemma_aspect_fit_shape(frame_w: u32, frame_h: u32, target_w: u32, target_h: u32)
    ensures
        ({
            let fw: int = if frame_w == 0 { 1 } else { frame_w as int };
            let fh: int = if frame_h == 0 { 1 } else { frame_h as int };
            let tw: int = if target_w == 0 { 1 } else { target_w as int };
            let th: int = if target_h == 0 { 1 } else { target_h as int };
            let r = aspect_fit(frame_w, frame_h, target_w, target_h);
            let (x, y, w, h) = (r.0 as int, r.1 as int, r.2 as int, r.3 as int);
            &&& 1 <= w <= tw
            &&& 1 <= h <= th
            &&& w == tw || h == th
            &&& x == (tw - w) / 2
            &&& y == (th - h) / 2
            &&& -(fw + fh) <= w * fh - h * fw <= fw + fh
        }),
{
    let fw: int = if frame_w == 0 { 1 } else { frame_w as int };
    let fh: int = if frame_h == 0 { 1 } else { frame_h as int };
    let tw: int = if target_w == 0 { 1 } else { target_w as int };
    let th: int = if target_h == 0 { 1 } else { target_h as int };
    if tw * fh <= th * fw {
        lemma_round_div_bounds(fh * tw, fw, th);
        lemma_round_div_close(fh * tw, fw);
        let q = round_div(fh * tw, fw);
        assert(fh * tw >= 1) by (nonlinear_arith)
            requires
                fh >= 1,
                tw >= 1,
        ;
        let h = clamp_int(q, 1, th);
        assert(-(fw + fh) <= tw * fh - h * fw <= fw + fh) by (nonlinear_arith)
            requires
                -fw < fw * q - fh * tw < fw,
                q == 0 ==> h == 1,
                q >= 1 ==> h == q,
                0 <= q,
                fw >= 1,
                fh >= 1,
                fh * tw >= 1,
        ;
    } else {
        lemma_round_div_bounds(fw * th, fh, tw);
        lemma_round_div_close(fw * th, fh);
        let q = round_div(fw * th, fh);
        assert(fw * th >= 1) by (nonlinear_arith)
            requires
                fw >= 1,
                th >= 1,
        ;
        let w = clamp_int(q, 1, tw);
        assert(-(fw + fh) <= w * fh - th * fw <= fw + fh) by (nonlinear_arith)
            requires
                -fh < fh * q - fw * th < fh,
                q == 0 ==> w == 1,
                q >= 1 ==> w == q,
                0 <= q,
                fw >= 1,
                fh >= 1,
                fw * th >= 1,
        ;
    }
}

/// Computes the destination rectangle `(x, y, width, height)` that shows the whole
/// frame at its own aspect ratio inside the target, letterboxed or pillarboxed.
pub fn compute_aspect_fit_rect(frame_w: u32, frame_h: u32, target_w: u32, target_h: u32) -> (r: (
    u32,
    u32,
    u32,
    u32,
))
    ensures
        r == aspect_fit(frame_w, frame_h, target_w, target_h),
        r.2 >= 1,
        r.3 >= 1,
        r.0 + r.2 <= (if target_w == 0 { 1 } else { target_w as int }),
        r.1 + r.3 <= (if target_h == 0 { 1 } else { target_h as int }),
{
    let fw: u32 = if frame_w == 0 { 1 } else { frame_w };
    let fh: u32 = if frame_h == 0 { 1 } else { frame_h };
    let tw: u32 = if target_w == 0 { 1 } else { target_w };
    let th: u32 = if target_h == 0 { 1 } else { target_h };
    proof {
        lemma_mul_u32_fits(tw, fh);
        lemma_mul_u32_fits(th, fw);
    }
    let by_width = (tw as u64) * (fh as u64) <= (th as u64) * (fw as u64);
    let w: u32;
    let h: u32;
    if by_width {
        w = tw;
        let n: u128 = (fh as u128) * (tw as u128);
        proof {
            assert(n <= (th as int) * (fw as int));
            lemma_round_div_bounds(n as int, fw as int, th as int);
        }
        let q: u128 = (2 * n + fw as u128) / (2 * fw as u128);
        h = if q < 1 {
            1
        } else if q > th as u128 {
            th
        } else {
            q as u32
        };
    } else {
        h = th;
        let n: u128 = (fw as u128) * (th as u128);
        proof {
            assert((tw as int) * (fh as int) > (th as int) * (fw as int));
            assert(n <= (tw as int) * (fh as int)) by (nonlinear_arith)
                requires
                    n == (fw as int) * (th as int),
                    (tw as int) * (fh as int) > (th as int) * (fw as int),
            ;
            lemma_round_div_bounds(n as int, fh as int, tw as int);
        }
        let q: u128 = (2 * n + fh as u128) / (2 * fh as u128);
        w = if q < 1 {
            1
        } else if q > tw as u128 {
            tw
        } else {
            q as u32
        };
    }
    ((tw - w) / 2, (th - h) / 2, w, h)
}


/// Frame width as drawn: a zero width counts as one column.
pub open spec fn drawn_width(frame: DecodedFrame) -> int {
    if frame.width == 0 {
        1
    } else {
        frame.width as int
    }
}

/// Frame height as drawn: a zero height counts as one row.
pub open spec fn drawn_height(frame: DecodedFrame) -> int {
    if frame.height == 0 {
        1
    } else {
        frame.height as int
    }
}

/// Bytes per row of the interleaved chroma plane of an NV12 image `fw` pixels wide.
pub open spec fn chroma_row_bytes(fw: int) -> int {
    ((fw + 1) / 2) * 2
}

/// Rows of the chroma plane of an NV12 image `fh` pixels high.
pub open spec fn chroma_rows(fh: int) -> int {
    (fh + 1) / 2
}

/// Whether the frame's buffer holds a whole image of its format and size.
pub open spec fn source_complete(frame: DecodedFrame) -> bool {
    let fw = drawn_width(frame);
    let fh = drawn_height(frame);
    match frame.format {
        PixelFormat::Bgra8 => frame.buffer@.len() >= fw * fh * 4,
        _ => frame.buffer@.len() >= fw * fh + chroma_rows(fh) * chroma_row_bytes(fw),
    }
}

/// The `0xAARRGGBB` word of four BGRA bytes.
pub open spec fn bgra_word(b: u8, g: u8, r: u8, a: u8) -> u32 {
    (a * 16777216 + r * 65536 + g * 256 + b) as u32
}

/// The pixel of the frame at source row `srow`, column `scol`, as an `0xAARRGGBB` word.
/// NV12 and P010 buffers are read as an 8-bit luma plane followed by interleaved
/// chroma pairs shared by each 2x2 block.
pub open spec fn source_pixel(frame: DecodedFrame, srow: int, scol: int) -> u32 {
    let fw = drawn_width(frame);
    let fh = drawn_height(frame);
    let buf = frame.buffer@;
    match frame.format {
        PixelFormat::Bgra8 => {
            let i = (srow * fw + scol) * 4;
            bgra_word(buf[i], buf[i + 1], buf[i + 2], buf[i + 3])
        },
        _ => {
            let uv = fw * fh + (srow / 2) * chroma_row_bytes(fw) + (scol - scol % 2);
            nv12_pixel(buf[srow * fw + scol], buf[uv], buf[uv + 1])
        },
    }
}

/// Index of row `r`, column `c` in a row-major buffer `width` pixels wide.
pub open spec fn cell(r: int, c: int, width: int) -> int {
    r * width + c
}

/// Whether drawing the frame on the target paints the bars around the image black.
pub open spec fn paints_bars(frame: DecodedFrame, target_w: u32, target_h: u32) -> bool {
    let fw = drawn_width(frame);
    let fh = drawn_height(frame);
    let r = aspect_fit(fw as u32, fh as u32, target_w, target_h);
    let one_to_one = r.2 == fw && r.3 == fh && r.0 == 0 && r.1 == 0 && target_w == fw && target_h
        == fh;
    !one_to_one && (r.2 < target_w || r.3 < target_h)
}

/// The value of viewport pixel (`r`, `c`) after the frame is drawn over `old`: inside
/// the fitted rectangle, the nearest-neighbour source pixel; elsewhere black bars,
/// or the old contents when the image covers the viewport exactly.
pub open spec fn drawn_pixel(
    frame: DecodedFrame,
    target_w: u32,
    target_h: u32,
    old: Seq<u32>,
    r: int,
    c: int,
) -> u32 {
    let fw = drawn_width(frame);
    let fh = drawn_height(frame);
    let rect = aspect_fit(fw as u32, fh as u32, target_w, target_h);
    let (x, y, w, h) = (rect.0 as int, rect.1 as int, rect.2 as int, rect.3 as int);
    if y <= r < y + h && x <= c < x + w && source_complete(frame) {
        source_pixel(frame, (r - y) * fh / h, (c - x) * fw / w)
    } else if paints_bars(frame, target_w, target_h) {
        0xFF00_0000
    } else {
        old[cell(r, c, target_w as int)]
    }
}

/// Nearest-neighbour drawing with black bars. With `(x, y, w, h)` the fitted rectangle
/// of the frame on the viewport and `fw` x `fh` the frame's drawn size, a frame whose
/// buffer holds its whole image puts source pixel `(i * fh / h, j * fw / w)` at viewport
/// cell `(y + i, x + j)` for every `i < h`, `j < w`; and when the rectangle leaves part of
/// the viewport uncovered, every cell outside it is opaque black.
pub proof fn lemma_drawn_pixel_formula(
    frame: DecodedFrame,
    target_w: u32,
    target_h: u32,
    old: Seq<u32>,
    i: int,
    j: int,
    r: int,
    c: int,
)
    requires
        source_complete(frame),
        0 <= r < target_h,
        0 <= c < target_w,
    ensures
        ({
            let fw = drawn_width(frame);
            let fh = drawn_height(frame);
            let rect = aspect_fit(fw as u32, fh as u32, target_w, target_h);
            let (x, y, w, h) = (rect.0 as int, rect.1 as int, rect.2 as int, rect.3 as int);
            &&& 0 <= i < h && 0 <= j < w ==> drawn_pixel(frame, target_w, target_h, old, y + i, x + j)
                == source_pixel(frame, i * fh / h, j * fw / w)
            &&& !(y <= r < y + h && x <= c < x + w) && (w < target_w || h < target_h)
                ==> drawn_pixel(frame, target_w, target_h, old, r, c) == 0xFF00_0000u32
        }),
{
}

/// The channels of an opaque `0xAARRGGBB` word built from 8-bit red, green and blue.
proof fn lemma_word_channels(r: int, g: int, b: int)
    requires
        0 <= r <= 255,
        0 <= g <= 255,
        0 <= b <= 255,
    ensures
        ((0xFF00_0000 + r * 65536 + g * 256 + b) as u32) / 65536 % 256 == r,
        ((0xFF00_0000 + r * 65536 + g * 256 + b) as u32) / 256 % 256 == g,
        ((0xFF00_0000 + r * 65536 + g * 256 + b) as u32) % 256 == b,
        ((0xFF00_0000 + r * 65536 + g * 256 + b) as u32) / 16777216 == 255,
{
    let v = 0xFF00_0000 + r * 65536 + g * 256 + b;
    assert(0 <= v < 0x1_0000_0000);
    assert(v / 65536 == 0xFF00 + r) by (nonlinear_arith)
        requires
            v == 0xFF00_0000 + r * 65536 + g * 256 + b,
            0 <= r <= 255,
            0 <= g <= 255,
            0 <= b <= 255,
    ;
    assert(v / 256 == 0xFF_0000 + r * 256 + g) by (nonlinear_arith)
        requires
            v == 0xFF00_0000 + r * 65536 + g * 256 + b,
            0 <= r <= 255,
            0 <= g <= 255,
            0 <= b <= 255,
    ;
    assert(v % 256 == b) by (nonlinear_arith)
        requires
            v == 0xFF00_0000 + r * 65536 + g * 256 + b,
            0 <= r <= 255,
            0 <= g <= 255,
            0 <= b <= 255,
    ;
    assert(v / 16777216 == 255) by (nonlinear_arith)
        requires
            v == 0xFF00_0000 + r * 65536 + g * 256 + b,
            0 <= r <= 255,
            0 <= g <= 255,
            0 <= b <= 255,
    ;
}

/// Drawing a complete NV12 frame: the cell at offset (`i`, `j`) inside the fitted
/// rectangle shows the nearest source pixel, converted from its luma byte and the
/// interleaved chroma pair of its 2x2 block, whose first byte is the blue difference
/// (Cb) and whose second is the red difference (Cr). So the drawn pixel is opaque, its
/// red channel follows the second chroma byte and its blue channel the first, each
/// within one of the BT.601 reference.
pub proof fn lemma_nv12_draws_cb_then_cr(
    frame: DecodedFrame,
    target_w: u32,
    target_h: u32,
    old: Seq<u32>,
    i: int,
    j: int,
)
    requires
        frame.format == PixelFormat::Nv12,
        source_complete(frame),
        0 <= i < aspect_fit(
            drawn_width(frame) as u32,
            drawn_height(frame) as u32,
            target_w,
            target_h,
        ).3,
        0 <= j < aspect_fit(
            drawn_width(frame) as u32,
            drawn_height(frame) as u32,
            target_w,
            target_h,
        ).2,
    ensures
        ({
            let fw = drawn_width(frame);
            let fh = drawn_height(frame);
            let rect = aspect_fit(fw as u32, fh as u32, target_w, target_h);
            let (x, y, w, h) = (rect.0 as int, rect.1 as int, rect.2 as int, rect.3 as int);
            let srow = i * fh / h;
            let scol = j * fw / w;
            let luma = frame.buffer@[srow * fw + scol];
            let uv = fw * fh + (srow / 2) * ((fw + 1) / 2 * 2) + (scol - scol % 2);
            let cb = frame.buffer@[uv];
            let cr = frame.buffer@[uv + 1];
            let p = drawn_pixel(frame, target_w, target_h, old, y + i, x + j);
            &&& p == nv12_pixel(luma, cb, cr)
            &&& p / 16777216 == 255
            &&& -1 <= p / 65536 % 256 - reference_red(luma, cr) <= 1
            &&& -1 <= p % 256 - reference_blue(luma, cb) <= 1
            &&& -1 <= p / 256 % 256 - reference_green(luma, cb, cr) <= 1
        }),
{
    let fw = drawn_width(frame);
    let fh = drawn_height(frame);
    let rect = aspect_fit(fw as u32, fh as u32, target_w, target_h);
    let (x, y, w, h) = (rect.0 as int, rect.1 as int, rect.2 as int, rect.3 as int);
    let srow = i * fh / h;
    let scol = j * fw / w;
    let luma = frame.buffer@[srow * fw + scol];
    let uv = fw * fh + (srow / 2) * ((fw + 1) / 2 * 2) + (scol - scol % 2);
    let cb = frame.buffer@[uv];
    let cr = frame.buffer@[uv + 1];
    assert(drawn_pixel(frame, target_w, target_h, old, y + i, x + j) == nv12_pixel(luma, cb, cr));
    lemma_nv12_within_one_of_reference(luma, cb, cr);
    let r = nv12_red(luma, cb, cr);
    let g = nv12_green(luma, cb, cr);
    let b = nv12_blue(luma, cb, cr);
    lemma_word_channels(r, g, b);
}

/// Row `r`, column `c` of a `width` x `height` grid lies inside its row-major buffer,
/// and distinct cells have distinct indices.
proof fn lemma_cell_bounds(r: int, c: int, width: int, height: int)
    requires
        0 <= r < height,
        0 <= c < width,
    ensures
        0 <= cell(r, c, width) < width * height,
        cell(r, c, width) + 1 <= (r + 1) * width,
{
    assert(0 <= r * width + c < width * height) by (nonlinear_arith)
        requires
            0 <= r < height,
            0 <= c < width,
    ;
    assert(r * width + c + 1 <= (r + 1) * width) by (nonlinear_arith)
        requires
            0 <= c < width,
    ;
}

proof fn lemma_cell_injective(r: int, c: int, r0: int, c0: int, width: int)
    requires
        0 <= c < width,
        0 <= c0 < width,
        cell(r, c, width) == cell(r0, c0, width),
    ensures
        r == r0,
        c == c0,
{
    assert(r == r0) by (nonlinear_arith)
        requires
            0 <= c < width,
            0 <= c0 < width,
            r * width + c == r0 * width + c0,
    ;
}

/// Nearest-neighbour source index: `i * src / dst` stays below `src` for `i < dst`.
proof fn lemma_scaled_index(i: int, src: int, dst: int)
    requires
        0 <= i < dst,
        src >= 1,
    ensures
        0 <= i * src / dst < src,
{
    assert(0 <= i * src / dst < src) by (nonlinear_arith)
        requires
            0 <= i < dst,
            src >= 1,
    ;
}

/// Reads the source pixel at (`srow`, `scol`) of a complete frame.
fn source_pixel_at(frame: &DecodedFrame, srow: u32, scol: u32) -> (p: u32)
    requires
        source_complete(*frame),
        srow < drawn_height(*frame),
        scol < drawn_width(*frame),
        drawn_width(*frame) * drawn_height(*frame) <= u32::MAX,
        drawn_width(*frame) * drawn_height(*frame) * 4 <= usize::MAX,
    ensures
        p == source_pixel(*frame, srow as int, scol as int),
{
    let fw: u64 = if frame.width == 0 { 1 } else { frame.width as u64 };
    let fh: u64 = if frame.height == 0 { 1 } else { frame.height as u64 };
    let ghost (gfw, gfh) = (fw as int, fh as int);
    let srow = srow as u64;
    let scol = scol as u64;
    proof {
        lemma_cell_bounds(srow as int, scol as int, gfw, gfh);
    }
    let y_idx = srow * fw + scol;
    match frame.format {
        PixelFormat::Bgra8 => {
            let i = (y_idx * 4) as usize;
            let b = frame.buffer[i] as u32;
            let g = frame.buffer[i + 1] as u32;
            let r = frame.buffer[i + 2] as u32;
            let a = frame.buffer[i + 3] as u32;
            proof {
                assert((a << 24u32) | (r << 16u32) | (g << 8u32) | b == a * 16777216 + r * 65536
                    + g * 256 + b) by (bit_vector)
                    requires
                        a <= 255,
                        r <= 255,
                        g <= 255,
                        b <= 255,
                ;
            }
            (a << 24u32) | (r << 16u32) | (g << 8u32) | b
        },
        _ => {
            let uv_width = ((fw + 1) / 2) * 2;
            let y_len = fw * fh;
            let blen = frame.buffer.len();
            let col_pair = scol - scol % 2;
            proof {
                let uvr = (srow / 2) as int;
                assert(uvr < chroma_rows(gfh));
                assert(col_pair + 1 < uv_width);
                lemma_cell_bounds(uvr, col_pair + 1, uv_width as int, chroma_rows(gfh));
                assert((uv_width as int) * chroma_rows(gfh) == chroma_rows(gfh) * (uv_width as int))
                    by (nonlinear_arith);
                assert(uv_width as int == chroma_row_bytes(gfw));
                assert(y_len + uvr * uv_width + col_pair + 1 < frame.buffer@.len());
                assert(blen as int == frame.buffer@.len());
                assert((srow / 2) * uv_width <= u64::MAX);
            }
            let uv = y_len + (srow / 2) * uv_width + col_pair;
            let mut p: u32 = 0;
            let _ = nv12_to_bgra(
                frame.buffer[y_idx as usize],
                frame.buffer[uv as usize],
                frame.buffer[(uv + 1) as usize],
                &mut p,
            );
            p
        },
    }
}

/// Viewport size a frame is drawn at: the surface size, or the frame's own size on an
/// axis where the surface reports zero.
pub fn surface_size(frame: &DecodedFrame, size: ViewportSize) -> (r: (u32, u32))
    ensures
        r.0 == (if size.width > 0 { size.width as int } else { drawn_width(*frame) }),
        r.1 == (if size.height > 0 { size.height as int } else { drawn_height(*frame) }),
        r.0 >= 1,
        r.1 >= 1,
{
    let w = if size.width > 0 {
        size.width
    } else if frame.width == 0 {
        1
    } else {
        frame.width
    };
    let h = if size.height > 0 {
        size.height
    } else if frame.height == 0 {
        1
    } else {
        frame.height
    };
    (w, h)
}

/// Progress of a blit: every viewport cell in the finished rows `[y, y + rows)` of the
/// rectangle, and in columns `[x, x + cols)` of row `y + rows`, holds its source pixel;
/// every other cell still holds `base`.
spec fn blit_progress(
    frame: DecodedFrame,
    rect: (int, int, int, int),
    tw: int,
    th: int,
    base: Seq<u32>,
    d: Seq<u32>,
    rows: int,
    cols: int,
) -> bool {
    let (x, y, w, h) = rect;
    forall|r: int, c: int|
        0 <= r < th && 0 <= c < tw ==> #[trigger] d[cell(r, c, tw)] == (if (y <= r < y + rows
            && x <= c < x + w) || (r == y + rows && x <= c < x + cols) {
            source_pixel(
                frame,
                (r - y) * drawn_height(frame) / h,
                (c - x) * drawn_width(frame) / w,
            )
        } else {
            base[cell(r, c, tw)]
        })
}

/// Copies one row of the fitted rectangle.
#[verifier::rlimit(40)]
fn blit_row(
    frame: &DecodedFrame,
    dest: &mut [u32],
    target_w: u32,
    target_h: u32,
    rect: (u32, u32, u32, u32),
    one_to_one: bool,
    row: u32,
    base: Ghost<Seq<u32>>,
)
    requires
        old(dest)@.len() >= target_w * target_h,
        target_w * target_h <= u32::MAX,
        source_complete(*frame),
        drawn_width(*frame) * drawn_height(*frame) <= u32::MAX,
        drawn_width(*frame) * drawn_height(*frame) * 4 <= usize::MAX,
        rect.2 >= 1,
        rect.3 >= 1,
        rect.0 + rect.2 <= target_w,
        rect.1 + rect.3 <= target_h,
        one_to_one ==> rect.2 == drawn_width(*frame) && rect.3 == drawn_height(*frame),
        row < rect.3,
        blit_progress(
            *frame,
            (rect.0 as int, rect.1 as int, rect.2 as int, rect.3 as int),
            target_w as int,
            target_h as int,
            base@,
            old(dest)@,
            row as int,
            0,
        ),
    ensures
        final(dest)@.len() == old(dest)@.len(),
        forall|k: int|
            target_w * target_h <= k < old(dest)@.len() ==> #[trigger] final(dest)@[k] == old(
                dest,
            )@[k],
        blit_progress(
            *frame,
            (rect.0 as int, rect.1 as int, rect.2 as int, rect.3 as int),
            target_w as int,
            target_h as int,
            base@,
            final(dest)@,
            row as int,
            rect.2 as int,
        ),
{
    let (dx, dy, dw, dh) = rect;
    let fw: u32 = if frame.width == 0 { 1 } else { frame.width };
    let fh: u32 = if frame.height == 0 { 1 } else { frame.height };
    let ghost tw = target_w as int;
    let ghost th = target_h as int;
    let ghost grect = (dx as int, dy as int, dw as int, dh as int);
    let ghost start = dest@;
    proof {
        lemma_scaled_index(row as int, fh as int, dh as int);
        if one_to_one {
            assert((row as int) * (fh as int) / (dh as int) == row) by (nonlinear_arith)
                requires
                    dh == fh,
                    fh >= 1,
            ;
        }
        lemma_mul_u32_fits(row, fh);
    }
    let src_row: u32 = if one_to_one {
        row
    } else {
        ((row as u64) * (fh as u64) / (dh as u64)) as u32
    };
    let ghost r0 = dy + row;
    proof {
        lemma_cell_bounds(r0 as int, dx as int, tw, th);
    }
    let dst_row_base = (dy + row) as usize * (target_w as usize) + dx as usize;
    let mut col: u32 = 0;
    while col < dw
        invariant
            dest@.len() == start.len(),
            start.len() >= tw * th,
            tw * th <= u32::MAX,
            tw == target_w,
            th == target_h,
            source_complete(*frame),
            fw == drawn_width(*frame),
            fh == drawn_height(*frame),
            fw * fh <= u32::MAX,
            fw * fh * 4 <= usize::MAX,
            grect == (dx as int, dy as int, dw as int, dh as int),
            dw >= 1,
            dx + dw <= target_w,
            dy + dh <= target_h,
            one_to_one ==> dw == fw && dh == fh,
            row < dh,
            r0 == dy + row,
            src_row == (row as int) * (fh as int) / (dh as int),
            src_row < fh,
            dst_row_base == cell(r0 as int, dx as int, tw),
            col <= dw,
            forall|k: int| tw * th <= k < dest@.len() ==> #[trigger] dest@[k] == start[k],
            blit_progress(*frame, grect, tw, th, base@, dest@, row as int, col as int),
        decreases dw - col,
    {
        proof {
            lemma_scaled_index(col as int, fw as int, dw as int);
            if one_to_one {
                assert((col as int) * (fw as int) / (dw as int) == col) by (nonlinear_arith)
                    requires
                        dw == fw,
                        fw >= 1,
                ;
            }
            lemma_mul_u32_fits(col, fw);
        }
        let src_col: u32 = if one_to_one {
            col
        } else {
            ((col as u64) * (fw as u64) / (dw as u64)) as u32
        };
        let px = source_pixel_at(frame, src_row, src_col);
        let ghost c0 = dx + col;
        proof {
            lemma_cell_bounds(r0 as int, c0 as int, tw, th);
        }
        let idx = dst_row_base + col as usize;
        let ghost before = dest@;
        dest[idx] = px;
        proof {
            assert forall|r: int, c: int|
                0 <= r < th && 0 <= c < tw implies #[trigger] dest@[cell(r, c, tw)] == (if (dy
                    <= r < dy + row && dx <= c < dx + dw) || (r == dy + row && dx <= c < dx + col
                    + 1) {
                    source_pixel(*frame, (r - dy) * fh / (dh as int), (c - dx) * fw / (dw as int))
                } else {
                    base@[cell(r, c, tw)]
                }) by {
                lemma_cell_bounds(r, c, tw, th);
                if cell(r, c, tw) == idx {
                    lemma_cell_injective(r, c, r0 as int, c0 as int, tw);
                } else {
                    assert(dest@[cell(r, c, tw)] == before[cell(r, c, tw)]);
                }
            }
        }
        col = col + 1;
    }
}

/// Draws `frame` into the row-major `target_w` x `target_h` pixel buffer `dest`,
/// scaled by nearest neighbour to the aspect-preserving rectangle of
/// [`compute_aspect_fit_rect`], with black bars around it. A buffer shorter than the
/// viewport is left untouched, and a frame whose buffer is too short for its size only
/// gets its bars painted.
#[verifier::rlimit(40)]
pub fn blit_frame(frame: &DecodedFrame, target_w: u32, target_h: u32, dest: &mut [u32])
    requires
        target_w >= 1,
        target_h >= 1,
        target_w * target_h <= u32::MAX,
        drawn_width(*frame) * drawn_height(*frame) <= u32::MAX,
        drawn_width(*frame) * drawn_height(*frame) * 4 <= usize::MAX,
    ensures
        final(dest)@.len() == old(dest)@.len(),
        old(dest)@.len() < target_w * target_h ==> final(dest)@ == old(dest)@,
        old(dest)@.len() >= target_w * target_h ==> forall|r: int, c: int|
            0 <= r < target_h && 0 <= c < target_w ==> #[trigger] final(dest)@[cell(
                r,
                c,
                target_w as int,
            )] == drawn_pixel(*frame, target_w, target_h, old(dest)@, r, c),
        forall|k: int|
            target_w * target_h <= k < old(dest)@.len() ==> #[trigger] final(dest)@[k] == old(
                dest,
            )@[k],
{
    let total = (target_w * target_h) as usize;
    if dest.len() < total {
        return;
    }
    let fw: u32 = if frame.width == 0 { 1 } else { frame.width };
    let fh: u32 = if frame.height == 0 { 1 } else { frame.height };
    let rect = compute_aspect_fit_rect(fw, fh, target_w, target_h);
    let (dx, dy, dw, dh) = rect;
    let one_to_one = dw == fw && dh == fh && dx == 0 && dy == 0 && target_w == fw && target_h
        == fh;
    let bars = !one_to_one && (dw < target_w || dh < target_h);
    let ghost old_dest = dest@;
    let ghost tw = target_w as int;
    let ghost th = target_h as int;
    let ghost grect = (dx as int, dy as int, dw as int, dh as int);
    if bars {
        let mut i: usize = 0;
        while i < total
            invariant
                total == tw * th,
                total <= dest@.len(),
                dest@.len() == old_dest.len(),
                i <= total,
                forall|k: int| 0 <= k < i ==> #[trigger] dest@[k] == 0xFF00_0000u32,
                forall|k: int| i <= k < dest@.len() ==> #[trigger] dest@[k] == old_dest[k],
            decreases total - i,
        {
            dest[i] = 0xFF00_0000;
            i = i + 1;
        }
    }
    let ghost base = dest@;
    assert(bars == paints_bars(*frame, target_w, target_h));
    let complete = source_is_complete(frame, fw, fh);
    if !complete {
        assert forall|r: int, c: int|
            0 <= r < target_h && 0 <= c < target_w implies #[trigger] dest@[cell(
                r,
                c,
                target_w as int,
            )] == drawn_pixel(*frame, target_w, target_h, old_dest, r, c) by {
            lemma_cell_bounds(r, c, tw, th);
        }
        return;
    }
    assert(blit_progress(*frame, grect, tw, th, base, dest@, 0, 0)) by {
        assert forall|r: int, c: int| 0 <= r < th && 0 <= c < tw implies #[trigger] dest@[cell(
            r,
            c,
            tw,
        )] == base[cell(r, c, tw)] by {}
    }
    let mut row: u32 = 0;
    while row < dh
        invariant
            total == tw * th,
            total <= dest@.len(),
            dest@.len() == old_dest.len(),
            tw == target_w,
            th == target_h,
            tw * th <= u32::MAX,
            source_complete(*frame),
            fw == drawn_width(*frame),
            fh == drawn_height(*frame),
            fw * fh <= u32::MAX,
            fw * fh * 4 <= usize::MAX,
            rect == (dx, dy, dw, dh),
            grect == (dx as int, dy as int, dw as int, dh as int),
            dw >= 1,
            dh >= 1,
            dx + dw <= target_w,
            dy + dh <= target_h,
            one_to_one ==> dw == fw && dh == fh,
            row <= dh,
            forall|k: int| total <= k < dest@.len() ==> #[trigger] dest@[k] == old_dest[k],
            blit_progress(*frame, grect, tw, th, base, dest@, row as int, 0),
        decreases dh - row,
    {
        blit_row(frame, dest, target_w, target_h, rect, one_to_one, row, Ghost(base));
        proof {
            let d = dest@;
            assert forall|r: int, c: int| 0 <= r < th && 0 <= c < tw implies #[trigger] d[cell(
                r,
                c,
                tw,
            )] == (if (dy <= r < dy + (row + 1) && dx <= c < dx + dw) || (r == dy + (row + 1)
                && dx <= c < dx + 0) {
                source_pixel(*frame, (r - dy) * fh / (dh as int), (c - dx) * fw / (dw as int))
            } else {
                base[cell(r, c, tw)]
            }) by {
                assert(blit_progress(*frame, grect, tw, th, base, d, row as int, dw as int));
            }
        }
        row = row + 1;
    }
    proof {
        assert forall|r: int, c: int|
            0 <= r < target_h && 0 <= c < target_w implies #[trigger] dest@[cell(
                r,
                c,
                target_w as int,
            )] == drawn_pixel(*frame, target_w, target_h, old_dest, r, c) by {
            lemma_cell_bounds(r, c, tw, th);
            assert(blit_progress(*frame, grect, tw, th, base, dest@, dh as int, 0));
        }
    }
}

/// Whether `frame`'s buffer is long enough for a `fw` x `fh` image of its format.
fn source_is_complete(frame: &DecodedFrame, fw: u32, fh: u32) -> (b: bool)
    requires
        fw == drawn_width(*frame),
        fh == drawn_height(*frame),
        fw * fh <= u32::MAX,
    ensures
        b == source_complete(*frame),
{
    match frame.format {
        PixelFormat::Bgra8 => frame.buffer.len() as u64 >= (fw as u64) * (fh as u64) * 4,
        _ => {
            let uv_width = ((fw as u64 + 1) / 2) * 2;
            let uv_rows = (fh as u64 + 1) / 2;
            proof {
                assert(uv_rows * uv_width <= (fh as int + 1) * (fw as int + 1)) by (nonlinear_arith)
                    requires
                        uv_rows == (fh + 1) / 2,
                        uv_width == ((fw + 1) / 2) * 2,
                        fw >= 1,
                        fh >= 1,
                ;
                assert((fh as int + 1) * (fw as int + 1) == fw * fh + fw + fh + 1) by (nonlinear_arith);
            }
            frame.buffer.len() as u64 >= (fw as u64) * (fh as u64) + uv_rows * uv_width
        },
    }
}

} // verus!
