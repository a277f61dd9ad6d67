//! The packed-pixel codec and the point operations built on it.
//!
//! A pixel is four channel values of 8 bits each in one 32-bit word. A word is
//! described by its four bytes, from the highest (`byte3`) to the lowest
//! (`byte0`). In storage order they hold red, green, blue and alpha; in display
//! order they hold alpha, red, green and blue.
//!
//! A point operation maps every pixel of an image on its own: it unpacks the
//! pixel, changes red, green and blue, and packs the result with the alpha it
//! found.

use vstd::prelude::*;

verus! {

/// The layout of the raw bytes an image is built from.
#[derive(Clone, Copy, Debug)]
pub enum ColorType {
    /// Three bytes per pixel: red, green, blue. The pixel is fully opaque.
    RGB,
    /// Four bytes per pixel: red, green, blue, alpha.
    RGBA,
}

impl ColorType {
    /// The number of raw bytes that make one pixel.
    pub open spec fn bytes_per_pixel(self) -> int {
        match self {
            ColorType::RGB => 3,
            ColorType::RGBA => 4,
        }
    }
}

/// The word whose bytes, from the highest to the lowest, are the low 8 bits of
/// `b3`, `b2`, `b1` and `b0`.
pub open spec fn packed(b3: int, b2: int, b1: int, b0: int) -> u32 {
    ((b3 % 256) * 0x100_0000 + (b2 % 256) * 0x1_0000 + (b1 % 256) * 0x100 + b0 % 256) as u32
}

/// Bits 31 to 24 of a word.
pub open spec fn byte3(w: u32) -> int {
    w as int / 0x100_0000
}

/// Bits 23 to 16 of a word.
pub open spec fn byte2(w: u32) -> int {
    (w as int / 0x1_0000) % 256
}

/// Bits 15 to 8 of a word.
pub open spec fn byte1(w: u32) -> int {
    (w as int / 0x100) % 256
}

/// Bits 7 to 0 of a word.
pub open spec fn byte0(w: u32) -> int {
    w as int % 256
}

/// The red channel of a pixel in storage order.
pub open spec fn red(px: u32) -> int {
    byte3(px)
}

/// The green channel of a pixel in storage order.
pub open spec fn green(px: u32) -> int {
    byte2(px)
}

/// The blue channel of a pixel in storage order.
pub open spec fn blue(px: u32) -> int {
    byte1(px)
}

/// The alpha channel of a pixel in storage order.
pub open spec fn alpha(px: u32) -> int {
    byte0(px)
}

/// The same four channels as `px`, moved from storage order to display order.
pub open spec fn display_order(px: u32) -> u32 {
    packed(alpha(px), red(px), green(px), blue(px))
}

/// Constructs a single u32 value from R,G,B,A u32 values.
///
/// Only the low 8 bits of each channel are packed, so a value that left the
/// range 0..=255 during arithmetic cannot spill into a neighbouring channel.
#[inline(always)]
pub fn pack_u32(r: u32, g: u32, b: u32, a: u32) -> (px: u32)
    ensures
        px == packed(r as int, g as int, b as int, a as int),
{
    let mut px: u32 = 0;
    px |= (r & 0xFF) << 24;
    px |= (g & 0xFF) << 16;
    px |= (b & 0xFF) << 8;
    px |= a & 0xFF;
    assert(px == (r % 256) * 0x100_0000 + (g % 256) * 0x1_0000 + (b % 256) * 0x100 + a % 256)
        by (bit_vector)
        requires
            px == (((0u32 | (r & 0xFF) << 24) | (g & 0xFF) << 16) | (b & 0xFF) << 8) | (a & 0xFF),
    ;
    px
}

/// Deconstructs R,G,B,A u32 values from a single u32 value.
#[inline(always)]
pub fn unpack_u32(px: u32) -> (rgba: (u32, u32, u32, u32))
    ensures
        rgba.0 == red(px),
        rgba.1 == green(px),
        rgba.2 == blue(px),
        rgba.3 == alpha(px),
{
    let r: u32 = px >> 24;
    let g: u32 = px >> 16 & 0xFF;
    let b: u32 = px >> 8 & 0x0FF;
    let a: u32 = px & 0x00FF;
    assert(px >> 24 == px / 0x100_0000) by (bit_vector);
    assert(px >> 16 & 0xFF == (px / 0x1_0000) % 256) by (bit_vector);
    assert(px >> 8 & 0xFF == (px / 0x100) % 256) by (bit_vector);
    assert(px & 0xFF == px % 256) by (bit_vector);
    (r, g, b, a)
}

/// Constructs a single u32 value from R,G,B,A u8 values.
#[inline(always)]
pub fn pack_u8(r: u8, g: u8, b: u8, a: u8) -> (px: u32)
    ensures
        px == packed(r as int, g as int, b as int, a as int),
{
    pack_u32(r as u32, g as u32, b as u32, a as u32)
}

/// Deconstructs R,G,B,A u8 values from a single u32 value.
#[inline(always)]
pub fn unpack_u8(px: u32) -> (rgba: (u8, u8, u8, u8))
    ensures
        rgba.0 == red(px),
        rgba.1 == green(px),
        rgba.2 == blue(px),
        rgba.3 == alpha(px),
{
    let (r, g, b, a) = unpack_u32(px);
    (r as u8, g as u8, b as u8, a as u8)
}

/// Deconstructs R,G,B,A usize values from a single u32 value.
#[inline(always)]
pub fn unpack_usize(px: u32) -> (rgba: (usize, usize, usize, usize))
    ensures
        rgba.0 == red(px),
        rgba.1 == green(px),
        rgba.2 == blue(px),
        rgba.3 == alpha(px),
{
    let (r, g, b, a) = unpack_u32(px);
    (r as usize, g as usize, b as usize, a as usize)
}

/// Converts a single u32 value in RGBA format into a single u32 value in ARGB format.
#[inline(always)]
pub fn rgba_to_argb(px: u32) -> (argb: u32)
    ensures
        argb == display_order(px),
{
    let (r, g, b, a) = unpack_u32(px);
    pack_u32(a, r, g, b)
}

/// Deconstructs A,R,G,B u32 values from a single u32 value in ARGB format.
#[inline(always)]
pub fn unpack_argb_u32(px: u32) -> (argb: (u32, u32, u32, u32))
    ensures
        argb.0 == byte3(px),
        argb.1 == byte2(px),
        argb.2 == byte1(px),
        argb.3 == byte0(px),
{
    unpack_u32(px)
}

/// Each byte of a packed word is the low 8 bits of the value it was packed from.
pub proof fn lemma_packed_bytes(b3: int, b2: int, b1: int, b0: int)
    ensures
        byte3(packed(b3, b2, b1, b0)) == b3 % 256,
        byte2(packed(b3, b2, b1, b0)) == b2 % 256,
        byte1(packed(b3, b2, b1, b0)) == b1 % 256,
        byte0(packed(b3, b2, b1, b0)) == b0 % 256,
{
    let x3 = (b3 % 256) as u32;
    let x2 = (b2 % 256) as u32;
    let x1 = (b1 % 256) as u32;
    let x0 = (b0 % 256) as u32;
    let w = packed(b3, b2, b1, b0);
    assert(w / 0x100_0000 == x3 && (w / 0x1_0000) % 256 == x2 && (w / 0x100) % 256 == x1 && w
        % 256 == x0) by (bit_vector)
        requires
            x3 < 256,
            x2 < 256,
            x1 < 256,
            x0 < 256,
            w == x3 * 0x100_0000 + x2 * 0x1_0000 + x1 * 0x100 + x0,
    ;
}

/// Round trip in storage order: unpacking a pixel packed from four channel
/// values in 0..=255 gives back exactly those values.
pub proof fn lemma_unpack_pack(r: int, g: int, b: int, a: int)
    requires
        0 <= r <= 255,
        0 <= g <= 255,
        0 <= b <= 255,
        0 <= a <= 255,
    ensures
        red(packed(r, g, b, a)) == r,
        green(packed(r, g, b, a)) == g,
        blue(packed(r, g, b, a)) == b,
        alpha(packed(r, g, b, a)) == a,
{
    lemma_packed_bytes(r, g, b, a);
}

/// Packing the four channels of a pixel gives the pixel back.
pub proof fn lemma_pack_unpack(px: u32)
    ensures
        packed(red(px), green(px), blue(px), alpha(px)) == px,
{
}

/// Every channel of a pixel lies in 0..=255.
pub proof fn lemma_channel_range(px: u32)
    ensures
        0 <= red(px) <= 255,
        0 <= green(px) <= 255,
        0 <= blue(px) <= 255,
        0 <= alpha(px) <= 255,
{
}

/// Moving a pixel to display order changes no channel value, only its place:
/// read from the highest byte down, the result holds alpha, red, green, blue.
pub proof fn lemma_display_order(px: u32)
    ensures
        byte3(display_order(px)) == alpha(px),
        byte2(display_order(px)) == red(px),
        byte1(display_order(px)) == green(px),
        byte0(display_order(px)) == blue(px),
{
    lemma_channel_range(px);
    lemma_packed_bytes(alpha(px), red(px), green(px), blue(px));
}

/// The pixel that grayscale conversion makes of `px`: red, green and blue each
/// become the floor of their mean, alpha stays.
pub open spec fn grayscale_pixel(px: u32) -> u32 {
    let l = (red(px) + green(px) + blue(px)) / 3;
    packed(l, l, l, alpha(px))
}

/// The pixel that inversion makes of `px`: red, green and blue each become
/// 255 minus their value, alpha stays.
pub open spec fn inverted_pixel(px: u32) -> u32 {
    packed(255 - red(px), 255 - green(px), 255 - blue(px), alpha(px))
}

/// What thresholding makes of one channel value: 255 if it is strictly greater
/// than `limit`, else 0.
pub open spec fn threshold_channel(value: int, limit: int) -> int {
    if value > limit {
        255
    } else {
        0
    }
}

/// The pixel that thresholding at `limit` makes of `px`: red, green and blue
/// are thresholded one by one, alpha stays.
pub open spec fn threshold_pixel(px: u32, limit: u32) -> u32 {
    packed(
        threshold_channel(red(px), limit as int),
        threshold_channel(green(px), limit as int),
        threshold_channel(blue(px), limit as int),
        alpha(px),
    )
}

/// One of the three whole-image transforms. Each maps every pixel on its own.
#[derive(Clone, Copy, Debug)]
pub enum PointOperation {
    /// Replace red, green and blue by the floor of their mean.
    Grayscale,
    /// Replace red, green and blue by 255 minus their value.
    Invert,
    /// Replace each of red, green and blue by 255 if it is strictly greater
    /// than the limit, else by 0.
    Threshold(u32),
}

impl PointOperation {
    /// The pixel that this operation makes of `px`.
    pub open spec fn on_pixel(self, px: u32) -> u32 {
        match self {
            PointOperation::Grayscale => grayscale_pixel(px),
            PointOperation::Invert => inverted_pixel(px),
            PointOperation::Threshold(limit) => threshold_pixel(px, limit),
        }
    }

    /// The image that this operation makes of the pixels `pixels`.
    pub open spec fn on_pixels(self, pixels: Seq<u32>) -> Seq<u32> {
        Seq::new(pixels.len(), |i: int| self.on_pixel(pixels[i]))
    }

    /// Applies the operation to one pixel.
    pub fn apply_to_pixel(self, px: u32) -> (out: u32)
        ensures
            out == self.on_pixel(px),
    {
        let (r, g, b, a) = unpack_u32(px);
        match self {
            PointOperation::Grayscale => {
                let l = (r + g + b) / 3u32;
                pack_u32(l, l, l, a)
            },
            PointOperation::Invert => pack_u32(255u32 - r, 255u32 - g, 255u32 - b, a),
            PointOperation::Threshold(limit) => {
                let r = if r > limit { 255u32 } else { 0u32 };
                let g = if g > limit { 255u32 } else { 0u32 };
                let b = if b > limit { 255u32 } else { 0u32 };
                pack_u32(r, g, b, a)
            },
        }
    }
}

/// The three point operations on an image whose pixels are packed in storage
/// order. Each transforms every pixel in place and on its own.
pub trait PointOperations: View<V = Seq<u32>> {
    /// Converts the image into a grayscale image: every colour channel of a
    /// pixel becomes the floor of the mean of its red, green and blue.
    fn grayscale(&mut self)
        ensures
            final(self)@ == PointOperation::Grayscale.on_pixels(old(self)@),
    ;

    /// Inverts the red, green and blue channel of every pixel.
    fn invert(&mut self)
        ensures
            final(self)@ == PointOperation::Invert.on_pixels(old(self)@),
    ;

    /// Thresholding: every colour channel strictly greater than `limit` is set
    /// to white (255), every other one to black (0).
    fn trashold(&mut self, limit: u32)
        ensures
            final(self)@ == PointOperation::Threshold(limit).on_pixels(old(self)@),
    ;
}

/// No point operation alters the alpha channel of a pixel.
pub proof fn lemma_point_operation_keeps_alpha(op: PointOperation, px: u32)
    ensures
        alpha(op.on_pixel(px)) == alpha(px),
{
    lemma_channel_range(px);
    match op {
        PointOperation::Grayscale => {
            let l = (red(px) + green(px) + blue(px)) / 3;
            lemma_packed_bytes(l, l, l, alpha(px));
        },
        PointOperation::Invert => {
            lemma_packed_bytes(255 - red(px), 255 - green(px), 255 - blue(px), alpha(px));
        },
        PointOperation::Threshold(limit) => {
            lemma_packed_bytes(
                threshold_channel(red(px), limit as int),
                threshold_channel(green(px), limit as int),
                threshold_channel(blue(px), limit as int),
                alpha(px),
            );
        },
    }
}

/// Inverting a pixel twice gives the pixel back.
pub proof fn lemma_invert_twice(px: u32)
    ensures
        inverted_pixel(inverted_pixel(px)) == px,
{
    lemma_channel_range(px);
    lemma_packed_bytes(255 - red(px), 255 - green(px), 255 - blue(px), alpha(px));
    lemma_pack_unpack(px);
}

} // verus!
