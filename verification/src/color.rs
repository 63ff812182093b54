//! Colour conversion and luminance glyphs for a single sampled pixel.
//!
//! The colour channels follow the usual conversion from luma and chroma,
//! `R = Y + 1.402 (V - 128)`, `G = Y - 0.344136 (U - 128) - 0.714136 (V - 128)`
//! and `B = Y + 1.772 (U - 128)`, each clamped to the 8-bit range. They are
//! computed in integers, scaled by the power of ten that makes every
//! coefficient whole, so that each channel is the whole part of the exact
//! value and no rounding of intermediate results can move it.

use vstd::prelude::*;

verus! {

/// The glyphs from darkest to brightest.
pub open spec fn glyph_ramp() -> Seq<char> {
    seq![' ', '.', ':', '-', '=', '+', '*', '#', '%', '@']
}

/// Smallest luminance of bucket `i`.
pub open spec fn bucket_low(i: int) -> int {
    if i == 0 {
        0
    } else {
        25 * i + 1
    }
}

/// Largest luminance of bucket `i`.
pub open spec fn bucket_high(i: int) -> int {
    if i == 9 {
        255
    } else {
        25 * i + 25
    }
}

/// The bucket that a luminance falls in.
pub open spec fn bucket_of(luminance: u8) -> int {
    if luminance == 0 {
        0
    } else if luminance > 225 {
        9
    } else {
        (luminance - 1) / 25
    }
}

/// The glyph that stands for a luminance.
pub open spec fn glyph_of(luminance: u8) -> char {
    glyph_ramp()[bucket_of(luminance)]
}

/// The buckets partition the luminance range: a luminance lies between the
/// bounds of bucket `i` exactly when `i` is its bucket, so every luminance
/// has one bucket and one glyph.
pub proof fn lemma_buckets_partition(luminance: u8, i: int)
    requires
        0 <= i < 10,
    ensures
        0 <= bucket_of(luminance) < 10,
        (bucket_low(i) <= luminance <= bucket_high(i)) <==> i == bucket_of(luminance),
{
}

/// No glyph stands for two buckets.
pub proof fn lemma_glyphs_distinct(i: int, j: int)
    requires
        0 <= i < 10,
        0 <= j < 10,
        i != j,
    ensures
        glyph_ramp()[i] != glyph_ramp()[j],
{
}

/// Maps a luminance to its glyph.
pub fn get_greyscale_representation(luminance: u8) -> (glyph: char)
    ensures
        glyph == glyph_of(luminance),
{
    match luminance {
        0..=25 => ' ',
        26..=50 => '.',
        51..=75 => ':',
        76..=100 => '-',
        101..=125 => '=',
        126..=150 => '+',
        151..=175 => '*',
        176..=200 => '#',
        201..=225 => '%',
        226..=255 => '@',
    }
}

/// A value limited to what one colour channel can hold.
pub open spec fn clamp_channel(x: int) -> int {
    if x < 0 {
        0
    } else if x > 255 {
        255
    } else {
        x
    }
}

/// Red in thousandths, before clamping: `1000 * (Y + 1.402 (V - 128))`.
pub open spec fn red_milli(y: u8, v: u8) -> int {
    1000 * y + 1402 * (v - 128)
}

/// Green in millionths, before clamping:
/// `1000000 * (Y - 0.344136 (U - 128) - 0.714136 (V - 128))`.
pub open spec fn green_micro(y: u8, u: u8, v: u8) -> int {
    1000000 * y - 344136 * (u - 128) - 714136 * (v - 128)
}

/// Blue in thousandths, before clamping: `1000 * (Y + 1.772 (U - 128))`.
pub open spec fn blue_milli(y: u8, u: u8) -> int {
    1000 * y + 1772 * (u - 128)
}

/// The red channel: the whole part of the exact value, clamped.
pub open spec fn red_of(y: u8, v: u8) -> int {
    clamp_channel(red_milli(y, v) / 1000)
}

/// The green channel: the whole part of the exact value, clamped.
pub open spec fn green_of(y: u8, u: u8, v: u8) -> int {
    clamp_channel(green_micro(y, u, v) / 1000000)
}

/// The blue channel: the whole part of the exact value, clamped.
pub open spec fn blue_of(y: u8, u: u8) -> int {
    clamp_channel(blue_milli(y, u) / 1000)
}

/// Every channel of every input lies in the 8-bit range, and a channel whose
/// exact value leaves that range sits on the nearer bound.
pub proof fn lemma_channels_in_range(y: u8, u: u8, v: u8)
    ensures
        0 <= red_of(y, v) <= 255,
        0 <= green_of(y, u, v) <= 255,
        0 <= blue_of(y, u) <= 255,
        red_milli(y, v) < 0 ==> red_of(y, v) == 0,
        red_milli(y, v) >= 255000 ==> red_of(y, v) == 255,
        green_micro(y, u, v) < 0 ==> green_of(y, u, v) == 0,
        green_micro(y, u, v) >= 255000000 ==> green_of(y, u, v) == 255,
        blue_milli(y, u) < 0 ==> blue_of(y, u) == 0,
        blue_milli(y, u) >= 255000 ==> blue_of(y, u) == 255,
{
}

/// A neutral pixel keeps its luma in all three channels.
pub proof fn lemma_neutral_chroma_is_grey(y: u8)
    ensures
        red_of(y, 128) == y,
        green_of(y, 128, 128) == y,
        blue_of(y, 128) == y,
{
}

/// Divides a scaled channel value by its scale and clamps the quotient.
fn clamp_scaled(scaled: i64, scale: i64) -> (channel: u8)
    requires
        scale == 1000 || scale == 1000000,
        -1000000000 <= scaled <= 1000000000,
    ensures
        channel == clamp_channel(scaled as int / scale as int),
{
    if scaled < 0 {
        0
    } else {
        let whole: u64 = (scaled as u64) / (scale as u64);
        if whole > 255 {
            255
        } else {
            whole as u8
        }
    }
}

/// Converts one luma sample and its chroma pair to red, green and blue.
pub fn convert(y: u8, u: u8, v: u8) -> (rgb: (u8, u8, u8))
    ensures
        rgb.0 == red_of(y, v),
        rgb.1 == green_of(y, u, v),
        rgb.2 == blue_of(y, u),
{
    let luma: i64 = y as i64;
    let cb: i64 = u as i64 - 128;
    let cr: i64 = v as i64 - 128;
    let r = clamp_scaled(1000 * luma + 1402 * cr, 1000);
    let g = clamp_scaled(1000000 * luma - 344136 * cb - 714136 * cr, 1000000);
    let b = clamp_scaled(1000 * luma + 1772 * cb, 1000);
    (r, g, b)
}

} // verus!
