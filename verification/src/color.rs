//! Packed RGBA color helpers.
//!
//! A color is a `u32` holding the four 8-bit channels in RGBA order, the red
//! channel in the highest byte.

use vstd::prelude::*;

verus! {

/// A color split into `(red, green, blue, alpha)` channel values.
pub type Rgba = (u8, u8, u8, u8);

/// The red channel of a packed color.
pub open spec fn spec_red(color: u32) -> u32 {
    color >> 24
}

/// The green channel of a packed color.
pub open spec fn spec_green(color: u32) -> u32 {
    (color >> 16) & 0xFF
}

/// The blue channel of a packed color.
pub open spec fn spec_blue(color: u32) -> u32 {
    (color >> 8) & 0xFF
}

/// The alpha channel of a packed color.
pub open spec fn spec_alpha(color: u32) -> u32 {
    color & 0xFF
}

/// The packed color with the given channel values.
pub open spec fn spec_concat(r: u32, g: u32, b: u32, a: u32) -> u32 {
    (r << 24) | (g << 16) | (b << 8) | a
}

/// Splits a packed color into its `(red, green, blue, alpha)` channels.
pub fn split_color(color: u32) -> (r: Rgba)
    ensures
        r.0 == spec_red(color),
        r.1 == spec_green(color),
        r.2 == spec_blue(color),
        r.3 == spec_alpha(color),
{
    proof {
        assert(color >> 24 < 256 && (color >> 16) & 0xFF < 256 && (color >> 8) & 0xFF < 256
            && color & 0xFF < 256) by (bit_vector);
    }
    let r = (color >> 24) as u8;
    let g = ((color >> 16) & 0xFF) as u8;
    let b = ((color >> 8) & 0xFF) as u8;
    let a = (color & 0xFF) as u8;
    (r, g, b, a)
}

/// Packs four channel values into one color.
pub fn concat_color(r: u8, g: u8, b: u8, a: u8) -> (c: u32)
    ensures
        c == spec_concat(r as u32, g as u32, b as u32, a as u32),
{
    (r as u32) << 24 | (g as u32) << 16 | (b as u32) << 8 | a as u32
}

/// Packing the split channels of a color gives the color back.
pub proof fn lemma_color_round_trip(color: u32)
    ensures
        spec_concat(spec_red(color), spec_green(color), spec_blue(color), spec_alpha(color))
            == color,
{
    assert(((color >> 24) << 24) | (((color >> 16) & 0xFF) << 16) | (((color >> 8) & 0xFF) << 8)
        | (color & 0xFF) == color) by (bit_vector);
}

/// A channel scaled by an alpha value: `floor(channel * alpha / 255)`.
pub open spec fn spec_scaled(channel: u32, alpha: u32) -> u32 {
    ((channel * alpha) / 255) as u32
}

/// Multiplies each color channel by the alpha channel, leaving alpha itself
/// unchanged: straight alpha to premultiplied alpha.
pub fn premultiply_color(color: u32) -> (c: u32)
    ensures
        c == spec_concat(
            spec_scaled(spec_red(color), spec_alpha(color)),
            spec_scaled(spec_green(color), spec_alpha(color)),
            spec_scaled(spec_blue(color), spec_alpha(color)),
            spec_alpha(color),
        ),
{
    let (r, g, b, a) = split_color(color);
    let a32 = a as u32;
    proof {
        assert((r as u32) * a32 <= 255 * 255) by (nonlinear_arith)
            requires r as u32 <= 255 && a32 <= 255;
        assert((g as u32) * a32 <= 255 * 255) by (nonlinear_arith)
            requires g as u32 <= 255 && a32 <= 255;
        assert((b as u32) * a32 <= 255 * 255) by (nonlinear_arith)
            requires b as u32 <= 255 && a32 <= 255;
    }
    let r2 = (r as u32) * a32 / 255;
    let g2 = (g as u32) * a32 / 255;
    let b2 = (b as u32) * a32 / 255;
    concat_color(r2 as u8, g2 as u8, b2 as u8, a)
}

/// For 8-bit operands, the shift-based formula below equals `a * b / 255`
/// rounded to the nearest integer (see [`lemma_muldiv255_rounds`]).
pub fn muldiv255(a: u32, b: u32) -> (r: u32)
    requires
        a * b <= 0xFF00_0000,
    ensures
        r == ((a * b + 128) + (a * b + 128) / 256) / 256,
{
    let tmp = a * b + 128;
    proof {
        assert(tmp >> 8 == tmp / 256) by (bit_vector);
        assert(tmp / 256 <= tmp);
    }
    let s = tmp + (tmp >> 8);
    proof {
        assert(s >> 8 == s / 256) by (bit_vector);
        assert((tmp + tmp / 256) / 256 == ((a * b + 128) + (a * b + 128) / 256) / 256);
    }
    s >> 8
}

/// For channel-sized operands the shift formula computes the rounded
/// quotient: `(t + 128 + (t + 128) / 256) / 256 == (2 t + 255) / 510` for
/// `t = a * b`, ties rounding up.
pub proof fn lemma_muldiv255_rounds(a: int, b: int)
    requires
        0 <= a <= 255,
        0 <= b <= 255,
    ensures
        ((a * b + 128) + (a * b + 128) / 256) / 256 == (2 * (a * b) + 255) / 510,
{
    let t = a * b;
    assert(0 <= t <= 65025) by (nonlinear_arith)
        requires
            t == a * b,
            0 <= a <= 255,
            0 <= b <= 255,
    ;
    assert(((t + 128) + (t + 128) / 256) / 256 == (2 * t + 255) / 510) by (nonlinear_arith)
        requires 0 <= t <= 65025;
}

} // verus!

