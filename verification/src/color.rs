//! The 8-bit RGBA texel type shared by every render target, and the blending
//! arithmetic of the passes: saturating additive accumulation (lighting),
//! source-over compositing (G-buffer draws) and linear mixing (reflection and
//! shadow blends).

use vstd::prelude::*;

verus! {

/// An 8-bit RGBA color; one texel of a render target.
#[derive(Clone, Copy, PartialEq, Eq, Structural, Debug)]
pub struct Color {
    pub r: u8,
    pub g: u8,
    pub b: u8,
    pub a: u8,
}

/// The cleared value of every render target: transparent black.
pub open spec fn transparent_black() -> Color {
    Color { r: 0, g: 0, b: 0, a: 0 }
}

impl Color {
    /// The cleared value of every render target: transparent black.
    pub fn transparent() -> (c: Color)
        ensures
            c == transparent_black(),
    {
        Color { r: 0, g: 0, b: 0, a: 0 }
    }
}

/// What saturating channel addition returns: the sum, capped at 255.
pub open spec fn sat_add_spec(a: int, b: int) -> int {
    if a + b > 255 {
        255
    } else {
        a + b
    }
}

/// Saturating addition of two color channels.
pub fn sat_add_u8(a: u8, b: u8) -> (r: u8)
    ensures
        r as int == sat_add_spec(a as int, b as int),
{
    let s: u32 = a as u32 + b as u32;
    if s > 255 {
        255
    } else {
        s as u8
    }
}

/// Channel-wise saturating addition: the additive blending of the lighting pass.
pub open spec fn add_color_spec(c: Color, d: Color) -> Color {
    Color {
        r: sat_add_spec(c.r as int, d.r as int) as u8,
        g: sat_add_spec(c.g as int, d.g as int) as u8,
        b: sat_add_spec(c.b as int, d.b as int) as u8,
        a: sat_add_spec(c.a as int, d.a as int) as u8,
    }
}

/// Channel-wise saturating addition of two colors.
pub fn add_colors(c: Color, d: Color) -> (r: Color)
    ensures
        r == add_color_spec(c, d),
{
    Color {
        r: sat_add_u8(c.r, d.r),
        g: sat_add_u8(c.g, d.g),
        b: sat_add_u8(c.b, d.b),
        a: sat_add_u8(c.a, d.a),
    }
}

/// Saturating accumulation of two increments on top of a base commutes:
/// the order in which the two are added does not change the result.
pub proof fn lemma_sat_add_exchange(x: int, a: int, b: int)
    requires
        0 <= x,
        0 <= a,
        0 <= b,
    ensures
        sat_add_spec(sat_add_spec(x, a), b) == sat_add_spec(sat_add_spec(x, b), a),
{
}

/// Color-level form of `lemma_sat_add_exchange`: adding two light
/// contributions onto a base color in either order gives the same color.
pub proof fn lemma_add_color_exchange(x: Color, a: Color, b: Color)
    ensures
        add_color_spec(add_color_spec(x, a), b) == add_color_spec(add_color_spec(x, b), a),
{
    lemma_sat_add_exchange(x.r as int, a.r as int, b.r as int);
    lemma_sat_add_exchange(x.g as int, a.g as int, b.g as int);
    lemma_sat_add_exchange(x.b as int, a.b as int, b.b as int);
    lemma_sat_add_exchange(x.a as int, a.a as int, b.a as int);
}

/// One channel of source-over compositing: `src` weighted by its alpha,
/// `dst` by the remainder.
pub open spec fn over_channel_spec(s: int, d: int, sa: int) -> int {
    (s * sa + d * (255 - sa)) / 255
}

/// The alpha of source-over compositing.
pub open spec fn over_alpha_spec(sa: int, da: int) -> int {
    sa + da * (255 - sa) / 255
}

/// Standard source-over alpha compositing of `src` onto `dst`, as the
/// G-buffer draws blend later geometry over earlier geometry.
pub open spec fn blend_over_spec(src: Color, dst: Color) -> Color {
    Color {
        r: over_channel_spec(src.r as int, dst.r as int, src.a as int) as u8,
        g: over_channel_spec(src.g as int, dst.g as int, src.a as int) as u8,
        b: over_channel_spec(src.b as int, dst.b as int, src.a as int) as u8,
        a: over_alpha_spec(src.a as int, dst.a as int) as u8,
    }
}

/// A weighted sum of channels in 0..=255 stays in 0..=255.
proof fn lemma_over_channel_bounds(s: int, d: int, sa: int)
    by (nonlinear_arith)
    requires
        0 <= s <= 255,
        0 <= d <= 255,
        0 <= sa <= 255,
    ensures
        0 <= over_channel_spec(s, d, sa) <= 255,
        0 <= over_alpha_spec(sa, d) <= 255,
{
}

/// Source-over alpha compositing of `src` onto `dst`.
pub fn blend_over(src: Color, dst: Color) -> (r: Color)
    ensures
        r == blend_over_spec(src, dst),
{
    proof {
        lemma_over_channel_bounds(src.r as int, dst.r as int, src.a as int);
        lemma_over_channel_bounds(src.g as int, dst.g as int, src.a as int);
        lemma_over_channel_bounds(src.b as int, dst.b as int, src.a as int);
        lemma_over_channel_bounds(src.a as int, dst.a as int, src.a as int);
    }
    let sa: u32 = src.a as u32;
    let r: u32 = (src.r as u32 * sa + dst.r as u32 * (255 - sa)) / 255;
    let g: u32 = (src.g as u32 * sa + dst.g as u32 * (255 - sa)) / 255;
    let b: u32 = (src.b as u32 * sa + dst.b as u32 * (255 - sa)) / 255;
    let a: u32 = sa + dst.a as u32 * (255 - sa) / 255;
    Color { r: r as u8, g: g as u8, b: b as u8, a: a as u8 }
}

/// One channel of a linear mix: weight `t` in 0..=255 leans toward `y`,
/// the remainder toward `x`.
pub open spec fn mix_channel_spec(x: int, y: int, t: int) -> int {
    (x * (255 - t) + y * t) / 255
}

/// Linear mix of two colors by a weight `t` in 0..=255: at `t == 0` the
/// result is exactly `x`, at `t == 255` exactly `y`.
pub open spec fn mix_color_spec(x: Color, y: Color, t: int) -> Color {
    Color {
        r: mix_channel_spec(x.r as int, y.r as int, t) as u8,
        g: mix_channel_spec(x.g as int, y.g as int, t) as u8,
        b: mix_channel_spec(x.b as int, y.b as int, t) as u8,
        a: mix_channel_spec(x.a as int, y.a as int, t) as u8,
    }
}

/// A linear mix of channels in 0..=255 stays in 0..=255.
proof fn lemma_mix_channel_bounds(x: int, y: int, t: int)
    by (nonlinear_arith)
    requires
        0 <= x <= 255,
        0 <= y <= 255,
        0 <= t <= 255,
    ensures
        0 <= mix_channel_spec(x, y, t) <= 255,
{
}

/// Linear mix of two colors by a weight in 0..=255.
pub fn mix_colors(x: Color, y: Color, t: u8) -> (r: Color)
    ensures
        r == mix_color_spec(x, y, t as int),
{
    proof {
        lemma_mix_channel_bounds(x.r as int, y.r as int, t as int);
        lemma_mix_channel_bounds(x.g as int, y.g as int, t as int);
        lemma_mix_channel_bounds(x.b as int, y.b as int, t as int);
        lemma_mix_channel_bounds(x.a as int, y.a as int, t as int);
    }
    let tw: u32 = t as u32;
    let r: u32 = (x.r as u32 * (255 - tw) + y.r as u32 * tw) / 255;
    let g: u32 = (x.g as u32 * (255 - tw) + y.g as u32 * tw) / 255;
    let b: u32 = (x.b as u32 * (255 - tw) + y.b as u32 * tw) / 255;
    let a: u32 = (x.a as u32 * (255 - tw) + y.a as u32 * tw) / 255;
    Color { r: r as u8, g: g as u8, b: b as u8, a: a as u8 }
}

/// At weight 0 a linear channel mix returns the first operand exactly.
pub proof fn lemma_mix_channel_zero(x: int, y: int)
    by (nonlinear_arith)
    requires
        0 <= x <= 255,
        0 <= y <= 255,
    ensures
        mix_channel_spec(x, y, 0) == x,
{
}

/// At weight 255 a linear channel mix returns the second operand exactly.
pub proof fn lemma_mix_channel_full(x: int, y: int)
    by (nonlinear_arith)
    requires
        0 <= x <= 255,
        0 <= y <= 255,
    ensures
        mix_channel_spec(x, y, 255) == y,
{
}

/// The exact blend-law endpoints: a mix at weight 0 is the first color,
/// a mix at weight 255 is the second.
pub proof fn lemma_mix_color_endpoints(x: Color, y: Color)
    ensures
        mix_color_spec(x, y, 0) == x,
        mix_color_spec(x, y, 255) == y,
{
    lemma_mix_channel_zero(x.r as int, y.r as int);
    lemma_mix_channel_zero(x.g as int, y.g as int);
    lemma_mix_channel_zero(x.b as int, y.b as int);
    lemma_mix_channel_zero(x.a as int, y.a as int);
    lemma_mix_channel_full(x.r as int, y.r as int);
    lemma_mix_channel_full(x.g as int, y.g as int);
    lemma_mix_channel_full(x.b as int, y.b as int);
    lemma_mix_channel_full(x.a as int, y.a as int);
}

} // verus!
