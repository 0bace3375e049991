//! The scene primitives: a filled circle (albedo only) and a sphere (albedo
//! plus procedurally derived height and normal maps), rasterized against the
//! virtual-resolution attribute buffers.

use vstd::prelude::*;

use crate::{FP_ONE, FP_MAX, LumenpyxProgram, RenderError, Transform};
use crate::arith::{
    lemma_div_le_self,
    lemma_index_decompose,
    lemma_mul_bounds,
    lemma_mul_le,
    lemma_mul_nonneg_le,
    lemma_mul_pos,
    lemma_square_bounds,
};
use crate::color::{Color, blend_over, blend_over_spec};
use crate::drawable::Drawable;
use crate::registry::ShaderProgram;
use crate::framebuffer::{Framebuffer, clip_coord, clip_coord_spec, lemma_div_bound};

verus! {

/// The integer square root: the largest `r` with `r * r <= n` (0 for
/// nonpositive `n`).
pub open spec fn isqrt_spec(n: int) -> int
    decreases n,
{
    if n <= 0 {
        0
    } else {
        let r = isqrt_spec(n - 1);
        if (r + 1) * (r + 1) <= n {
            r + 1
        } else {
            r
        }
    }
}

/// The integer square root brackets its argument between consecutive squares.
pub proof fn lemma_isqrt_property(n: int)
    requires
        0 <= n,
    ensures
        0 <= isqrt_spec(n),
        isqrt_spec(n) * isqrt_spec(n) <= n,
        n < (isqrt_spec(n) + 1) * (isqrt_spec(n) + 1),
    decreases n,
{
    if n > 0 {
        lemma_isqrt_property(n - 1);
        let r = isqrt_spec(n - 1);
        if (r + 1) * (r + 1) <= n {
            assert(n < ((r + 1) + 1) * ((r + 1) + 1)) by (nonlinear_arith)
                requires
                    n - 1 < (r + 1) * (r + 1),
                    0 <= r,
            ;
        }
    }
}

/// Any nonnegative `r` bracketing `n` between `r * r` and `(r + 1) * (r + 1)`
/// is the integer square root of `n`.
pub proof fn lemma_isqrt_unique(n: int, r: int)
    requires
        0 <= n,
        0 <= r,
        r * r <= n,
        n < (r + 1) * (r + 1),
    ensures
        r == isqrt_spec(n),
{
    lemma_isqrt_property(n);
    let s = isqrt_spec(n);
    if r < s {
        assert((r + 1) * (r + 1) <= s * s) by (nonlinear_arith)
            requires
                0 <= r,
                r + 1 <= s,
        ;
    }
    if s < r {
        assert((s + 1) * (s + 1) <= r * r) by (nonlinear_arith)
            requires
                0 <= s,
                s + 1 <= r,
        ;
    }
}

/// The integer square root, by bisection on the bracketing invariant.
pub fn isqrt(n: u128) -> (r: u64)
    requires
        n < 0x1_0000_0000_0000_0000_0000u128,
    ensures
        r as int == isqrt_spec(n as int),
        (r as int) * (r as int) <= n as int,
{
    let mut lo: u64 = 0;
    let mut hi: u64 = 0x200_0000_0000;
    while lo + 1 < hi
        invariant
            lo < hi,
            hi <= 0x200_0000_0000,
            (lo as int) * (lo as int) <= n as int,
            (n as int) < (hi as int) * (hi as int),
        decreases hi - lo,
    {
        let mid: u64 = lo + (hi - lo) / 2;
        proof {
            lemma_mul_nonneg_le(mid as int, mid as int, 0x200_0000_0000, 0x200_0000_0000);
        }
        if (mid as u128) * (mid as u128) <= n {
            lo = mid;
        } else {
            hi = mid;
        }
    }
    proof {
        lemma_isqrt_unique(n as int, lo as int);
    }
    lo
}

/// The effective half-axes of a circle of fixed-point `radius` under `t`:
/// the radius scaled by the transform's x and y scale cells.
pub open spec fn scaled_axis(radius: int, scale: int) -> int {
    radius * scale / (FP_ONE as int)
}

/// Whether the center of texel `i` falls inside the ellipse that a circle of
/// `radius` becomes under `t`: the translation row places the center, the
/// scale diagonal stretches the axes. A nonpositive scale or a degenerate
/// axis covers nothing.
pub open spec fn circle_covers(radius: int, t: Transform, w: int, h: int, i: int) -> bool {
    if t.scale_x() <= 0 || t.scale_y() <= 0 {
        false
    } else {
        let rx = scaled_axis(radius, t.scale_x() as int);
        let ry = scaled_axis(radius, t.scale_y() as int);
        if rx <= 0 || ry <= 0 {
            false
        } else {
            let dx = clip_coord_spec(i % w, w) - t.x() as int;
            let dy = clip_coord_spec(i / w, h) - t.y() as int;
            (dx * ry) * (dx * ry) + (dy * rx) * (dy * rx) <= (rx * ry) * (rx * ry)
        }
    }
}

/// One albedo texel after drawing the circle: covered texels composite the
/// circle color over the buffer, others are untouched.
pub open spec fn circle_pixel(
    color: Color,
    radius: int,
    t: Transform,
    fb: Seq<Color>,
    w: int,
    h: int,
    i: int,
) -> Color {
    if circle_covers(radius, t, w, h, i) {
        blend_over_spec(color, fb[i])
    } else {
        fb[i]
    }
}

/// The whole albedo target after drawing the circle.
pub open spec fn circle_raster_spec(
    color: Color,
    radius: int,
    t: Transform,
    fb: Seq<Color>,
    w: int,
    h: int,
) -> Seq<Color> {
    Seq::new(fb.len(), |i: int| circle_pixel(color, radius, t, fb, w, h, i))
}

/// Whether the center of texel `i` is covered, computed in wide integers.
fn circle_covers_at(radius: i64, transform: &Transform, w: u32, h: u32, i: usize) -> (b: bool)
    requires
        transform.wf(),
        0 <= radius <= FP_MAX,
        1 <= w <= crate::framebuffer::MAX_TARGET_EXTENT,
        1 <= h <= crate::framebuffer::MAX_TARGET_EXTENT,
        i < w * h,
    ensures
        b == circle_covers(radius as int, *transform, w as int, h as int, i as int),
{
    if transform.sx <= 0 || transform.sy <= 0 {
        return false;
    }
    proof {
        lemma_mul_nonneg_le(radius as int, transform.sx as int, FP_MAX as int, FP_MAX as int);
        lemma_mul_nonneg_le(radius as int, transform.sy as int, FP_MAX as int, FP_MAX as int);
        lemma_div_le_self(radius as int * transform.sx as int, FP_ONE as int);
        lemma_div_le_self(radius as int * transform.sy as int, FP_ONE as int);
    }
    let rx: i64 = radius * transform.sx / FP_ONE;
    let ry: i64 = radius * transform.sy / FP_ONE;
    if rx <= 0 || ry <= 0 {
        return false;
    }
    proof {
        lemma_index_decompose(i as int, w as int, h as int);
    }
    let x = (i % (w as usize)) as u32;
    let y = (i / (w as usize)) as u32;
    let dx: i64 = clip_coord(x, w) - transform.tx;
    let dy: i64 = clip_coord(y, h) - transform.ty;
    proof {
        lemma_mul_bounds(dx as int, ry as int, 0x8000, 0x1000_0000);
        lemma_mul_bounds(dy as int, rx as int, 0x8000, 0x1000_0000);
        lemma_mul_bounds(rx as int, ry as int, 0x1000_0000, 0x1000_0000);
    }
    let dxry: i128 = dx as i128 * ry as i128;
    let dyrx: i128 = dy as i128 * rx as i128;
    let rxry: i128 = rx as i128 * ry as i128;
    proof {
        lemma_square_bounds(dxry as int, 0x8_0000_0000_0000);
        lemma_square_bounds(dyrx as int, 0x8_0000_0000_0000);
        lemma_square_bounds(rxry as int, 0x100_0000_0000_0000);
    }
    dxry * dxry + dyrx * dyrx <= rxry * rxry
}

/// Rasterize a filled circle of `color` into the albedo target: each covered
/// texel composites the color over what the buffer held. Fails, leaving the
/// target untouched, exactly when the circle shader was never registered.
pub fn draw_circle(
    color: Color,
    radius: i64,
    transform: Transform,
    program: &LumenpyxProgram,
    framebuffer: &mut Framebuffer,
) -> (r: Result<(), RenderError>)
    requires
        program.wf(),
        transform.wf(),
        0 <= radius <= FP_MAX,
        old(framebuffer).wf(),
    ensures
        final(framebuffer).wf(),
        final(framebuffer).width_spec() == old(framebuffer).width_spec(),
        final(framebuffer).height_spec() == old(framebuffer).height_spec(),
        r is Ok <==> program.shaders().contains_key("circle_ahr_shader"@),
        r is Ok ==> final(framebuffer)@ == circle_raster_spec(
            color,
            radius as int,
            transform,
            old(framebuffer)@,
            old(framebuffer).width_spec() as int,
            old(framebuffer).height_spec() as int,
        ),
        r is Err ==> final(framebuffer)@ == old(framebuffer)@ && r == Err::<(),
            RenderError,
        >(RenderError::MissingShader),
{
    if program.get_shader("circle_ahr_shader").is_none() {
        return Err(RenderError::MissingShader);
    }
    let w = framebuffer.width();
    let h = framebuffer.height();
    let n = framebuffer.len();
    let mut out: Vec<Color> = Vec::new();
    let mut i: usize = 0;
    while i < n
        invariant
            i <= n,
            n == framebuffer@.len(),
            framebuffer.wf(),
            transform.wf(),
            0 <= radius <= FP_MAX,
            w == framebuffer.width_spec(),
            h == framebuffer.height_spec(),
            framebuffer@ == old(framebuffer)@,
            framebuffer.width_spec() == old(framebuffer).width_spec(),
            framebuffer.height_spec() == old(framebuffer).height_spec(),
            out@.len() == i,
            forall|j: int| 0 <= j < i ==> out@[j] == circle_pixel(
                color,
                radius as int,
                transform,
                framebuffer@,
                w as int,
                h as int,
                j,
            ),
        decreases n - i,
    {
        let cur = framebuffer.get_index(i);
        if circle_covers_at(radius, &transform, w, h, i) {
            out.push(blend_over(color, cur));
        } else {
            out.push(cur);
        }
        i = i + 1;
    }
    framebuffer.set_pixels(out);
    proof {
        assert(framebuffer@ =~= circle_raster_spec(
            color,
            radius as int,
            transform,
            old(framebuffer)@,
            old(framebuffer).width_spec() as int,
            old(framebuffer).height_spec() as int,
        ));
    }
    Ok(())
}

/// A value whose square is bounded by another square is bounded by that
/// value's magnitude.
proof fn lemma_sq_le_implies_abs_le(a: int, b: int)
    by (nonlinear_arith)
    requires
        a * a <= b * b,
        0 <= b,
    ensures
        -b <= a <= b,
{
}

/// Cancelling a positive factor on both sides of an inequality.
proof fn lemma_mul_cancel(a: int, b: int, c: int)
    by (nonlinear_arith)
    requires
        a * c <= b * c,
        0 < c,
    ensures
        a <= b,
{
}

/// Inside the covered ellipse the texel's offsets are bounded by the
/// half-axes.
proof fn lemma_cover_bounds(dx: int, dy: int, rx: int, ry: int)
    requires
        0 < rx,
        0 < ry,
        (dx * ry) * (dx * ry) + (dy * rx) * (dy * rx) <= (rx * ry) * (rx * ry),
    ensures
        -rx <= dx <= rx,
        -ry <= dy <= ry,
{
    assert(0 <= (dy * rx) * (dy * rx)) by (nonlinear_arith);
    assert(0 <= (dx * ry) * (dx * ry)) by (nonlinear_arith);
    lemma_mul_pos(rx, ry);
    lemma_sq_le_implies_abs_le(dx * ry, rx * ry);
    lemma_sq_le_implies_abs_le(dy * rx, ry * rx);
    assert((-rx) * ry == -(rx * ry)) by (nonlinear_arith);
    assert((-ry) * rx == -(ry * rx)) by (nonlinear_arith);
    assert(dy * rx <= ry * rx);
    lemma_mul_cancel(dx, rx, ry);
    lemma_mul_cancel(-rx, dx, ry);
    lemma_mul_cancel(dy, ry, rx);
    lemma_mul_cancel(-ry, dy, rx);
}

/// The fixed-point height of the covered sphere texel, 0..=255: the vertical
/// extent of the ellipsoid above the texel, scaled so the apex is 255.
pub open spec fn sphere_height_color(radius: int, t: Transform, w: int, h: int, i: int) -> Color {
    let rx = scaled_axis(radius, t.scale_x() as int);
    let ry = scaled_axis(radius, t.scale_y() as int);
    let dx = clip_coord_spec(i % w, w) - t.x() as int;
    let dy = clip_coord_spec(i / w, h) - t.y() as int;
    let q = (dx * ry) * (dx * ry) + (dy * rx) * (dy * rx);
    let b = rx * ry;
    let s = isqrt_spec(b * b - q);
    let hv = 255 * s / b;
    Color { r: hv as u8, g: hv as u8, b: hv as u8, a: 255 }
}

/// One height texel after drawing the sphere: covered texels take the
/// sphere's height profile, others are untouched.
pub open spec fn sphere_height_pixel(
    radius: int,
    t: Transform,
    fb: Seq<Color>,
    w: int,
    h: int,
    i: int,
) -> Color {
    if circle_covers(radius, t, w, h, i) {
        sphere_height_color(radius, t, w, h, i)
    } else {
        fb[i]
    }
}

/// The whole height target after drawing the sphere.
pub open spec fn sphere_height_raster_spec(
    radius: int,
    t: Transform,
    fb: Seq<Color>,
    w: int,
    h: int,
) -> Seq<Color> {
    Seq::new(fb.len(), |i: int| sphere_height_pixel(radius, t, fb, w, h, i))
}

/// The normal of the covered sphere texel: the offsets along each half-axis
/// mapped into 0..=254 with 127 as the zero slope, and the height profile as
/// the outward component.
pub open spec fn sphere_normal_color(radius: int, t: Transform, w: int, h: int, i: int) -> Color {
    let rx = scaled_axis(radius, t.scale_x() as int);
    let ry = scaled_axis(radius, t.scale_y() as int);
    let dx = clip_coord_spec(i % w, w) - t.x() as int;
    let dy = clip_coord_spec(i / w, h) - t.y() as int;
    let q = (dx * ry) * (dx * ry) + (dy * rx) * (dy * rx);
    let b = rx * ry;
    let s = isqrt_spec(b * b - q);
    let nx = (dx + rx) * 127 / rx;
    let ny = (dy + ry) * 127 / ry;
    let nz = 255 * s / b;
    Color { r: nx as u8, g: ny as u8, b: nz as u8, a: 255 }
}

/// One normal texel after drawing the sphere.
pub open spec fn sphere_normal_pixel(
    radius: int,
    t: Transform,
    fb: Seq<Color>,
    w: int,
    h: int,
    i: int,
) -> Color {
    if circle_covers(radius, t, w, h, i) {
        sphere_normal_color(radius, t, w, h, i)
    } else {
        fb[i]
    }
}

/// The whole normal target after drawing the sphere.
pub open spec fn sphere_normal_raster_spec(
    radius: int,
    t: Transform,
    fb: Seq<Color>,
    w: int,
    h: int,
) -> Seq<Color> {
    Seq::new(fb.len(), |i: int| sphere_normal_pixel(radius, t, fb, w, h, i))
}

/// The height and normal texels of the sphere at texel `i`, or nothing where
/// the sphere does not cover it.
fn sphere_surface_at(radius: i64, transform: &Transform, w: u32, h: u32, i: usize) -> (o: Option<
    (Color, Color),
>)
    requires
        transform.wf(),
        0 <= radius <= FP_MAX,
        1 <= w <= crate::framebuffer::MAX_TARGET_EXTENT,
        1 <= h <= crate::framebuffer::MAX_TARGET_EXTENT,
        i < w * h,
    ensures
        o is Some <==> circle_covers(radius as int, *transform, w as int, h as int, i as int),
        o matches Some(p) ==> p.0 == sphere_height_color(
            radius as int,
            *transform,
            w as int,
            h as int,
            i as int,
        ) && p.1 == sphere_normal_color(radius as int, *transform, w as int, h as int, i as int),
{
    if transform.sx <= 0 || transform.sy <= 0 {
        return None;
    }
    proof {
        lemma_mul_nonneg_le(radius as int, transform.sx as int, FP_MAX as int, FP_MAX as int);
        lemma_mul_nonneg_le(radius as int, transform.sy as int, FP_MAX as int, FP_MAX as int);
        lemma_div_le_self(radius as int * transform.sx as int, FP_ONE as int);
        lemma_div_le_self(radius as int * transform.sy as int, FP_ONE as int);
    }
    let rx: i64 = radius * transform.sx / FP_ONE;
    let ry: i64 = radius * transform.sy / FP_ONE;
    if rx <= 0 || ry <= 0 {
        return None;
    }
    proof {
        lemma_div_bound(radius as int * transform.sx as int, 0x40001, FP_ONE as int);
        lemma_div_bound(radius as int * transform.sy as int, 0x40001, FP_ONE as int);
        lemma_index_decompose(i as int, w as int, h as int);
    }
    let x = (i % (w as usize)) as u32;
    let y = (i / (w as usize)) as u32;
    let dx: i64 = clip_coord(x, w) - transform.tx;
    let dy: i64 = clip_coord(y, h) - transform.ty;
    proof {
        lemma_mul_bounds(dx as int, ry as int, 0x8000, 0x4_0000);
        lemma_mul_bounds(dy as int, rx as int, 0x8000, 0x4_0000);
        lemma_mul_bounds(rx as int, ry as int, 0x4_0000, 0x4_0000);
    }
    let dxry: i128 = dx as i128 * ry as i128;
    let dyrx: i128 = dy as i128 * rx as i128;
    let b: i128 = rx as i128 * ry as i128;
    proof {
        lemma_square_bounds(dxry as int, 0x2_0000_0000);
        lemma_square_bounds(dyrx as int, 0x2_0000_0000);
        lemma_square_bounds(b as int, 0x10_0000_0000);
    }
    let q: i128 = dxry * dxry + dyrx * dyrx;
    let b2: i128 = b * b;
    if !(q <= b2) {
        return None;
    }
    let s: u64 = isqrt((b2 - q) as u128);
    proof {
        lemma_mul_pos(rx as int, ry as int);
        lemma_isqrt_property((b2 - q) as int);
        lemma_sq_le_implies_abs_le(s as int, b as int);
        lemma_mul_le(s as int, b as int, 255);
        assert((s as int) * 255 == 255 * (s as int)) by (nonlinear_arith);
        assert((b as int) * 255 == 255 * (b as int)) by (nonlinear_arith);
        lemma_div_bound(255 * (s as int), 256, b as int);
        lemma_cover_bounds(dx as int, dy as int, rx as int, ry as int);
        lemma_div_bound((dx as int + rx as int) * 127, 255, rx as int);
        lemma_div_bound((dy as int + ry as int) * 127, 255, ry as int);
    }
    let hv: i128 = 255 * (s as i128) / b;
    let nx: i64 = (dx + rx) * 127 / rx;
    let ny: i64 = (dy + ry) * 127 / ry;
    let height_color = Color { r: hv as u8, g: hv as u8, b: hv as u8, a: 255 };
    let normal_color = Color { r: nx as u8, g: ny as u8, b: hv as u8, a: 255 };
    Some((height_color, normal_color))
}

/// Draw a sphere: the circle routine fills the albedo target, and dedicated
/// height and normal shaders parameterized by radius and transform fill the
/// height and normal targets. No target is touched unless all three sphere
/// shaders are registered; the pass fails exactly when one is missing.
pub fn draw_sphere(
    color: Color,
    radius: i64,
    transform: Transform,
    program: &LumenpyxProgram,
    albedo_framebuffer: &mut Framebuffer,
    height_framebuffer: &mut Framebuffer,
    normal_framebuffer: &mut Framebuffer,
) -> (r: Result<(), RenderError>)
    requires
        program.wf(),
        transform.wf(),
        0 <= radius <= FP_MAX,
        old(albedo_framebuffer).wf(),
        old(height_framebuffer).wf(),
        old(normal_framebuffer).wf(),
    ensures
        final(albedo_framebuffer).wf(),
        final(albedo_framebuffer).width_spec() == old(albedo_framebuffer).width_spec(),
        final(albedo_framebuffer).height_spec() == old(albedo_framebuffer).height_spec(),
        final(height_framebuffer).wf(),
        final(height_framebuffer).width_spec() == old(height_framebuffer).width_spec(),
        final(height_framebuffer).height_spec() == old(height_framebuffer).height_spec(),
        final(normal_framebuffer).wf(),
        final(normal_framebuffer).width_spec() == old(normal_framebuffer).width_spec(),
        final(normal_framebuffer).height_spec() == old(normal_framebuffer).height_spec(),
        r is Ok <==> program.shaders().contains_key("circle_ahr_shader"@)
            && program.shaders().contains_key("sphere_height_shader"@)
            && program.shaders().contains_key("sphere_normal_shader"@),
        r is Ok ==> final(albedo_framebuffer)@ == circle_raster_spec(
            color,
            radius as int,
            transform,
            old(albedo_framebuffer)@,
            old(albedo_framebuffer).width_spec() as int,
            old(albedo_framebuffer).height_spec() as int,
        ),
        r is Ok ==> final(height_framebuffer)@ == sphere_height_raster_spec(
            radius as int,
            transform,
            old(height_framebuffer)@,
            old(height_framebuffer).width_spec() as int,
            old(height_framebuffer).height_spec() as int,
        ),
        r is Ok ==> final(normal_framebuffer)@ == sphere_normal_raster_spec(
            radius as int,
            transform,
            old(normal_framebuffer)@,
            old(normal_framebuffer).width_spec() as int,
            old(normal_framebuffer).height_spec() as int,
        ),
        r is Err ==> final(albedo_framebuffer)@ == old(albedo_framebuffer)@
            && final(height_framebuffer)@ == old(height_framebuffer)@
            && final(normal_framebuffer)@ == old(normal_framebuffer)@
            && r == Err::<(), RenderError>(RenderError::MissingShader),
{
    if program.get_shader("circle_ahr_shader").is_none() || program.get_shader(
        "sphere_height_shader",
    ).is_none() || program.get_shader("sphere_normal_shader").is_none() {
        return Err(RenderError::MissingShader);
    }
    let circle_result = draw_circle(color, radius, transform, program, albedo_framebuffer);
    match circle_result {
        Ok(()) => (),
        Err(_) => {
            proof {
                assert(false);
            }
        },
    }
    let w = height_framebuffer.width();
    let h = height_framebuffer.height();
    let n = height_framebuffer.len();
    let mut out: Vec<Color> = Vec::new();
    let mut i: usize = 0;
    while i < n
        invariant
            i <= n,
            n == height_framebuffer@.len(),
            height_framebuffer.wf(),
            transform.wf(),
            0 <= radius <= FP_MAX,
            w == height_framebuffer.width_spec(),
            h == height_framebuffer.height_spec(),
            height_framebuffer@ == old(height_framebuffer)@,
            height_framebuffer.width_spec() == old(height_framebuffer).width_spec(),
            height_framebuffer.height_spec() == old(height_framebuffer).height_spec(),
            out@.len() == i,
            forall|j: int| 0 <= j < i ==> out@[j] == sphere_height_pixel(
                radius as int,
                transform,
                height_framebuffer@,
                w as int,
                h as int,
                j,
            ),
        decreases n - i,
    {
        let cur = height_framebuffer.get_index(i);
        match sphere_surface_at(radius, &transform, w, h, i) {
            Some(p) => out.push(p.0),
            None => out.push(cur),
        }
        i = i + 1;
    }
    height_framebuffer.set_pixels(out);
    proof {
        assert(height_framebuffer@ =~= sphere_height_raster_spec(
            radius as int,
            transform,
            old(height_framebuffer)@,
            old(height_framebuffer).width_spec() as int,
            old(height_framebuffer).height_spec() as int,
        ));
    }
    let w = normal_framebuffer.width();
    let h = normal_framebuffer.height();
    let n = normal_framebuffer.len();
    let mut out: Vec<Color> = Vec::new();
    let mut i: usize = 0;
    while i < n
        invariant
            i <= n,
            n == normal_framebuffer@.len(),
            normal_framebuffer.wf(),
            transform.wf(),
            0 <= radius <= FP_MAX,
            w == normal_framebuffer.width_spec(),
            h == normal_framebuffer.height_spec(),
            normal_framebuffer@ == old(normal_framebuffer)@,
            normal_framebuffer.width_spec() == old(normal_framebuffer).width_spec(),
            normal_framebuffer.height_spec() == old(normal_framebuffer).height_spec(),
            out@.len() == i,
            forall|j: int| 0 <= j < i ==> out@[j] == sphere_normal_pixel(
                radius as int,
                transform,
                normal_framebuffer@,
                w as int,
                h as int,
                j,
            ),
        decreases n - i,
    {
        let cur = normal_framebuffer.get_index(i);
        match sphere_surface_at(radius, &transform, w, h, i) {
            Some(p) => out.push(p.1),
            None => out.push(cur),
        }
        i = i + 1;
    }
    normal_framebuffer.set_pixels(out);
    proof {
        assert(normal_framebuffer@ =~= sphere_normal_raster_spec(
            radius as int,
            transform,
            old(normal_framebuffer)@,
            old(normal_framebuffer).width_spec() as int,
            old(normal_framebuffer).height_spec() as int,
        ));
    }
    Ok(())
}

/// A filled circle: writes its color into the albedo target only.
pub struct Circle {
    color: Color,
    radius: i64,
    transform: Transform,
}

impl Circle {
    pub closed spec fn color_spec(&self) -> Color {
        self.color
    }

    pub closed spec fn radius_spec(&self) -> i64 {
        self.radius
    }

    pub closed spec fn transform_spec(&self) -> Transform {
        self.transform
    }

    /// A circle of `color` and fixed-point `radius` placed by `transform`.
    pub fn new(color: Color, radius: i64, transform: Transform) -> (c: Circle)
        requires
            transform.wf(),
            0 <= radius <= FP_MAX,
        ensures
            c.wf(),
            c.color_spec() == color,
            c.radius_spec() == radius,
            c.transform_spec() == transform,
    {
        Circle { color, radius, transform }
    }
}

impl Drawable for Circle {
    open spec fn wf(&self) -> bool {
        &&& self.transform_spec().wf()
        &&& 0 <= self.radius_spec() <= FP_MAX
    }

    open spec fn shaders_loaded(&self, m: Map<Seq<char>, ShaderProgram>) -> bool {
        m.contains_key("circle_ahr_shader"@)
    }

    open spec fn provision(&self, m: Map<Seq<char>, ShaderProgram>, next: u64) -> (
        Map<Seq<char>, ShaderProgram>,
        u64,
    ) {
        if m.contains_key("circle_ahr_shader"@) {
            (m, next)
        } else {
            crate::shaders::register_spec(m, next, "circle_ahr_shader"@)
        }
    }

    open spec fn albedo_after(&self, fb: Seq<Color>, w: int, h: int) -> Seq<Color> {
        circle_raster_spec(
            self.color_spec(),
            self.radius_spec() as int,
            self.transform_spec(),
            fb,
            w,
            h,
        )
    }

    open spec fn height_after(&self, fb: Seq<Color>, w: int, h: int) -> Seq<Color> {
        fb
    }

    open spec fn roughness_after(&self, fb: Seq<Color>, w: int, h: int) -> Seq<Color> {
        fb
    }

    open spec fn normal_after(&self, fb: Seq<Color>, w: int, h: int) -> Seq<Color> {
        fb
    }

    proof fn lemma_after_len(&self, fb: Seq<Color>, w: int, h: int) {
    }

    proof fn lemma_loaded_monotone(
        &self,
        m1: Map<Seq<char>, ShaderProgram>,
        m2: Map<Seq<char>, ShaderProgram>,
    ) {
    }

    fn try_load_shaders(&self, program: &mut LumenpyxProgram) {
        if program.get_shader("circle_ahr_shader").is_none() {
            let shader = program.compile_program();
            program.add_shader(shader, "circle_ahr_shader");
        }
    }

    fn draw(
        &self,
        program: &LumenpyxProgram,
        albedo_framebuffer: &mut Framebuffer,
        height_framebuffer: &mut Framebuffer,
        roughness_framebuffer: &mut Framebuffer,
        normal_framebuffer: &mut Framebuffer,
    ) {
        let drawn = draw_circle(
            self.color,
            self.radius,
            self.transform,
            program,
            albedo_framebuffer,
        );
        match drawn {
            Ok(()) => (),
            Err(_) => {
                proof {
                    assert(false);
                }
            },
        }
    }
}

/// A sphere: the circle routine fills its albedo, and its height and normal
/// maps are derived procedurally from the radius and transform.
pub struct Sphere {
    color: Color,
    radius: i64,
    transform: Transform,
}

impl Sphere {
    pub closed spec fn color_spec(&self) -> Color {
        self.color
    }

    pub closed spec fn radius_spec(&self) -> i64 {
        self.radius
    }

    pub closed spec fn transform_spec(&self) -> Transform {
        self.transform
    }

    /// A sphere of `color` and fixed-point `radius` placed by `transform`.
    pub fn new(color: Color, radius: i64, transform: Transform) -> (s: Sphere)
        requires
            transform.wf(),
            0 <= radius <= FP_MAX,
        ensures
            s.wf(),
            s.color_spec() == color,
            s.radius_spec() == radius,
            s.transform_spec() == transform,
    {
        Sphere { color, radius, transform }
    }
}

impl Drawable for Sphere {
    open spec fn wf(&self) -> bool {
        &&& self.transform_spec().wf()
        &&& 0 <= self.radius_spec() <= FP_MAX
    }

    open spec fn shaders_loaded(&self, m: Map<Seq<char>, ShaderProgram>) -> bool {
        &&& m.contains_key("circle_ahr_shader"@)
        &&& m.contains_key("sphere_height_shader"@)
        &&& m.contains_key("sphere_normal_shader"@)
    }

    open spec fn provision(&self, m: Map<Seq<char>, ShaderProgram>, next: u64) -> (
        Map<Seq<char>, ShaderProgram>,
        u64,
    ) {
        let s1 = if m.contains_key("circle_ahr_shader"@) {
            (m, next)
        } else {
            crate::shaders::register_spec(m, next, "circle_ahr_shader"@)
        };
        let s2 = if s1.0.contains_key("sphere_height_shader"@) {
            s1
        } else {
            crate::shaders::register_spec(s1.0, s1.1, "sphere_height_shader"@)
        };
        if s2.0.contains_key("sphere_normal_shader"@) {
            s2
        } else {
            crate::shaders::register_spec(s2.0, s2.1, "sphere_normal_shader"@)
        }
    }

    open spec fn albedo_after(&self, fb: Seq<Color>, w: int, h: int) -> Seq<Color> {
        circle_raster_spec(
            self.color_spec(),
            self.radius_spec() as int,
            self.transform_spec(),
            fb,
            w,
            h,
        )
    }

    open spec fn height_after(&self, fb: Seq<Color>, w: int, h: int) -> Seq<Color> {
        sphere_height_raster_spec(self.radius_spec() as int, self.transform_spec(), fb, w, h)
    }

    open spec fn roughness_after(&self, fb: Seq<Color>, w: int, h: int) -> Seq<Color> {
        fb
    }

    open spec fn normal_after(&self, fb: Seq<Color>, w: int, h: int) -> Seq<Color> {
        sphere_normal_raster_spec(self.radius_spec() as int, self.transform_spec(), fb, w, h)
    }

    proof fn lemma_after_len(&self, fb: Seq<Color>, w: int, h: int) {
    }

    proof fn lemma_loaded_monotone(
        &self,
        m1: Map<Seq<char>, ShaderProgram>,
        m2: Map<Seq<char>, ShaderProgram>,
    ) {
    }

    fn try_load_shaders(&self, program: &mut LumenpyxProgram) {
        if program.get_shader("circle_ahr_shader").is_none() {
            let shader = program.compile_program();
            program.add_shader(shader, "circle_ahr_shader");
        }
        if program.get_shader("sphere_height_shader").is_none() {
            let shader = program.compile_program();
            program.add_shader(shader, "sphere_height_shader");
        }
        if program.get_shader("sphere_normal_shader").is_none() {
            let shader = program.compile_program();
            program.add_shader(shader, "sphere_normal_shader");
        }
    }

    fn draw(
        &self,
        program: &LumenpyxProgram,
        albedo_framebuffer: &mut Framebuffer,
        height_framebuffer: &mut Framebuffer,
        roughness_framebuffer: &mut Framebuffer,
        normal_framebuffer: &mut Framebuffer,
    ) {
        let drawn = draw_sphere(
            self.color,
            self.radius,
            self.transform,
            program,
            albedo_framebuffer,
            height_framebuffer,
            normal_framebuffer,
        );
        match drawn {
            Ok(()) => (),
            Err(_) => {
                proof {
                    assert(false);
                }
            },
        }
    }
}

} // verus!
