//! The fixed-function shading passes and the system shader set.
//!
//! Each pass is a stateless function of named input buffers and scalar
//! uniforms onto one target, drawn with the shared full-screen quad.

use vstd::prelude::*;

use crate::FP_ONE;
use crate::RenderError;
use crate::arith::{clamp_spec, clamp_i64, lemma_index_decompose};
use crate::Light;
use crate::arith::min255_spec;
use crate::color::{Color, add_color_spec, add_colors, mix_color_spec, mix_colors, transparent_black};
use crate::framebuffer::{Framebuffer, lemma_row_major_index};
use crate::registry::ShaderProgram;
use crate::LumenpyxProgram;
use crate::next_id_after;

verus! {

/// One vertex of a screen-space pass: clip-space position and texture
/// coordinate, both fixed-point.
#[derive(Clone, Copy, Debug)]
pub struct Vertex {
    pub position: [i64; 2],
    pub tex_coords: [i64; 2],
}

/// The two-triangle quad covering the whole target, the canonical primitive
/// of every screen-space pass. Positions are scaled by `(sx, sy)` fixed-point
/// factors; texture coordinates are unchanged.
pub fn scaled_quad(sx: i64, sy: i64) -> (q: Vec<Vertex>)
    requires
        -crate::FP_MAX <= sx <= crate::FP_MAX,
        -crate::FP_MAX <= sy <= crate::FP_MAX,
    ensures
        q@.len() == 6,
        forall|i: int| 0 <= i < 6 ==> (#[trigger] q@[i]).position@[0] == sx
            || q@[i].position@[0] == -sx,
        forall|i: int| 0 <= i < 6 ==> (#[trigger] q@[i]).position@[1] == sy
            || q@[i].position@[1] == -sy,
{
    let mut q: Vec<Vertex> = Vec::new();
    q.push(Vertex { position: [-sx, -sy], tex_coords: [0, 0] });
    q.push(Vertex { position: [sx, -sy], tex_coords: [FP_ONE, 0] });
    q.push(Vertex { position: [sx, sy], tex_coords: [FP_ONE, FP_ONE] });
    q.push(Vertex { position: [sx, sy], tex_coords: [FP_ONE, FP_ONE] });
    q.push(Vertex { position: [-sx, sy], tex_coords: [0, FP_ONE] });
    q.push(Vertex { position: [-sx, -sy], tex_coords: [0, 0] });
    q
}

/// The full-screen quad: the scaled quad at unit scale.
pub fn full_screen_quad() -> (q: Vec<Vertex>)
    ensures
        q@.len() == 6,
{
    scaled_quad(FP_ONE, FP_ONE)
}

/// The registry after filing `p` under `name`, with the next free handle id.
pub open spec fn register_spec(
    m: Map<Seq<char>, ShaderProgram>,
    next: u64,
    name: Seq<char>,
) -> (Map<Seq<char>, ShaderProgram>, u64) {
    (m.insert(name, ShaderProgram { id: next }), next_id_after(next))
}

/// The registry and next handle id after registering the six system shaders,
/// in the order `load_all_system_shaders` compiles them.
pub open spec fn load_all_spec(m: Map<Seq<char>, ShaderProgram>, next: u64) -> (
    Map<Seq<char>, ShaderProgram>,
    u64,
) {
    let s1 = register_spec(m, next, "recieve_shadows_shader"@);
    let s2 = register_spec(s1.0, s1.1, "sprite_shader"@);
    let s3 = register_spec(s2.0, s2.1, "generate_normals_shader"@);
    let s4 = register_spec(s3.0, s3.1, "upscale_shader"@);
    let s5 = register_spec(s4.0, s4.1, "reflection_shader"@);
    register_spec(s5.0, s5.1, "fill_alpha"@)
}

/// The system shader names every frame relies on are all registered.
pub open spec fn system_shaders_loaded(m: Map<Seq<char>, ShaderProgram>) -> bool {
    &&& m.contains_key("recieve_shadows_shader"@)
    &&& m.contains_key("sprite_shader"@)
    &&& m.contains_key("generate_normals_shader"@)
    &&& m.contains_key("upscale_shader"@)
    &&& m.contains_key("reflection_shader"@)
    &&& m.contains_key("fill_alpha"@)
}

/// Compile and register every system shader: the shadow blend, the sprite
/// shader, the normal generator, the upscale pass, the reflection pass and
/// the alpha fill.
pub fn load_all_system_shaders(program: &mut LumenpyxProgram)
    requires
        old(program).wf(),
    ensures
        final(program).wf(),
        final(program).shaders() == load_all_spec(old(program).shaders(), old(program).next_id()).0,
        final(program).next_id() == load_all_spec(old(program).shaders(), old(program).next_id()).1,
        final(program).screen_view() == old(program).screen_view(),
        final(program).screen_width_spec() == old(program).screen_width_spec(),
        final(program).screen_height_spec() == old(program).screen_height_spec(),
        final(program).lighting_shader_spec() == old(program).lighting_shader_spec(),
        final(program).reflection_shader_spec() == old(program).reflection_shader_spec(),
        final(program).upscale_shader_spec() == old(program).upscale_shader_spec(),
        system_shaders_loaded(final(program).shaders()),
{
    let p = program.compile_program();
    program.add_shader(p, "recieve_shadows_shader");
    let p = program.compile_program();
    program.add_shader(p, "sprite_shader");
    let p = program.compile_program();
    program.add_shader(p, "generate_normals_shader");
    let p = program.compile_program();
    program.add_shader(p, "upscale_shader");
    let p = program.compile_program();
    program.add_shader(p, "reflection_shader");
    let p = program.compile_program();
    program.add_shader(p, "fill_alpha");
}

/// A target filled entirely with one color.
pub open spec fn filled_seq(n: int, color: Color) -> Seq<Color> {
    Seq::new(n as nat, |i: int| color)
}

/// Clear a target by drawing a full-screen quad in `color` instead of a
/// native clear call: a measured performance substitution on the target
/// platform. Fails, leaving the target untouched, exactly when the clear
/// shader was never registered.
pub fn faster_clear_color(
    framebuffer: &mut Framebuffer,
    color: Color,
    program: &LumenpyxProgram,
) -> (r: Result<(), RenderError>)
    requires
        program.wf(),
        old(framebuffer).wf(),
    ensures
        final(framebuffer).wf(),
        final(framebuffer).width_spec() == old(framebuffer).width_spec(),
        final(framebuffer).height_spec() == old(framebuffer).height_spec(),
        r is Ok <==> program.shaders().contains_key("faster_clear_color_shader"@),
        r is Ok ==> final(framebuffer)@ == filled_seq(old(framebuffer)@.len() as int, color),
        r is Err ==> final(framebuffer)@ == old(framebuffer)@ && r == Err::<(),
            RenderError,
        >(RenderError::MissingShader),
{
    if program.get_shader("faster_clear_color_shader").is_none() {
        return Err(RenderError::MissingShader);
    }
    let n = framebuffer.len();
    let mut out: Vec<Color> = Vec::new();
    let mut i: usize = 0;
    while i < n
        invariant
            i <= n,
            out@.len() == i,
            forall|j: int| 0 <= j < i ==> out@[j] == color,
        decreases n - i,
    {
        out.push(color);
        i = i + 1;
    }
    framebuffer.set_pixels(out);
    proof {
        assert(framebuffer@ =~= filled_seq(old(framebuffer)@.len() as int, color));
    }
    Ok(())
}

/// One texel of the alpha fill: transparent texels take the fill color,
/// covered texels are kept.
pub open spec fn fill_alpha_pixel(src: Seq<Color>, fill: Color, i: int) -> Color {
    if src[i].a == 0 {
        fill
    } else {
        src[i]
    }
}

/// The whole alpha-fill output for a source target.
pub open spec fn fill_alpha_spec(src: Seq<Color>, fill: Color) -> Seq<Color> {
    Seq::new(src.len(), |i: int| fill_alpha_pixel(src, fill, i))
}

/// Fill the transparent regions of `target_sampler` with `fill_color` while
/// preserving covered regions, writing the result to `framebuffer`. Used to
/// avoid sampling artifacts at transparent edges. Fails, leaving the target
/// untouched, exactly when the fill shader was never registered.
pub fn draw_fill_alpha(
    framebuffer: &mut Framebuffer,
    program: &LumenpyxProgram,
    target_sampler: &Framebuffer,
    fill_color: Color,
) -> (r: Result<(), RenderError>)
    requires
        program.wf(),
        old(framebuffer).wf(),
        target_sampler.wf(),
        target_sampler@.len() == old(framebuffer)@.len(),
    ensures
        final(framebuffer).wf(),
        final(framebuffer).width_spec() == old(framebuffer).width_spec(),
        final(framebuffer).height_spec() == old(framebuffer).height_spec(),
        r is Ok <==> program.shaders().contains_key("fill_alpha"@),
        r is Ok ==> final(framebuffer)@ == fill_alpha_spec(target_sampler@, fill_color),
        r is Err ==> final(framebuffer)@ == old(framebuffer)@ && r == Err::<(),
            RenderError,
        >(RenderError::MissingShader),
{
    if program.get_shader("fill_alpha").is_none() {
        return Err(RenderError::MissingShader);
    }
    let n = framebuffer.len();
    let mut out: Vec<Color> = Vec::new();
    let mut i: usize = 0;
    while i < n
        invariant
            i <= n,
            n == target_sampler@.len(),
            target_sampler.wf(),
            out@.len() == i,
            forall|j: int| 0 <= j < i ==> out@[j] == fill_alpha_pixel(
                target_sampler@,
                fill_color,
                j,
            ),
        decreases n - i,
    {
        let c = target_sampler.get_index(i);
        if c.a == 0 {
            out.push(fill_color);
        } else {
            out.push(c);
        }
        i = i + 1;
    }
    framebuffer.set_pixels(out);
    proof {
        assert(framebuffer@ =~= fill_alpha_spec(target_sampler@, fill_color));
    }
    Ok(())
}

/// A fresh target of the sampler's size whose transparent regions are filled
/// with `color` and whose covered regions copy the sampler. Fails exactly
/// when the fill shader was never registered.
pub fn new_fill_alpha_texure(
    program: &LumenpyxProgram,
    albedo_sampler: &Framebuffer,
    color: Color,
) -> (r: Result<Framebuffer, RenderError>)
    requires
        program.wf(),
        albedo_sampler.wf(),
    ensures
        r is Ok <==> program.shaders().contains_key("fill_alpha"@),
        r matches Ok(fb) ==> fb.wf() && fb.width_spec() == albedo_sampler.width_spec()
            && fb.height_spec() == albedo_sampler.height_spec() && fb@ == fill_alpha_spec(
            albedo_sampler@,
            color,
        ),
        r is Err ==> r == Err::<Framebuffer, RenderError>(RenderError::MissingShader),
{
    let mut texture = Framebuffer::new(albedo_sampler.width(), albedo_sampler.height());
    match draw_fill_alpha(&mut texture, program, albedo_sampler, color) {
        Ok(()) => Ok(texture),
        Err(e) => Err(e),
    }
}

/// The temporal shadow blend: each texel leans from the previous frame's
/// texel toward the current frame's by `strength`.
pub open spec fn recieve_shadows_spec(last: Seq<Color>, this: Seq<Color>, strength: int) -> Seq<
    Color,
> {
    Seq::new(last.len(), |i: int| mix_color_spec(last[i], this[i], strength))
}

/// Blend the previous frame over the current one by `recieve_shadows_strength`
/// (0 keeps the previous frame, 255 takes the current one), a temporal blend
/// for a soft shadow accumulation effect across frames. Fails, leaving the
/// target untouched, exactly when the shadow blend shader was never
/// registered.
pub fn draw_recieve_shadows(
    framebuffer: &mut Framebuffer,
    program: &LumenpyxProgram,
    recieve_shadows_strength: u8,
    last_frame_sampler: &Framebuffer,
    this_frame_sampler: &Framebuffer,
) -> (r: Result<(), RenderError>)
    requires
        program.wf(),
        old(framebuffer).wf(),
        last_frame_sampler.wf(),
        this_frame_sampler.wf(),
        last_frame_sampler@.len() == old(framebuffer)@.len(),
        this_frame_sampler@.len() == old(framebuffer)@.len(),
    ensures
        final(framebuffer).wf(),
        final(framebuffer).width_spec() == old(framebuffer).width_spec(),
        final(framebuffer).height_spec() == old(framebuffer).height_spec(),
        r is Ok <==> program.shaders().contains_key("recieve_shadows_shader"@),
        r is Ok ==> final(framebuffer)@ == recieve_shadows_spec(
            last_frame_sampler@,
            this_frame_sampler@,
            recieve_shadows_strength as int,
        ),
        r is Err ==> final(framebuffer)@ == old(framebuffer)@ && r == Err::<(),
            RenderError,
        >(RenderError::MissingShader),
{
    if program.get_shader("recieve_shadows_shader").is_none() {
        return Err(RenderError::MissingShader);
    }
    let n = framebuffer.len();
    let mut out: Vec<Color> = Vec::new();
    let mut i: usize = 0;
    while i < n
        invariant
            i <= n,
            n == last_frame_sampler@.len(),
            n == this_frame_sampler@.len(),
            last_frame_sampler.wf(),
            this_frame_sampler.wf(),
            out@.len() == i,
            forall|j: int| 0 <= j < i ==> out@[j] == mix_color_spec(
                last_frame_sampler@[j],
                this_frame_sampler@[j],
                recieve_shadows_strength as int,
            ),
        decreases n - i,
    {
        let last = last_frame_sampler.get_index(i);
        let this = this_frame_sampler.get_index(i);
        out.push(mix_colors(last, this, recieve_shadows_strength));
        i = i + 1;
    }
    framebuffer.set_pixels(out);
    proof {
        assert(framebuffer@ =~= recieve_shadows_spec(
            last_frame_sampler@,
            this_frame_sampler@,
            recieve_shadows_strength as int,
        ));
    }
    Ok(())
}

/// The height sample (red channel) of the texel at column `x` of row `y`.
pub open spec fn height_at(hgt: Seq<Color>, w: int, x: int, y: int) -> int {
    hgt[y * w + x].r as int
}

/// One texel of the normal generator: the normal derived from the central
/// difference of the height field (clamped at the edges), encoded with 128
/// as zero slope; transparent wherever the albedo shows no surface.
pub open spec fn normal_pixel(hgt: Seq<Color>, alb: Seq<Color>, w: int, h: int, i: int) -> Color {
    if alb[i].a == 0 {
        transparent_black()
    } else {
        let x = i % w;
        let y = i / w;
        let xl = if x == 0 { 0 } else { x - 1 };
        let xr = if x + 1 >= w { w - 1 } else { x + 1 };
        let yd = if y == 0 { 0 } else { y - 1 };
        let yu = if y + 1 >= h { h - 1 } else { y + 1 };
        let nx = (256 + height_at(hgt, w, xl, y) - height_at(hgt, w, xr, y)) / 2;
        let ny = (256 + height_at(hgt, w, x, yd) - height_at(hgt, w, x, yu)) / 2;
        Color { r: nx as u8, g: ny as u8, b: 255, a: 255 }
    }
}

/// The whole output of the normal generator.
pub open spec fn generate_normals_spec(hgt: Seq<Color>, alb: Seq<Color>, w: int, h: int) -> Seq<
    Color,
> {
    Seq::new(hgt.len(), |i: int| normal_pixel(hgt, alb, w, h, i))
}

/// The normal-generator output at row-major index `i`.
fn normal_pixel_at(height_uniform: &Framebuffer, albedo_uniform: &Framebuffer, i: usize) -> (c:
    Color)
    requires
        height_uniform.wf(),
        albedo_uniform.wf(),
        albedo_uniform.width_spec() == height_uniform.width_spec(),
        albedo_uniform.height_spec() == height_uniform.height_spec(),
        i < height_uniform@.len(),
    ensures
        c == normal_pixel(
            height_uniform@,
            albedo_uniform@,
            height_uniform.width_spec() as int,
            height_uniform.height_spec() as int,
            i as int,
        ),
{
    let w = height_uniform.width();
    let h = height_uniform.height();
    proof {
        lemma_index_decompose(i as int, w as int, h as int);
    }
    let a = albedo_uniform.get_index(i);
    if a.a == 0 {
        return Color::transparent();
    }
    let x = (i % (w as usize)) as u32;
    let y = (i / (w as usize)) as u32;
    let xl = if x == 0 { 0 } else { x - 1 };
    let xr = if x + 1 >= w { w - 1 } else { x + 1 };
    let yd = if y == 0 { 0 } else { y - 1 };
    let yu = if y + 1 >= h { h - 1 } else { y + 1 };
    let hl = height_uniform.get_pixel(xl, y).r;
    let hr = height_uniform.get_pixel(xr, y).r;
    let hd = height_uniform.get_pixel(x, yd).r;
    let hu = height_uniform.get_pixel(x, yu).r;
    let nx = ((256 + hl as i32 - hr as i32) / 2) as u8;
    let ny = ((256 + hd as i32 - hu as i32) / 2) as u8;
    Color { r: nx, g: ny, b: 255, a: 255 }
}

/// Derive a normal map from the height field, writing it to `framebuffer`;
/// used when an object supplies no explicit normals. Fails, leaving the
/// target untouched, exactly when the normal generator shader was never
/// registered.
pub fn draw_generate_normals(
    program: &LumenpyxProgram,
    height_uniform: &Framebuffer,
    albedo_uniform: &Framebuffer,
    framebuffer: &mut Framebuffer,
) -> (r: Result<(), RenderError>)
    requires
        program.wf(),
        old(framebuffer).wf(),
        height_uniform.wf(),
        albedo_uniform.wf(),
        height_uniform.width_spec() == old(framebuffer).width_spec(),
        height_uniform.height_spec() == old(framebuffer).height_spec(),
        albedo_uniform.width_spec() == old(framebuffer).width_spec(),
        albedo_uniform.height_spec() == old(framebuffer).height_spec(),
    ensures
        final(framebuffer).wf(),
        final(framebuffer).width_spec() == old(framebuffer).width_spec(),
        final(framebuffer).height_spec() == old(framebuffer).height_spec(),
        r is Ok <==> program.shaders().contains_key("generate_normals_shader"@),
        r is Ok ==> final(framebuffer)@ == generate_normals_spec(
            height_uniform@,
            albedo_uniform@,
            old(framebuffer).width_spec() as int,
            old(framebuffer).height_spec() as int,
        ),
        r is Err ==> final(framebuffer)@ == old(framebuffer)@ && r == Err::<(),
            RenderError,
        >(RenderError::MissingShader),
{
    if program.get_shader("generate_normals_shader").is_none() {
        return Err(RenderError::MissingShader);
    }
    let n = framebuffer.len();
    let mut out: Vec<Color> = Vec::new();
    let mut i: usize = 0;
    while i < n
        invariant
            i <= n,
            n == height_uniform@.len(),
            height_uniform.wf(),
            albedo_uniform.wf(),
            albedo_uniform.width_spec() == height_uniform.width_spec(),
            albedo_uniform.height_spec() == height_uniform.height_spec(),
            out@.len() == i,
            forall|j: int| 0 <= j < i ==> out@[j] == normal_pixel(
                height_uniform@,
                albedo_uniform@,
                height_uniform.width_spec() as int,
                height_uniform.height_spec() as int,
                j,
            ),
        decreases n - i,
    {
        out.push(normal_pixel_at(height_uniform, albedo_uniform, i));
        i = i + 1;
    }
    framebuffer.set_pixels(out);
    proof {
        assert(framebuffer@ =~= generate_normals_spec(
            height_uniform@,
            albedo_uniform@,
            old(framebuffer).width_spec() as int,
            old(framebuffer).height_spec() as int,
        ));
    }
    Ok(())
}

/// The row-major index of the screen-space reflection sample for texel `i`:
/// the lit image re-sampled at a point displaced sideways by the normal's
/// tilt and upward by twice the surface height plus the camera offset,
/// clamped to the target.
pub open spec fn ssr_index(
    hgt: Seq<Color>,
    nrm: Seq<Color>,
    camera_z: int,
    w: int,
    h: int,
    i: int,
) -> int {
    let x = i % w;
    let y = i / w;
    let sx = clamp_spec(x + nrm[i].r as int / 16 - 8, 0, w - 1);
    let rows = hgt[i].r as int * h / 256;
    let sy = clamp_spec(y - 2 * rows - camera_z / (crate::FP_ONE as int), 0, h - 1);
    sy * w + sx
}

/// One texel of the reflection pass: the screen-space reflection sample
/// mixed against the unreflected lit texel, with roughness as the weight
/// (rougher surfaces lean toward the unreflected image).
pub open spec fn reflect_pixel(
    lit: Seq<Color>,
    hgt: Seq<Color>,
    rough: Seq<Color>,
    nrm: Seq<Color>,
    camera_z: int,
    w: int,
    h: int,
    i: int,
) -> Color {
    mix_color_spec(lit[ssr_index(hgt, nrm, camera_z, w, h, i)], lit[i], rough[i].r as int)
}

/// The whole output of the reflection pass.
pub open spec fn reflections_spec(
    lit: Seq<Color>,
    hgt: Seq<Color>,
    rough: Seq<Color>,
    nrm: Seq<Color>,
    camera_z: int,
    w: int,
    h: int,
) -> Seq<Color> {
    Seq::new(lit.len(), |i: int| reflect_pixel(lit, hgt, rough, nrm, camera_z, w, h, i))
}

/// The reflection-pass output at row-major index `i`.
fn reflect_pixel_at(
    lit_uniform: &Framebuffer,
    height_uniform: &Framebuffer,
    rougness_uniform: &Framebuffer,
    normal_uniform: &Framebuffer,
    camera_z: i64,
    i: usize,
) -> (c: Color)
    requires
        lit_uniform.wf(),
        height_uniform.wf(),
        rougness_uniform.wf(),
        normal_uniform.wf(),
        height_uniform.width_spec() == lit_uniform.width_spec(),
        height_uniform.height_spec() == lit_uniform.height_spec(),
        rougness_uniform.width_spec() == lit_uniform.width_spec(),
        rougness_uniform.height_spec() == lit_uniform.height_spec(),
        normal_uniform.width_spec() == lit_uniform.width_spec(),
        normal_uniform.height_spec() == lit_uniform.height_spec(),
        0 <= camera_z <= crate::FP_MAX,
        i < lit_uniform@.len(),
    ensures
        c == reflect_pixel(
            lit_uniform@,
            height_uniform@,
            rougness_uniform@,
            normal_uniform@,
            camera_z as int,
            lit_uniform.width_spec() as int,
            lit_uniform.height_spec() as int,
            i as int,
        ),
{
    let w = lit_uniform.width();
    let h = lit_uniform.height();
    proof {
        lemma_index_decompose(i as int, w as int, h as int);
    }
    let x = (i % (w as usize)) as i64;
    let y = (i / (w as usize)) as i64;
    let nr = normal_uniform.get_index(i).r;
    let sx = clamp_i64(x + nr as i64 / 16 - 8, 0, w as i64 - 1);
    let hr = height_uniform.get_index(i).r;
    proof {
        crate::arith::lemma_mul_nonneg_le(
            hr as int,
            h as int,
            255,
            crate::framebuffer::MAX_TARGET_EXTENT as int,
        );
    }
    let rows = hr as i64 * h as i64 / 256;
    let sy = clamp_i64(y - 2 * rows - camera_z / FP_ONE, 0, h as i64 - 1);
    proof {
        lemma_row_major_index(w as int, h as int, sx as int, sy as int);
    }
    let src = lit_uniform.get_index((sy as usize) * (w as usize) + (sx as usize));
    let own = lit_uniform.get_index(i);
    let rough = rougness_uniform.get_index(i).r;
    mix_colors(src, own, rough)
}

/// The reflection pass: one full-screen draw reading the lit, height,
/// roughness and normal targets plus the camera height, writing a
/// screen-space reflection approximation blended against the unreflected lit
/// image by roughness. Fails, leaving the target untouched, exactly when the
/// reflection shader was never registered.
pub fn draw_reflections(
    lit_uniform: &Framebuffer,
    height_uniform: &Framebuffer,
    rougness_uniform: &Framebuffer,
    normal_uniform: &Framebuffer,
    framebuffer: &mut Framebuffer,
    program: &LumenpyxProgram,
    camera_z: i64,
) -> (r: Result<(), RenderError>)
    requires
        program.wf(),
        old(framebuffer).wf(),
        lit_uniform.wf(),
        height_uniform.wf(),
        rougness_uniform.wf(),
        normal_uniform.wf(),
        lit_uniform.width_spec() == old(framebuffer).width_spec(),
        lit_uniform.height_spec() == old(framebuffer).height_spec(),
        height_uniform.width_spec() == old(framebuffer).width_spec(),
        height_uniform.height_spec() == old(framebuffer).height_spec(),
        rougness_uniform.width_spec() == old(framebuffer).width_spec(),
        rougness_uniform.height_spec() == old(framebuffer).height_spec(),
        normal_uniform.width_spec() == old(framebuffer).width_spec(),
        normal_uniform.height_spec() == old(framebuffer).height_spec(),
        0 <= camera_z <= crate::FP_MAX,
    ensures
        final(framebuffer).wf(),
        final(framebuffer).width_spec() == old(framebuffer).width_spec(),
        final(framebuffer).height_spec() == old(framebuffer).height_spec(),
        r is Ok <==> program.shaders().contains_key("reflection_shader"@),
        r is Ok ==> final(framebuffer)@ == reflections_spec(
            lit_uniform@,
            height_uniform@,
            rougness_uniform@,
            normal_uniform@,
            camera_z as int,
            old(framebuffer).width_spec() as int,
            old(framebuffer).height_spec() as int,
        ),
        r is Err ==> final(framebuffer)@ == old(framebuffer)@ && r == Err::<(),
            RenderError,
        >(RenderError::MissingShader),
{
    if program.get_shader("reflection_shader").is_none() {
        return Err(RenderError::MissingShader);
    }
    let n = framebuffer.len();
    let mut out: Vec<Color> = Vec::new();
    let mut i: usize = 0;
    while i < n
        invariant
            i <= n,
            n == lit_uniform@.len(),
            lit_uniform.wf(),
            height_uniform.wf(),
            rougness_uniform.wf(),
            normal_uniform.wf(),
            height_uniform.width_spec() == lit_uniform.width_spec(),
            height_uniform.height_spec() == lit_uniform.height_spec(),
            rougness_uniform.width_spec() == lit_uniform.width_spec(),
            rougness_uniform.height_spec() == lit_uniform.height_spec(),
            normal_uniform.width_spec() == lit_uniform.width_spec(),
            normal_uniform.height_spec() == lit_uniform.height_spec(),
            0 <= camera_z <= crate::FP_MAX,
            out@.len() == i,
            forall|j: int| 0 <= j < i ==> out@[j] == reflect_pixel(
                lit_uniform@,
                height_uniform@,
                rougness_uniform@,
                normal_uniform@,
                camera_z as int,
                lit_uniform.width_spec() as int,
                lit_uniform.height_spec() as int,
                j,
            ),
        decreases n - i,
    {
        out.push(
            reflect_pixel_at(
                lit_uniform,
                height_uniform,
                rougness_uniform,
                normal_uniform,
                camera_z,
                i,
            ),
        );
        i = i + 1;
    }
    framebuffer.set_pixels(out);
    proof {
        assert(framebuffer@ =~= reflections_spec(
            lit_uniform@,
            height_uniform@,
            rougness_uniform@,
            normal_uniform@,
            camera_z as int,
            old(framebuffer).width_spec() as int,
            old(framebuffer).height_spec() as int,
        ));
    }
    Ok(())
}

/// The additive contribution of one light to one lit texel: the albedo
/// modulated channel-wise by the light color and by an attenuation that
/// falls off with the squared fixed-point distance from the light to the
/// texel's surface point (its clip-space center raised by the height
/// sample). Texels without a surface receive nothing.
pub open spec fn light_contrib(l: Light, alb: Color, hgt: Color, w: int, h: int, i: int) -> Color {
    if alb.a == 0 {
        transparent_black()
    } else {
        let cx = crate::framebuffer::clip_coord_spec(i % w, w);
        let cy = crate::framebuffer::clip_coord_spec(i / w, h);
        let hz = hgt.r as int * (crate::FP_ONE as int) / 255;
        let dx = cx - l.x() as int;
        let dy = cy - l.y() as int;
        let dz = hz - l.z() as int;
        let d2 = (dx * dx + dy * dy + dz * dz) / (crate::FP_ONE as int);
        let denom = (crate::FP_ONE as int) + l.falloff_value() as int * d2 / (crate::FP_ONE as int);
        let atten = l.intensity_value() as int * (crate::FP_ONE as int) / denom;
        Color {
            r: min255_spec(
                alb.r as int * l.red() as int * atten / (255 * (crate::FP_ONE as int)),
            ) as u8,
            g: min255_spec(
                alb.g as int * l.green() as int * atten / (255 * (crate::FP_ONE as int)),
            ) as u8,
            b: min255_spec(
                alb.b as int * l.blue() as int * atten / (255 * (crate::FP_ONE as int)),
            ) as u8,
            a: alb.a,
        }
    }
}

/// The lit target after accumulating one light over the whole albedo and
/// height buffers, by saturating additive blending.
pub open spec fn apply_light_spec(
    l: Light,
    alb: Seq<Color>,
    hgt: Seq<Color>,
    cur: Seq<Color>,
    w: int,
    h: int,
) -> Seq<Color> {
    Seq::new(
        cur.len(),
        |i: int| add_color_spec(cur[i], light_contrib(l, alb[i], hgt[i], w, h, i)),
    )
}

/// One channel of the light contribution, with the shared attenuation factor.
fn light_channel(alb_c: u8, light_c: u8, atten: i64) -> (c: u8)
    requires
        0 <= atten <= 0x100_0000,
    ensures
        c as int == min255_spec(
            alb_c as int * light_c as int * atten as int / (255 * (crate::FP_ONE as int)),
        ),
{
    proof {
        crate::arith::lemma_mul_nonneg_le(alb_c as int, light_c as int, 255, 255);
        crate::arith::lemma_mul_nonneg_le(
            alb_c as int * light_c as int,
            atten as int,
            65025,
            0x100_0000,
        );
    }
    let v: i64 = alb_c as i64 * light_c as i64 * atten / (255 * FP_ONE);
    if v > 255 {
        255
    } else {
        v as u8
    }
}

/// The contribution of `light` at row-major index `i`.
fn light_contrib_at(light: &Light, albedo: &Framebuffer, height: &Framebuffer, i: usize) -> (c:
    Color)
    requires
        light.wf(),
        albedo.wf(),
        height.wf(),
        height.width_spec() == albedo.width_spec(),
        height.height_spec() == albedo.height_spec(),
        i < albedo@.len(),
    ensures
        c == light_contrib(
            *light,
            albedo@[i as int],
            height@[i as int],
            albedo.width_spec() as int,
            albedo.height_spec() as int,
            i as int,
        ),
{
    let w = albedo.width();
    let h = albedo.height();
    proof {
        lemma_index_decompose(i as int, w as int, h as int);
    }
    let alb = albedo.get_index(i);
    if alb.a == 0 {
        return Color::transparent();
    }
    let hgt = height.get_index(i);
    let x = (i % (w as usize)) as u32;
    let y = (i / (w as usize)) as u32;
    let cx = crate::framebuffer::clip_coord(x, w);
    let cy = crate::framebuffer::clip_coord(y, h);
    let hz: i64 = hgt.r as i64 * FP_ONE / 255;
    let dx = cx - light.px;
    let dy = cy - light.py;
    let dz = hz - light.pz;
    proof {
        crate::arith::lemma_square_bounds(dx as int, 0x8000);
        crate::arith::lemma_square_bounds(dy as int, 0x8000);
        crate::arith::lemma_square_bounds(dz as int, 0x8000);
    }
    let d2: i64 = (dx * dx + dy * dy + dz * dz) / FP_ONE;
    proof {
        crate::arith::lemma_div_le_self((dx * dx + dy * dy + dz * dz) as int, crate::FP_ONE as int);
        crate::arith::lemma_mul_nonneg_le(
            light.falloff as int,
            d2 as int,
            crate::FP_MAX as int,
            0x300_0000,
        );
        crate::arith::lemma_div_le_self((light.falloff * d2) as int, crate::FP_ONE as int);
    }
    let denom: i64 = FP_ONE + light.falloff * d2 / FP_ONE;
    let atten: i64 = light.intensity * FP_ONE / denom;
    proof {
        crate::arith::lemma_div_le_self((light.intensity * FP_ONE) as int, denom as int);
    }
    Color {
        r: light_channel(alb.r, light.cr, atten),
        g: light_channel(alb.g, light.cg, atten),
        b: light_channel(alb.b, light.cb, atten),
        a: alb.a,
    }
}

/// The per-light lighting pass: read the albedo and height targets and one
/// light's parameters, and accumulate the light's contribution into the lit
/// target by additive blending. The lighting program is the eagerly compiled
/// built-in, so the pass cannot miss a shader.
pub fn draw_lighting(
    albedo: &Framebuffer,
    height: &Framebuffer,
    light: &Light,
    program: &LumenpyxProgram,
    lit_framebuffer: &mut Framebuffer,
)
    requires
        program.wf(),
        light.wf(),
        albedo.wf(),
        height.wf(),
        old(lit_framebuffer).wf(),
        albedo.width_spec() == old(lit_framebuffer).width_spec(),
        albedo.height_spec() == old(lit_framebuffer).height_spec(),
        height.width_spec() == old(lit_framebuffer).width_spec(),
        height.height_spec() == old(lit_framebuffer).height_spec(),
    ensures
        final(lit_framebuffer).wf(),
        final(lit_framebuffer).width_spec() == old(lit_framebuffer).width_spec(),
        final(lit_framebuffer).height_spec() == old(lit_framebuffer).height_spec(),
        final(lit_framebuffer)@ == apply_light_spec(
            *light,
            albedo@,
            height@,
            old(lit_framebuffer)@,
            old(lit_framebuffer).width_spec() as int,
            old(lit_framebuffer).height_spec() as int,
        ),
{
    let n = lit_framebuffer.len();
    let mut out: Vec<Color> = Vec::new();
    let mut i: usize = 0;
    while i < n
        invariant
            i <= n,
            n == lit_framebuffer@.len(),
            n == albedo@.len(),
            lit_framebuffer.wf(),
            light.wf(),
            albedo.wf(),
            height.wf(),
            albedo.width_spec() == lit_framebuffer.width_spec(),
            albedo.height_spec() == lit_framebuffer.height_spec(),
            height.width_spec() == lit_framebuffer.width_spec(),
            height.height_spec() == lit_framebuffer.height_spec(),
            lit_framebuffer@ == old(lit_framebuffer)@,
            lit_framebuffer.width_spec() == old(lit_framebuffer).width_spec(),
            lit_framebuffer.height_spec() == old(lit_framebuffer).height_spec(),
            out@.len() == i,
            forall|j: int| 0 <= j < i ==> out@[j] == add_color_spec(
                lit_framebuffer@[j],
                light_contrib(
                    *light,
                    albedo@[j],
                    height@[j],
                    lit_framebuffer.width_spec() as int,
                    lit_framebuffer.height_spec() as int,
                    j,
                ),
            ),
        decreases n - i,
    {
        let cur = lit_framebuffer.get_index(i);
        let glow = light_contrib_at(light, albedo, height, i);
        out.push(add_colors(cur, glow));
        i = i + 1;
    }
    lit_framebuffer.set_pixels(out);
    proof {
        assert(lit_framebuffer@ =~= apply_light_spec(
            *light,
            albedo@,
            height@,
            old(lit_framebuffer)@,
            old(lit_framebuffer).width_spec() as int,
            old(lit_framebuffer).height_spec() as int,
        ));
    }
}

/// The lit target after accumulating every light, in caller-supplied order,
/// starting from `cur`. Accumulation is additive, so the order cannot change
/// the sum, but it is fixed for reproducibility.
pub open spec fn lights_fold(
    ls: Seq<&Light>,
    alb: Seq<Color>,
    hgt: Seq<Color>,
    cur: Seq<Color>,
    w: int,
    h: int,
) -> Seq<Color>
    decreases ls.len(),
{
    if ls.len() == 0 {
        cur
    } else {
        apply_light_spec(*ls.last(), alb, hgt, lights_fold(ls.drop_last(), alb, hgt, cur, w, h), w, h)
    }
}

/// One axis's letterbox scale, as an exact fraction `num / den` with
/// `0 < num <= den`.
#[derive(Clone, Copy, PartialEq, Eq, Structural, Debug)]
pub struct DimScale {
    pub num: u64,
    pub den: u64,
}

/// The letterbox scale factors `(sx_num, sx_den, sy_num, sy_den)` for a
/// virtual image of `vw x vh` on a target of `tw x th`: the axis that needs
/// the larger scale is normalized to exactly one, and the other shrinks
/// proportionally.
pub open spec fn dim_scales_spec(vw: int, vh: int, tw: int, th: int) -> (int, int, int, int) {
    if vw * th > vh * tw {
        (1, 1, vh * tw, vw * th)
    } else {
        (vw * th, vh * tw, 1, 1)
    }
}

/// The letterbox scale factors for fitting a `image_width x image_height`
/// virtual image onto a `target_width x target_height` surface while
/// preserving aspect ratio.
pub fn compute_dim_scales(
    image_width: u32,
    image_height: u32,
    target_width: u32,
    target_height: u32,
) -> (r: (DimScale, DimScale))
    requires
        1 <= image_width <= crate::framebuffer::MAX_TARGET_EXTENT,
        1 <= image_height <= crate::framebuffer::MAX_TARGET_EXTENT,
        1 <= target_width <= crate::framebuffer::MAX_TARGET_EXTENT,
        1 <= target_height <= crate::framebuffer::MAX_TARGET_EXTENT,
    ensures
        ({
            let s = dim_scales_spec(
                image_width as int,
                image_height as int,
                target_width as int,
                target_height as int,
            );
            &&& r.0.num == s.0
            &&& r.0.den == s.1
            &&& r.1.num == s.2
            &&& r.1.den == s.3
        }),
        0 < r.0.num <= r.0.den,
        0 < r.1.num <= r.1.den,
        r.0.den <= 0x100_0000,
        r.1.den <= 0x100_0000,
        r.0.num == r.0.den || r.1.num == r.1.den,
{
    proof {
        crate::arith::lemma_mul_pos(image_width as int, target_height as int);
        crate::arith::lemma_mul_pos(image_height as int, target_width as int);
        crate::arith::lemma_mul_nonneg_le(image_width as int, target_height as int, 4096, 4096);
        crate::arith::lemma_mul_nonneg_le(image_height as int, target_width as int, 4096, 4096);
    }
    let wide: u64 = image_width as u64 * target_height as u64;
    let tall: u64 = image_height as u64 * target_width as u64;
    if wide > tall {
        (DimScale { num: 1, den: 1 }, DimScale { num: tall, den: wide })
    } else {
        (DimScale { num: wide, den: tall }, DimScale { num: 1, den: 1 })
    }
}

/// The letterbox law of the upscale pass: after normalization the larger
/// required scale is exactly one (both fractions are at most one, and one of
/// them equals one), and the scale of the letterboxed axis is exactly the
/// virtual aspect ratio divided by the target aspect ratio — `vw*th` over
/// `vh*tw` — or its inverse when the target is the taller of the two.
pub proof fn lemma_upscale_letterbox(vw: int, vh: int, tw: int, th: int)
    requires
        0 < vw,
        0 < vh,
        0 < tw,
        0 < th,
    ensures
        ({
            let s = dim_scales_spec(vw, vh, tw, th);
            &&& s.0 == s.1 || s.2 == s.3
            &&& 0 < s.0 <= s.1
            &&& 0 < s.2 <= s.3
            &&& (vw * th <= vh * tw ==> s.2 == s.3 && s.0 == vw * th && s.1 == vh * tw)
            &&& (vw * th > vh * tw ==> s.0 == s.1 && s.2 == vh * tw && s.3 == vw * th)
        }),
{
    crate::arith::lemma_mul_pos(vw, th);
    crate::arith::lemma_mul_pos(vh, tw);
}

/// One texel of the upscale pass: target texels whose center falls inside
/// the scaled quad sample the virtual image with nearest filtering; texels
/// outside it are the letterbox bars, transparent black over the cleared
/// surface.
pub open spec fn upscale_pixel(
    src: Seq<Color>,
    vw: int,
    vh: int,
    tw: int,
    th: int,
    i: int,
) -> Color {
    let s = dim_scales_spec(vw, vh, tw, th);
    let x = i % tw;
    let y = i / tw;
    let ax = 2 * x + 1 - tw;
    let ay = 2 * y + 1 - th;
    if -(s.0 * tw) <= ax * s.1 && ax * s.1 <= s.0 * tw && -(s.2 * th) <= ay * s.3 && ay * s.3
        <= s.2 * th {
        let px = clamp_spec(vw * (ax * s.1 + s.0 * tw) / (2 * s.0 * tw), 0, vw - 1);
        let py = clamp_spec(vh * (ay * s.3 + s.2 * th) / (2 * s.2 * th), 0, vh - 1);
        src[py * vw + px]
    } else {
        transparent_black()
    }
}

/// The whole upscaled surface.
pub open spec fn upscale_spec(src: Seq<Color>, vw: int, vh: int, tw: int, th: int) -> Seq<Color> {
    Seq::new((tw * th) as nat, |i: int| upscale_pixel(src, vw, vh, tw, th, i))
}

/// The upscale output at row-major index `i` of the target.
fn upscale_pixel_at(image: &Framebuffer, target_width: u32, target_height: u32, i: usize) -> (c:
    Color)
    requires
        image.wf(),
        1 <= target_width <= crate::framebuffer::MAX_TARGET_EXTENT,
        1 <= target_height <= crate::framebuffer::MAX_TARGET_EXTENT,
        i < target_width * target_height,
    ensures
        c == upscale_pixel(
            image@,
            image.width_spec() as int,
            image.height_spec() as int,
            target_width as int,
            target_height as int,
            i as int,
        ),
{
    let vw = image.width();
    let vh = image.height();
    let tw = target_width;
    let th = target_height;
    let scales = compute_dim_scales(vw, vh, tw, th);
    let sxn = scales.0.num as i64;
    let sxd = scales.0.den as i64;
    let syn = scales.1.num as i64;
    let syd = scales.1.den as i64;
    let twi = tw as i64;
    let thi = th as i64;
    proof {
        lemma_index_decompose(i as int, tw as int, th as int);
    }
    let x = (i % (tw as usize)) as i64;
    let y = (i / (tw as usize)) as i64;
    let ax = 2 * x + 1 - twi;
    let ay = 2 * y + 1 - thi;
    proof {
        crate::arith::lemma_mul_bounds(ax as int, sxd as int, 4096, 0x100_0000);
        crate::arith::lemma_mul_bounds(ay as int, syd as int, 4096, 0x100_0000);
        crate::arith::lemma_mul_nonneg_le(sxn as int, twi as int, 0x100_0000, 4096);
        crate::arith::lemma_mul_nonneg_le(syn as int, thi as int, 0x100_0000, 4096);
        crate::arith::lemma_mul_pos(sxn as int, twi as int);
        crate::arith::lemma_mul_pos(syn as int, thi as int);
    }
    let in_x = -(sxn * twi) <= ax * sxd && ax * sxd <= sxn * twi;
    let in_y = -(syn * thi) <= ay * syd && ay * syd <= syn * thi;
    if in_x && in_y {
        let num_x: i64 = ax * sxd + sxn * twi;
        let num_y: i64 = ay * syd + syn * thi;
        let den_x: i64 = 2 * (sxn * twi);
        let den_y: i64 = 2 * (syn * thi);
        proof {
            assert(2 * ((sxn as int) * (twi as int)) == 2 * (sxn as int) * (twi as int))
                by (nonlinear_arith);
            assert(2 * ((syn as int) * (thi as int)) == 2 * (syn as int) * (thi as int))
                by (nonlinear_arith);
            crate::arith::lemma_mul_nonneg_le(vw as int, num_x as int, 4096, 0x40_0000_0000);
            crate::arith::lemma_mul_nonneg_le(vh as int, num_y as int, 4096, 0x40_0000_0000);
            vstd::arithmetic::div_mod::lemma_div_pos_is_pos(
                vw as int * num_x as int,
                den_x as int,
            );
            vstd::arithmetic::div_mod::lemma_div_pos_is_pos(
                vh as int * num_y as int,
                den_y as int,
            );
        }
        let px = clamp_i64(vw as i64 * num_x / den_x, 0, vw as i64 - 1);
        let py = clamp_i64(vh as i64 * num_y / den_y, 0, vh as i64 - 1);
        proof {
            lemma_row_major_index(vw as int, vh as int, px as int, py as int);
        }
        image.get_index((py as usize) * (vw as usize) + (px as usize))
        } else {
        Color::transparent()
    }
}

/// The upscale pass: clear the display surface, then draw the virtual image
/// scaled to fit it while preserving aspect ratio — the letterboxed axis
/// keeps transparent black bars on both sides. Fails, leaving the surface
/// untouched, exactly when the upscale shader was never registered.
pub fn draw_upscale(
    image_uniform: &Framebuffer,
    lumenpyx_program: &mut LumenpyxProgram,
) -> (r: Result<(), RenderError>)
    requires
        old(lumenpyx_program).wf(),
        image_uniform.wf(),
    ensures
        final(lumenpyx_program).wf(),
        final(lumenpyx_program).shaders() == old(lumenpyx_program).shaders(),
        final(lumenpyx_program).next_id() == old(lumenpyx_program).next_id(),
        final(lumenpyx_program).screen_width_spec() == old(lumenpyx_program).screen_width_spec(),
        final(lumenpyx_program).screen_height_spec() == old(lumenpyx_program).screen_height_spec(),
        final(lumenpyx_program).lighting_shader_spec() == old(
            lumenpyx_program,
        ).lighting_shader_spec(),
        final(lumenpyx_program).reflection_shader_spec() == old(
            lumenpyx_program,
        ).reflection_shader_spec(),
        final(lumenpyx_program).upscale_shader_spec() == old(
            lumenpyx_program,
        ).upscale_shader_spec(),
        r is Ok <==> old(lumenpyx_program).shaders().contains_key("upscale_shader"@),
        r is Ok ==> final(lumenpyx_program).screen_view() == upscale_spec(
            image_uniform@,
            image_uniform.width_spec() as int,
            image_uniform.height_spec() as int,
            old(lumenpyx_program).screen_width_spec() as int,
            old(lumenpyx_program).screen_height_spec() as int,
        ),
        r is Err ==> final(lumenpyx_program).screen_view() == old(
            lumenpyx_program,
        ).screen_view() && r == Err::<(), RenderError>(RenderError::MissingShader),
{
    if lumenpyx_program.get_shader("upscale_shader").is_none() {
        return Err(RenderError::MissingShader);
    }
    proof {
        lumenpyx_program.lemma_wf_screen();
    }
    let tw = lumenpyx_program.screen().width();
    let th = lumenpyx_program.screen().height();
    let n = lumenpyx_program.screen().len();
    let mut out: Vec<Color> = Vec::new();
    let mut i: usize = 0;
    while i < n
        invariant
            i <= n,
            n == tw * th,
            image_uniform.wf(),
            1 <= tw <= crate::framebuffer::MAX_TARGET_EXTENT,
            1 <= th <= crate::framebuffer::MAX_TARGET_EXTENT,
            out@.len() == i,
            forall|j: int| 0 <= j < i ==> out@[j] == upscale_pixel(
                image_uniform@,
                image_uniform.width_spec() as int,
                image_uniform.height_spec() as int,
                tw as int,
                th as int,
                j,
            ),
        decreases n - i,
    {
        out.push(upscale_pixel_at(image_uniform, tw, th, i));
        i = i + 1;
    }
    lumenpyx_program.present(out);
    proof {
        assert(lumenpyx_program.screen_view() =~= upscale_spec(
            image_uniform@,
            image_uniform.width_spec() as int,
            image_uniform.height_spec() as int,
            old(lumenpyx_program).screen_width_spec() as int,
            old(lumenpyx_program).screen_height_spec() as int,
        ));
    }
    Ok(())
}

} // verus!
