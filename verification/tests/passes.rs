use lumenpyx::FP_ONE;
use lumenpyx::RenderError;
use lumenpyx::color::Color;
use lumenpyx::color::{add_colors, blend_over, mix_colors, sat_add_u8};
use lumenpyx::framebuffer::Framebuffer;
use lumenpyx::primitives::isqrt;
use lumenpyx::shaders::{
    compute_dim_scales, draw_fill_alpha, draw_generate_normals, draw_recieve_shadows,
    draw_reflections, draw_upscale, faster_clear_color, full_screen_quad, scaled_quad,
};
use lumenpyx::LumenpyxProgram;

fn rgba(r: u8, g: u8, b: u8, a: u8) -> Color {
    Color { r, g, b, a }
}

fn filled(width: u32, height: u32, color: Color) -> Framebuffer {
    let mut fb = Framebuffer::new(width, height);
    let mut pixels = Vec::new();
    for _ in 0..fb.len() {
        pixels.push(color);
    }
    fb.set_pixels(pixels);
    fb
}

#[test]
fn sat_add_saturates() {
    assert_eq!(sat_add_u8(1, 2), 3);
    assert_eq!(sat_add_u8(200, 100), 255);
    assert_eq!(sat_add_u8(255, 255), 255);
    let c = add_colors(rgba(250, 10, 0, 255), rgba(10, 10, 0, 255));
    assert_eq!(c, rgba(255, 20, 0, 255));
}

#[test]
fn blend_over_opaque_source_wins() {
    let out = blend_over(rgba(10, 20, 30, 255), rgba(200, 200, 200, 200));
    assert_eq!(out, rgba(10, 20, 30, 255));
}

#[test]
fn blend_over_transparent_source_keeps_destination() {
    let out = blend_over(rgba(10, 20, 30, 0), rgba(200, 100, 50, 255));
    assert_eq!(out, rgba(200, 100, 50, 255));
}

#[test]
fn mix_endpoints_are_exact() {
    let x = rgba(1, 2, 3, 4);
    let y = rgba(200, 150, 100, 255);
    assert_eq!(mix_colors(x, y, 0), x);
    assert_eq!(mix_colors(x, y, 255), y);
    // (100 * 127 + 200 * 128) / 255 == 150
    let mid = mix_colors(rgba(100, 0, 0, 255), rgba(200, 0, 0, 255), 128);
    assert_eq!(mid.r, 150);
}

#[test]
fn isqrt_exact_values() {
    assert_eq!(isqrt(0), 0);
    assert_eq!(isqrt(1), 1);
    assert_eq!(isqrt(15), 3);
    assert_eq!(isqrt(16), 4);
    assert_eq!(isqrt(1u128 << 40), 1u64 << 20);
    assert_eq!(isqrt((1u128 << 40) - 1), (1u64 << 20) - 1);
}

#[test]
fn framebuffer_starts_cleared() {
    let fb = Framebuffer::new(4, 3);
    assert_eq!(fb.len(), 12);
    for y in 0..3 {
        for x in 0..4 {
            assert_eq!(fb.get_pixel(x, y), rgba(0, 0, 0, 0));
        }
    }
}

#[test]
fn quad_has_six_vertices_scaled() {
    let q = full_screen_quad();
    assert_eq!(q.len(), 6);
    let q = scaled_quad(512, FP_ONE);
    assert_eq!(q.len(), 6);
    for v in &q {
        assert!(v.position[0] == 512 || v.position[0] == -512);
        assert!(v.position[1] == FP_ONE || v.position[1] == -FP_ONE);
    }
}

#[test]
fn letterbox_scales_for_wide_target() {
    // A 128x128 virtual image on a 256x128 surface: one axis fills exactly,
    // the other is scaled by the virtual aspect over the target aspect (1/2).
    let (sx, sy) = compute_dim_scales(128, 128, 256, 128);
    assert_eq!(sy.num, sy.den);
    assert_eq!(sx.num * 2, sx.den);
}

#[test]
fn letterbox_scales_for_tall_target() {
    let (sx, sy) = compute_dim_scales(128, 128, 128, 256);
    assert_eq!(sx.num, sx.den);
    assert_eq!(sy.num * 2, sy.den);
}

#[test]
fn letterbox_scales_for_matching_target() {
    let (sx, sy) = compute_dim_scales(128, 128, 512, 512);
    assert_eq!(sx.num, sx.den);
    assert_eq!(sy.num, sy.den);
}

#[test]
fn upscale_letterboxes_wide_target() {
    let mut program = LumenpyxProgram::new(4, 2);
    let image = filled(2, 2, rgba(90, 10, 20, 255));
    draw_upscale(&image, &mut program).unwrap();
    let screen = program.screen();
    // the left and right columns are the black bars
    assert_eq!(screen.get_pixel(0, 0), rgba(0, 0, 0, 0));
    assert_eq!(screen.get_pixel(3, 1), rgba(0, 0, 0, 0));
    // the middle columns show the image
    assert_eq!(screen.get_pixel(1, 0), rgba(90, 10, 20, 255));
    assert_eq!(screen.get_pixel(2, 1), rgba(90, 10, 20, 255));
}

#[test]
fn fill_alpha_fills_only_transparent_texels() {
    let program = LumenpyxProgram::new(4, 4);
    let mut src = Framebuffer::new(2, 1);
    src.set_pixels(vec![rgba(0, 0, 0, 0), rgba(0, 0, 200, 255)]);
    let mut target = Framebuffer::new(2, 1);
    draw_fill_alpha(&mut target, &program, &src, rgba(255, 0, 0, 255)).unwrap();
    assert_eq!(target.get_pixel(0, 0), rgba(255, 0, 0, 255));
    assert_eq!(target.get_pixel(1, 0), rgba(0, 0, 200, 255));
}

#[test]
fn faster_clear_errs_until_registered() {
    let mut program = LumenpyxProgram::new(4, 4);
    let mut fb = Framebuffer::new(2, 2);
    let missing = faster_clear_color(&mut fb, rgba(9, 9, 9, 255), &program);
    assert_eq!(missing, Err(RenderError::MissingShader));
    assert_eq!(fb.get_pixel(0, 0), rgba(0, 0, 0, 0));
    let shader = program.compile_program();
    program.add_shader(shader, "faster_clear_color_shader");
    faster_clear_color(&mut fb, rgba(9, 9, 9, 255), &program).unwrap();
    for y in 0..2 {
        for x in 0..2 {
            assert_eq!(fb.get_pixel(x, y), rgba(9, 9, 9, 255));
        }
    }
}

#[test]
fn recieve_shadows_blends_frames() {
    let program = LumenpyxProgram::new(4, 4);
    let last = filled(2, 1, rgba(100, 0, 0, 255));
    let this = filled(2, 1, rgba(200, 0, 0, 255));
    let mut out = Framebuffer::new(2, 1);
    draw_recieve_shadows(&mut out, &program, 0, &last, &this).unwrap();
    assert_eq!(out.get_pixel(0, 0), rgba(100, 0, 0, 255));
    draw_recieve_shadows(&mut out, &program, 255, &last, &this).unwrap();
    assert_eq!(out.get_pixel(0, 0), rgba(200, 0, 0, 255));
    draw_recieve_shadows(&mut out, &program, 128, &last, &this).unwrap();
    assert_eq!(out.get_pixel(1, 0).r, 150);
}

#[test]
fn generate_normals_flat_field_points_outward() {
    let program = LumenpyxProgram::new(4, 4);
    let height = filled(3, 3, rgba(77, 77, 77, 255));
    let albedo = filled(3, 3, rgba(10, 10, 10, 255));
    let mut out = Framebuffer::new(3, 3);
    draw_generate_normals(&program, &height, &albedo, &mut out).unwrap();
    // a flat height field has no slope anywhere: 128 encodes zero
    assert_eq!(out.get_pixel(1, 1), rgba(128, 128, 255, 255));
}

#[test]
fn generate_normals_skips_uncovered_texels() {
    let program = LumenpyxProgram::new(4, 4);
    let height = filled(2, 2, rgba(50, 50, 50, 255));
    let albedo = Framebuffer::new(2, 2);
    let mut out = Framebuffer::new(2, 2);
    draw_generate_normals(&program, &height, &albedo, &mut out).unwrap();
    assert_eq!(out.get_pixel(0, 0), rgba(0, 0, 0, 0));
}

#[test]
fn reflections_blend_by_roughness() {
    let program = LumenpyxProgram::new(4, 4);
    let mut lit = Framebuffer::new(2, 2);
    lit.set_pixels(vec![
        rgba(11, 22, 33, 255),
        rgba(44, 55, 66, 255),
        rgba(77, 88, 99, 255),
        rgba(12, 13, 14, 255),
    ]);
    // full height pushes the reflected sample one row up from row 1 to row 0
    let height = filled(2, 2, rgba(255, 255, 255, 255));
    let normal = filled(2, 2, rgba(128, 128, 255, 255));
    // at roughness 0 the output is exactly the reflection sample
    let rough = filled(2, 2, rgba(0, 0, 0, 255));
    let mut out = Framebuffer::new(2, 2);
    draw_reflections(&lit, &height, &rough, &normal, &mut out, &program, 0).unwrap();
    assert_eq!(out.get_pixel(0, 1), rgba(11, 22, 33, 255));
    // at roughness 255 the output is exactly the unreflected lit texel
    let rough = filled(2, 2, rgba(255, 0, 0, 255));
    draw_reflections(&lit, &height, &rough, &normal, &mut out, &program, 0).unwrap();
    assert_eq!(out.get_pixel(0, 1), rgba(77, 88, 99, 255));
}
