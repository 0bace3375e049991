use lumenpyx::color::Color;
use lumenpyx::drawable::Drawable;
use lumenpyx::framebuffer::Framebuffer;
use lumenpyx::primitives::{draw_circle, draw_sphere, Circle, Sphere};
use lumenpyx::shaders::draw_lighting;
use lumenpyx::{draw_all, Light, LumenpyxProgram, RenderError, Transform, FP_ONE};

fn rgba(r: u8, g: u8, b: u8, a: u8) -> Color {
    Color { r, g, b, a }
}

fn white_light_above() -> Light {
    Light::new([0, 0, FP_ONE], [255, 255, 255], FP_ONE, 0)
}

fn provision_circle(program: &mut LumenpyxProgram) {
    let shader = program.compile_program();
    program.add_shader(shader, "circle_ahr_shader");
}

fn provision_sphere(program: &mut LumenpyxProgram) {
    provision_circle(program);
    let shader = program.compile_program();
    program.add_shader(shader, "sphere_height_shader");
    let shader = program.compile_program();
    program.add_shader(shader, "sphere_normal_shader");
}

#[test]
fn transform_setters_overwrite_cells() {
    let mut t = Transform::new();
    t.translate(10, 20, 30);
    t.scale(2048, 512, FP_ONE);
    t.set_x(-5);
    t.set_z(7);
    let m = t.matrix();
    assert_eq!(m[0][0], 2048);
    assert_eq!(m[1][1], 512);
    assert_eq!(m[2][2], FP_ONE);
    assert_eq!(m[3], [-5, 20, 7, FP_ONE]);
    assert_eq!(m[0][1], 0);
}

#[test]
fn light_setters_overwrite_fields() {
    let mut l = Light::new([1, 2, 3], [4, 5, 6], 7, 8);
    assert_eq!(l.get_position(), [1, 2, 3]);
    l.set_position(-1, -2, -3);
    assert_eq!(l.get_position(), [-1, -2, -3]);
    l.set_color(9, 10, 11);
    l.set_intensity(12);
    l.set_falloff(13);
    assert_eq!(l.get_position(), [-1, -2, -3]);
}

#[test]
fn registry_stores_and_returns_handles() {
    let mut program = LumenpyxProgram::new(8, 8);
    assert!(program.get_shader("nothing_here").is_none());
    let first = program.compile_program();
    program.add_shader(first, "custom_shader");
    let looked_up = *program.get_shader("custom_shader").unwrap();
    assert_eq!(looked_up, first);
    // re-registration under the same name overwrites the entry
    let second = program.compile_program();
    program.add_shader(second, "custom_shader");
    let looked_up = *program.get_shader("custom_shader").unwrap();
    assert_eq!(looked_up, second);
    assert_ne!(first, second);
}

#[test]
fn new_program_registers_system_shaders() {
    let program = LumenpyxProgram::new(8, 8);
    for name in [
        "recieve_shadows_shader",
        "sprite_shader",
        "generate_normals_shader",
        "upscale_shader",
        "reflection_shader",
        "fill_alpha",
    ] {
        assert!(program.get_shader(name).is_some());
    }
    assert!(program.get_shader("circle_ahr_shader").is_none());
}

#[test]
fn circle_provisioning_is_idempotent() {
    let mut program = LumenpyxProgram::new(8, 8);
    let circle = Circle::new(rgba(255, 0, 0, 255), 512, Transform::new());
    circle.try_load_shaders(&mut program);
    let first = *program.get_shader("circle_ahr_shader").unwrap();
    circle.try_load_shaders(&mut program);
    let second = *program.get_shader("circle_ahr_shader").unwrap();
    assert_eq!(first, second);
}

#[test]
fn sphere_provisioning_is_idempotent() {
    let mut program = LumenpyxProgram::new(8, 8);
    let sphere = Sphere::new(rgba(255, 0, 0, 255), 512, Transform::new());
    sphere.try_load_shaders(&mut program);
    let h1 = *program.get_shader("sphere_height_shader").unwrap();
    let n1 = *program.get_shader("sphere_normal_shader").unwrap();
    sphere.try_load_shaders(&mut program);
    assert_eq!(*program.get_shader("sphere_height_shader").unwrap(), h1);
    assert_eq!(*program.get_shader("sphere_normal_shader").unwrap(), n1);
}

#[test]
fn circle_errs_without_its_shader() {
    let program = LumenpyxProgram::new(8, 8);
    let mut fb = Framebuffer::new(16, 16);
    let r = draw_circle(rgba(255, 0, 0, 255), 512, Transform::new(), &program, &mut fb);
    assert_eq!(r, Err(RenderError::MissingShader));
    assert_eq!(fb.get_pixel(8, 8), rgba(0, 0, 0, 0));
}

#[test]
fn circle_covers_center_not_corner() {
    let mut program = LumenpyxProgram::new(8, 8);
    provision_circle(&mut program);
    let mut fb = Framebuffer::new(16, 16);
    draw_circle(rgba(200, 0, 0, 255), 512, Transform::new(), &program, &mut fb).unwrap();
    assert_eq!(fb.get_pixel(8, 8), rgba(200, 0, 0, 255));
    assert_eq!(fb.get_pixel(0, 0), rgba(0, 0, 0, 0));
    assert_eq!(fb.get_pixel(15, 15), rgba(0, 0, 0, 0));
}

#[test]
fn circle_composites_over_earlier_draws() {
    let mut program = LumenpyxProgram::new(8, 8);
    provision_circle(&mut program);
    let mut fb = Framebuffer::new(16, 16);
    draw_circle(rgba(200, 0, 0, 255), 700, Transform::new(), &program, &mut fb).unwrap();
    // a later opaque draw occludes the earlier one where it covers
    draw_circle(rgba(0, 200, 0, 255), 400, Transform::new(), &program, &mut fb).unwrap();
    assert_eq!(fb.get_pixel(8, 8), rgba(0, 200, 0, 255));
}

#[test]
fn sphere_writes_height_and_normal() {
    let mut program = LumenpyxProgram::new(8, 8);
    provision_sphere(&mut program);
    let mut albedo = Framebuffer::new(16, 16);
    let mut height = Framebuffer::new(16, 16);
    let mut normal = Framebuffer::new(16, 16);
    draw_sphere(
        rgba(10, 20, 30, 255),
        512,
        Transform::new(),
        &program,
        &mut albedo,
        &mut height,
        &mut normal,
    )
    .unwrap();
    assert_eq!(albedo.get_pixel(8, 8), rgba(10, 20, 30, 255));
    // at the texel just right and below the center the apex height profile
    // is still close to the radius: 255 * isqrt(b*b - q) / b == 250 there
    assert_eq!(height.get_pixel(8, 8), rgba(250, 250, 250, 255));
    // the offsets map through (d + r) * 127 / r: (64 + 512) * 127 / 512 == 142
    assert_eq!(normal.get_pixel(8, 8), rgba(142, 142, 250, 255));
    // untouched outside the silhouette
    assert_eq!(height.get_pixel(0, 0), rgba(0, 0, 0, 0));
    assert_eq!(normal.get_pixel(0, 0), rgba(0, 0, 0, 0));
}

#[test]
fn lighting_full_intensity_recovers_albedo() {
    let program = LumenpyxProgram::new(8, 8);
    let mut albedo = Framebuffer::new(1, 1);
    albedo.set_pixels(vec![rgba(255, 0, 0, 255)]);
    let height = Framebuffer::new(1, 1);
    let mut lit = Framebuffer::new(1, 1);
    let light = white_light_above();
    draw_lighting(&albedo, &height, &light, &program, &mut lit);
    assert_eq!(lit.get_pixel(0, 0), rgba(255, 0, 0, 255));
}

#[test]
fn lighting_skips_uncovered_texels() {
    let program = LumenpyxProgram::new(8, 8);
    let albedo = Framebuffer::new(2, 2);
    let height = Framebuffer::new(2, 2);
    let mut lit = Framebuffer::new(2, 2);
    let light = white_light_above();
    draw_lighting(&albedo, &height, &light, &program, &mut lit);
    assert_eq!(lit.get_pixel(0, 0), rgba(0, 0, 0, 0));
    assert_eq!(lit.get_pixel(1, 1), rgba(0, 0, 0, 0));
}

#[test]
fn lighting_order_does_not_change_the_sum() {
    let program = LumenpyxProgram::new(8, 8);
    let mut albedo = Framebuffer::new(2, 1);
    albedo.set_pixels(vec![rgba(200, 120, 40, 255), rgba(90, 90, 90, 255)]);
    let height = Framebuffer::new(2, 1);
    let a = Light::new([FP_ONE / 2, 0, FP_ONE], [255, 120, 30], FP_ONE, 64);
    let b = Light::new([-FP_ONE / 2, 0, FP_ONE / 2], [40, 200, 99], FP_ONE / 2, 128);

    let mut lit_ab = Framebuffer::new(2, 1);
    draw_lighting(&albedo, &height, &a, &program, &mut lit_ab);
    draw_lighting(&albedo, &height, &b, &program, &mut lit_ab);

    let mut lit_ba = Framebuffer::new(2, 1);
    draw_lighting(&albedo, &height, &b, &program, &mut lit_ba);
    draw_lighting(&albedo, &height, &a, &program, &mut lit_ba);

    for x in 0..2 {
        assert_eq!(lit_ab.get_pixel(x, 0), lit_ba.get_pixel(x, 0));
    }
}

#[test]
fn circle_leaves_other_targets_cleared() {
    // a drawable that writes only albedo leaves height, roughness and normal
    // at their cleared value through a whole G-buffer pass
    let mut program = LumenpyxProgram::new(8, 8);
    let circle = Circle::new(rgba(255, 0, 0, 255), 512, Transform::new());
    circle.try_load_shaders(&mut program);
    let mut albedo = Framebuffer::new(16, 16);
    let mut height = Framebuffer::new(16, 16);
    let mut roughness = Framebuffer::new(16, 16);
    let mut normal = Framebuffer::new(16, 16);
    circle.draw(&program, &mut albedo, &mut height, &mut roughness, &mut normal);
    for y in 0..16 {
        for x in 0..16 {
            assert_eq!(height.get_pixel(x, y), rgba(0, 0, 0, 0));
            assert_eq!(roughness.get_pixel(x, y), rgba(0, 0, 0, 0));
            assert_eq!(normal.get_pixel(x, y), rgba(0, 0, 0, 0));
        }
    }
    assert_eq!(albedo.get_pixel(8, 8), rgba(255, 0, 0, 255));
}

#[test]
fn frame_renders_lit_disc_with_letterbox_bars() {
    // one red circle (radius one half, identity transform) and one white
    // light above it, on a surface twice as wide as the virtual image
    let mut program = LumenpyxProgram::new(256, 128);
    let circle = Circle::new(rgba(255, 0, 0, 255), 512, Transform::new());
    let light = white_light_above();
    draw_all(vec![&light], vec![&circle], &mut program).unwrap();
    let screen = program.screen();
    // the disc center is lit fully red and opaque: a white light of
    // intensity one with no falloff returns the albedo exactly
    assert_eq!(screen.get_pixel(128, 64), rgba(255, 0, 0, 255));
    // the disc has the expected radius: half the virtual extent, centered
    assert!(screen.get_pixel(100, 64).r > 0);
    assert_eq!(screen.get_pixel(90, 64), rgba(0, 0, 0, 0));
    // the letterbox bars cover the left and right quarters
    assert_eq!(screen.get_pixel(10, 64), rgba(0, 0, 0, 0));
    assert_eq!(screen.get_pixel(63, 64), rgba(0, 0, 0, 0));
    assert_eq!(screen.get_pixel(250, 64), rgba(0, 0, 0, 0));
    // outside the disc but inside the image, the surface is unlit black
    assert_eq!(screen.get_pixel(70, 5), rgba(0, 0, 0, 0));
}

#[test]
fn frame_rendering_is_repeatable() {
    let mut program = LumenpyxProgram::new(64, 64);
    let circle = Circle::new(rgba(0, 0, 255, 255), 512, Transform::new());
    let light = white_light_above();
    draw_all(vec![&light], vec![&circle], &mut program).unwrap();
    let first = program.screen().get_pixel(32, 32);
    draw_all(vec![&light], vec![&circle], &mut program).unwrap();
    let second = program.screen().get_pixel(32, 32);
    assert_eq!(first, second);
}
