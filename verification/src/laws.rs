//! Pipeline laws: properties of the renderer that hold for every scene, each
//! proved against the contracts of the passes.

use vstd::prelude::*;

use crate::Light;
use crate::color::{Color, lemma_add_color_exchange, lemma_mix_color_endpoints};
use crate::drawable::{Drawable, height_fold, normal_fold, roughness_fold};
use crate::framebuffer::cleared_seq;
use crate::primitives::{Circle, Sphere};
use crate::registry::ShaderProgram;
use crate::shaders::{apply_light_spec, lights_fold, reflect_pixel, ssr_index};
use crate::{VIRTUAL_HEIGHT, VIRTUAL_WIDTH, gbuffer_height, gbuffer_normal, gbuffer_roughness};

verus! {

/// A drawable that writes only the albedo target: its height, roughness and
/// normal contributions leave any buffer exactly as they found it.
pub open spec fn writes_only_albedo<T: Drawable>(d: &T) -> bool {
    &&& forall|fb: Seq<Color>, w: int, h: int| #[trigger] d.height_after(fb, w, h) == fb
    &&& forall|fb: Seq<Color>, w: int, h: int| #[trigger] d.roughness_after(fb, w, h) == fb
    &&& forall|fb: Seq<Color>, w: int, h: int| #[trigger] d.normal_after(fb, w, h) == fb
}

/// A circle writes only the albedo target.
pub proof fn lemma_circle_writes_only_albedo(c: &Circle)
    ensures
        writes_only_albedo(c),
{
}

/// When every drawable writes only the albedo target, the G-buffer pass
/// leaves the height, roughness and normal targets at the value they
/// started from.
pub proof fn lemma_albedo_only_folds<T: Drawable>(ds: Seq<&T>, init: Seq<Color>, w: int, h: int)
    requires
        forall|i: int| 0 <= i < ds.len() ==> writes_only_albedo(#[trigger] ds[i]),
    ensures
        height_fold(ds, init, w, h) == init,
        roughness_fold(ds, init, w, h) == init,
        normal_fold(ds, init, w, h) == init,
    decreases ds.len(),
{
    if ds.len() > 0 {
        lemma_albedo_only_folds(ds.drop_last(), init, w, h);
        assert(writes_only_albedo(ds[ds.len() - 1]));
        assert(ds.last() == ds[ds.len() - 1]);
    }
}

/// For a scene of drawables that write only to the albedo target, the
/// height, roughness and normal targets after the G-buffer pass equal their
/// cleared, transparent-black initial value.
pub proof fn lemma_albedo_only_targets_stay_cleared<T: Drawable>(ds: Seq<&T>)
    requires
        forall|i: int| 0 <= i < ds.len() ==> writes_only_albedo(#[trigger] ds[i]),
    ensures
        gbuffer_height(ds) == cleared_seq(VIRTUAL_WIDTH as int * VIRTUAL_HEIGHT as int),
        gbuffer_roughness(ds) == cleared_seq(VIRTUAL_WIDTH as int * VIRTUAL_HEIGHT as int),
        gbuffer_normal(ds) == cleared_seq(VIRTUAL_WIDTH as int * VIRTUAL_HEIGHT as int),
{
    lemma_albedo_only_folds(
        ds,
        cleared_seq(VIRTUAL_WIDTH as int * VIRTUAL_HEIGHT as int),
        VIRTUAL_WIDTH as int,
        VIRTUAL_HEIGHT as int,
    );
}

/// Accumulating two lights onto a lit target in either order gives the same
/// target: additive blending of the two contributions commutes per texel.
proof fn lemma_apply_light_exchange(
    a: &Light,
    b: &Light,
    alb: Seq<Color>,
    hgt: Seq<Color>,
    cur: Seq<Color>,
    w: int,
    h: int,
)
    ensures
        apply_light_spec(*b, alb, hgt, apply_light_spec(*a, alb, hgt, cur, w, h), w, h)
            == apply_light_spec(*a, alb, hgt, apply_light_spec(*b, alb, hgt, cur, w, h), w, h),
{
    let ab = apply_light_spec(*b, alb, hgt, apply_light_spec(*a, alb, hgt, cur, w, h), w, h);
    let ba = apply_light_spec(*a, alb, hgt, apply_light_spec(*b, alb, hgt, cur, w, h), w, h);
    assert forall|i: int| 0 <= i < cur.len() implies ab[i] == ba[i] by {
        lemma_add_color_exchange(
            cur[i],
            crate::shaders::light_contrib(*a, alb[i], hgt[i], w, h, i),
            crate::shaders::light_contrib(*b, alb[i], hgt[i], w, h, i),
        );
    }
    assert(ab =~= ba);
}

/// Lighting accumulation is order-independent: rendering the lights
/// `[.., a, b]` accumulates to the same lit target as `[.., b, a]`, for any
/// fixed albedo and height buffers (saturating additive blending commutes).
pub proof fn lemma_lighting_order_independent(
    ls: Seq<&Light>,
    a: &Light,
    b: &Light,
    alb: Seq<Color>,
    hgt: Seq<Color>,
    cur: Seq<Color>,
    w: int,
    h: int,
)
    ensures
        lights_fold(ls.push(a).push(b), alb, hgt, cur, w, h) == lights_fold(
            ls.push(b).push(a),
            alb,
            hgt,
            cur,
            w,
            h,
        ),
{
    assert(ls.push(a).push(b).drop_last() =~= ls.push(a));
    assert(ls.push(b).push(a).drop_last() =~= ls.push(b));
    assert(ls.push(a).drop_last() =~= ls);
    assert(ls.push(b).drop_last() =~= ls);
    assert(ls.push(a).push(b).last() == b);
    assert(ls.push(b).push(a).last() == a);
    assert(ls.push(a).last() == a);
    assert(ls.push(b).last() == b);
    let base = lights_fold(ls, alb, hgt, cur, w, h);
    assert(lights_fold(ls.push(a), alb, hgt, cur, w, h) == apply_light_spec(
        *a,
        alb,
        hgt,
        base,
        w,
        h,
    ));
    assert(lights_fold(ls.push(b), alb, hgt, cur, w, h) == apply_light_spec(
        *b,
        alb,
        hgt,
        base,
        w,
        h,
    ));
    assert(lights_fold(ls.push(a).push(b), alb, hgt, cur, w, h) == apply_light_spec(
        *b,
        alb,
        hgt,
        lights_fold(ls.push(a), alb, hgt, cur, w, h),
        w,
        h,
    ));
    assert(lights_fold(ls.push(b).push(a), alb, hgt, cur, w, h) == apply_light_spec(
        *a,
        alb,
        hgt,
        lights_fold(ls.push(b), alb, hgt, cur, w, h),
        w,
        h,
    ));
    lemma_apply_light_exchange(a, b, alb, hgt, base, w, h);
}

/// Shader provisioning is idempotent for a circle: provisioning a registry
/// that was already provisioned changes neither the registry nor the handle
/// counter, so each shader name keeps exactly one entry.
pub proof fn lemma_circle_provision_idempotent(
    c: &Circle,
    m: Map<Seq<char>, ShaderProgram>,
    next: u64,
)
    ensures
        ({
            let once = c.provision(m, next);
            c.provision(once.0, once.1) == once
        }),
{
}

/// Shader provisioning is idempotent for a sphere.
pub proof fn lemma_sphere_provision_idempotent(
    s: &Sphere,
    m: Map<Seq<char>, ShaderProgram>,
    next: u64,
)
    ensures
        ({
            let once = s.provision(m, next);
            s.provision(once.0, once.1) == once
        }),
{
}

/// The exact blend-law endpoints of the reflection pass: at roughness 0 the
/// output texel equals the screen-space reflection sample, at roughness 255
/// (a roughness of one) it equals the unreflected lit texel.
pub proof fn lemma_reflection_blend_endpoints(
    lit: Seq<Color>,
    hgt: Seq<Color>,
    rough: Seq<Color>,
    nrm: Seq<Color>,
    camera_z: int,
    w: int,
    h: int,
    i: int,
)
    ensures
        rough[i].r == 0 ==> reflect_pixel(lit, hgt, rough, nrm, camera_z, w, h, i) == lit[ssr_index(
            hgt,
            nrm,
            camera_z,
            w,
            h,
            i,
        )],
        rough[i].r == 255 ==> reflect_pixel(lit, hgt, rough, nrm, camera_z, w, h, i) == lit[i],
{
    lemma_mix_color_endpoints(lit[ssr_index(hgt, nrm, camera_z, w, h, i)], lit[i]);
}

} // verus!
