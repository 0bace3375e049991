//! The capability every scene object satisfies: provision its shaders, and
//! emit its contributions into the four G-buffer targets.

use vstd::prelude::*;

use crate::LumenpyxProgram;
use crate::color::Color;
use crate::framebuffer::Framebuffer;
use crate::registry::ShaderProgram;

verus! {

/// A scene object that the pipeline can render. Its spec functions describe,
/// per target, what its draw writes; its two methods are the provisioning
/// and emission steps the orchestrator sequences.
pub trait Drawable: Sized {
    /// The object's parameters are valid for rasterization.
    spec fn wf(&self) -> bool;

    /// Every shader name this object draws with is registered in `m`.
    spec fn shaders_loaded(&self, m: Map<Seq<char>, ShaderProgram>) -> bool;

    /// The registry and handle counter after provisioning this object.
    spec fn provision(&self, m: Map<Seq<char>, ShaderProgram>, next: u64) -> (
        Map<Seq<char>, ShaderProgram>,
        u64,
    );

    /// The albedo target after this object's draw.
    spec fn albedo_after(&self, fb: Seq<Color>, w: int, h: int) -> Seq<Color>;

    /// The height target after this object's draw.
    spec fn height_after(&self, fb: Seq<Color>, w: int, h: int) -> Seq<Color>;

    /// The roughness target after this object's draw.
    spec fn roughness_after(&self, fb: Seq<Color>, w: int, h: int) -> Seq<Color>;

    /// The normal target after this object's draw.
    spec fn normal_after(&self, fb: Seq<Color>, w: int, h: int) -> Seq<Color>;

    /// Each contribution covers exactly the target it was handed.
    proof fn lemma_after_len(&self, fb: Seq<Color>, w: int, h: int)
        ensures
            self.albedo_after(fb, w, h).len() == fb.len(),
            self.height_after(fb, w, h).len() == fb.len(),
            self.roughness_after(fb, w, h).len() == fb.len(),
            self.normal_after(fb, w, h).len() == fb.len(),
    ;

    /// Loadedness asks only which names are registered, never which handles
    /// stand under them, so it survives registry growth.
    proof fn lemma_loaded_monotone(
        &self,
        m1: Map<Seq<char>, ShaderProgram>,
        m2: Map<Seq<char>, ShaderProgram>,
    )
        requires
            self.shaders_loaded(m1),
            forall|k: Seq<char>| #[trigger] m1.contains_key(k) ==> m2.contains_key(k),
        ensures
            self.shaders_loaded(m2),
    ;

    /// Check the registry for this object's shaders by name; compile and
    /// register whatever is absent. Safe to call every frame: once loaded it
    /// changes nothing, and it never disturbs another entry.
    fn try_load_shaders(&self, program: &mut LumenpyxProgram)
        requires
            old(program).wf(),
        ensures
            final(program).wf(),
            (final(program).shaders(), final(program).next_id()) == self.provision(
                old(program).shaders(),
                old(program).next_id(),
            ),
            self.shaders_loaded(final(program).shaders()),
            forall|k: Seq<char>| #[trigger] old(program).shaders().contains_key(k)
                ==> final(program).shaders().contains_key(k)
                    && final(program).shaders()[k] == old(program).shaders()[k],
            final(program).screen_view() == old(program).screen_view(),
            final(program).screen_width_spec() == old(program).screen_width_spec(),
            final(program).screen_height_spec() == old(program).screen_height_spec(),
            final(program).lighting_shader_spec() == old(program).lighting_shader_spec(),
            final(program).reflection_shader_spec() == old(program).reflection_shader_spec(),
            final(program).upscale_shader_spec() == old(program).upscale_shader_spec(),
    ;

    /// Write this object's contributions into the four G-buffer targets. A
    /// target the object leaves untouched keeps its contents, so cleared
    /// regions stay at the cleared value.
    fn draw(
        &self,
        program: &LumenpyxProgram,
        albedo_framebuffer: &mut Framebuffer,
        height_framebuffer: &mut Framebuffer,
        roughness_framebuffer: &mut Framebuffer,
        normal_framebuffer: &mut Framebuffer,
    )
        requires
            self.wf(),
            program.wf(),
            self.shaders_loaded(program.shaders()),
            old(albedo_framebuffer).wf(),
            old(height_framebuffer).wf(),
            old(roughness_framebuffer).wf(),
            old(normal_framebuffer).wf(),
            old(height_framebuffer).width_spec() == old(albedo_framebuffer).width_spec(),
            old(height_framebuffer).height_spec() == old(albedo_framebuffer).height_spec(),
            old(roughness_framebuffer).width_spec() == old(albedo_framebuffer).width_spec(),
            old(roughness_framebuffer).height_spec() == old(albedo_framebuffer).height_spec(),
            old(normal_framebuffer).width_spec() == old(albedo_framebuffer).width_spec(),
            old(normal_framebuffer).height_spec() == old(albedo_framebuffer).height_spec(),
        ensures
            final(albedo_framebuffer).wf(),
            final(albedo_framebuffer).width_spec() == old(albedo_framebuffer).width_spec(),
            final(albedo_framebuffer).height_spec() == old(albedo_framebuffer).height_spec(),
            final(height_framebuffer).wf(),
            final(height_framebuffer).width_spec() == old(height_framebuffer).width_spec(),
            final(height_framebuffer).height_spec() == old(height_framebuffer).height_spec(),
            final(roughness_framebuffer).wf(),
            final(roughness_framebuffer).width_spec() == old(roughness_framebuffer).width_spec(),
            final(roughness_framebuffer).height_spec() == old(roughness_framebuffer).height_spec(),
            final(normal_framebuffer).wf(),
            final(normal_framebuffer).width_spec() == old(normal_framebuffer).width_spec(),
            final(normal_framebuffer).height_spec() == old(normal_framebuffer).height_spec(),
            final(albedo_framebuffer)@ == self.albedo_after(
                old(albedo_framebuffer)@,
                old(albedo_framebuffer).width_spec() as int,
                old(albedo_framebuffer).height_spec() as int,
            ),
            final(height_framebuffer)@ == self.height_after(
                old(height_framebuffer)@,
                old(albedo_framebuffer).width_spec() as int,
                old(albedo_framebuffer).height_spec() as int,
            ),
            final(roughness_framebuffer)@ == self.roughness_after(
                old(roughness_framebuffer)@,
                old(albedo_framebuffer).width_spec() as int,
                old(albedo_framebuffer).height_spec() as int,
            ),
            final(normal_framebuffer)@ == self.normal_after(
                old(normal_framebuffer)@,
                old(albedo_framebuffer).width_spec() as int,
                old(albedo_framebuffer).height_spec() as int,
            ),
    ;
}

/// The registry and handle counter after provisioning every drawable, in
/// caller-supplied order.
pub open spec fn provision_fold<T: Drawable>(
    ds: Seq<&T>,
    m: Map<Seq<char>, ShaderProgram>,
    next: u64,
) -> (Map<Seq<char>, ShaderProgram>, u64)
    decreases ds.len(),
{
    if ds.len() == 0 {
        (m, next)
    } else {
        let prev = provision_fold(ds.drop_last(), m, next);
        ds.last().provision(prev.0, prev.1)
    }
}

/// The albedo target after every drawable has drawn, in caller-supplied
/// order, starting from `fb`.
pub open spec fn albedo_fold<T: Drawable>(ds: Seq<&T>, fb: Seq<Color>, w: int, h: int) -> Seq<
    Color,
>
    decreases ds.len(),
{
    if ds.len() == 0 {
        fb
    } else {
        ds.last().albedo_after(albedo_fold(ds.drop_last(), fb, w, h), w, h)
    }
}

/// The height target after every drawable has drawn.
pub open spec fn height_fold<T: Drawable>(ds: Seq<&T>, fb: Seq<Color>, w: int, h: int) -> Seq<
    Color,
>
    decreases ds.len(),
{
    if ds.len() == 0 {
        fb
    } else {
        ds.last().height_after(height_fold(ds.drop_last(), fb, w, h), w, h)
    }
}

/// The roughness target after every drawable has drawn.
pub open spec fn roughness_fold<T: Drawable>(ds: Seq<&T>, fb: Seq<Color>, w: int, h: int) -> Seq<
    Color,
>
    decreases ds.len(),
{
    if ds.len() == 0 {
        fb
    } else {
        ds.last().roughness_after(roughness_fold(ds.drop_last(), fb, w, h), w, h)
    }
}

/// The normal target after every drawable has drawn.
pub open spec fn normal_fold<T: Drawable>(ds: Seq<&T>, fb: Seq<Color>, w: int, h: int) -> Seq<
    Color,
>
    decreases ds.len(),
{
    if ds.len() == 0 {
        fb
    } else {
        ds.last().normal_after(normal_fold(ds.drop_last(), fb, w, h), w, h)
    }
}

} // verus!
