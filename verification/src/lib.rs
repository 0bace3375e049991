//! A 2D deferred-lighting renderer modelled over fixed-point integers.
//!
//! Scene objects are rasterized into four attribute buffers (albedo, height,
//! roughness, normal) at a fixed virtual resolution, then composited through
//! lighting, reflection and upscale passes into the final surface. Scalars
//! (transform cells, light parameters, radii) are fixed-point integers with
//! `FP_ONE` sub-units per whole unit; texels are 8-bit RGBA.

use vstd::prelude::*;

pub mod arith;
pub mod color;
pub mod drawable;
pub mod framebuffer;
pub mod laws;
pub mod primitives;
pub mod registry;
pub mod shaders;

use crate::color::Color;
use crate::framebuffer::{Framebuffer, MAX_TARGET_EXTENT, cleared_seq};
use crate::registry::{ShaderProgram, table_view, table_new, table_insert, table_get};

verus! {

/// One fixed-point unit: fixed-point scalars carry this many sub-units per 1.0.
pub const FP_ONE: i64 = 1024;

/// The largest magnitude a fixed-point scene scalar (a transform cell, a
/// light parameter, a radius) may have: sixteen whole units.
pub const FP_MAX: i64 = 16384;

/// The virtual render width: every attribute buffer is this many texels wide,
/// independent of the display surface.
pub const VIRTUAL_WIDTH: u32 = 128;

/// The virtual render height.
pub const VIRTUAL_HEIGHT: u32 = 128;

/// Why a draw was refused. A missing shader is a provisioning error: the
/// drawable or pass asked the registry for a name that was never registered.
#[derive(Clone, Copy, PartialEq, Eq, Structural, Debug)]
pub enum RenderError {
    MissingShader,
}

/// A 4x4 row-major affine matrix, reduced to its live cells: the scale
/// diagonal and the translation row. Mutators overwrite cells directly; no
/// composition of transforms is supported.
#[derive(Clone, Copy, PartialEq, Eq, Structural, Debug)]
pub struct Transform {
    pub(crate) sx: i64,
    pub(crate) sy: i64,
    pub(crate) sz: i64,
    pub(crate) tx: i64,
    pub(crate) ty: i64,
    pub(crate) tz: i64,
}

impl Transform {
    /// The scale cell of the x axis (matrix cell 0,0), fixed-point.
    pub closed spec fn scale_x(&self) -> i64 {
        self.sx
    }

    /// The scale cell of the y axis (matrix cell 1,1), fixed-point.
    pub closed spec fn scale_y(&self) -> i64 {
        self.sy
    }

    /// The scale cell of the z axis (matrix cell 2,2), fixed-point.
    pub closed spec fn scale_z(&self) -> i64 {
        self.sz
    }

    /// The x translation cell (matrix cell 3,0), fixed-point.
    pub closed spec fn x(&self) -> i64 {
        self.tx
    }

    /// The y translation cell (matrix cell 3,1), fixed-point.
    pub closed spec fn y(&self) -> i64 {
        self.ty
    }

    /// The z translation cell (matrix cell 3,2), fixed-point.
    pub closed spec fn z(&self) -> i64 {
        self.tz
    }

    /// Well-formed: every live cell within the scene scalar bound.
    pub open spec fn wf(&self) -> bool {
        &&& -FP_MAX <= self.scale_x() <= FP_MAX
        &&& -FP_MAX <= self.scale_y() <= FP_MAX
        &&& -FP_MAX <= self.scale_z() <= FP_MAX
        &&& -FP_MAX <= self.x() <= FP_MAX
        &&& -FP_MAX <= self.y() <= FP_MAX
        &&& -FP_MAX <= self.z() <= FP_MAX
    }

    /// The identity transform: unit scale, zero translation.
    pub fn new() -> (t: Transform)
        ensures
            t.wf(),
            t.scale_x() == FP_ONE,
            t.scale_y() == FP_ONE,
            t.scale_z() == FP_ONE,
            t.x() == 0,
            t.y() == 0,
            t.z() == 0,
    {
        Transform { sx: FP_ONE, sy: FP_ONE, sz: FP_ONE, tx: 0, ty: 0, tz: 0 }
    }

    /// Overwrite the translation row with `(x, y, z)`.
    pub fn translate(&mut self, x: i64, y: i64, z: i64)
        requires
            -FP_MAX <= x <= FP_MAX,
            -FP_MAX <= y <= FP_MAX,
            -FP_MAX <= z <= FP_MAX,
        ensures
            final(self).x() == x,
            final(self).y() == y,
            final(self).z() == z,
            final(self).scale_x() == old(self).scale_x(),
            final(self).scale_y() == old(self).scale_y(),
            final(self).scale_z() == old(self).scale_z(),
            old(self).wf() ==> final(self).wf(),
    {
        self.tx = x;
        self.ty = y;
        self.tz = z;
    }

    /// Overwrite the scale diagonal with `(x, y, z)`.
    pub fn scale(&mut self, x: i64, y: i64, z: i64)
        requires
            -FP_MAX <= x <= FP_MAX,
            -FP_MAX <= y <= FP_MAX,
            -FP_MAX <= z <= FP_MAX,
        ensures
            final(self).scale_x() == x,
            final(self).scale_y() == y,
            final(self).scale_z() == z,
            final(self).x() == old(self).x(),
            final(self).y() == old(self).y(),
            final(self).z() == old(self).z(),
            old(self).wf() ==> final(self).wf(),
    {
        self.sx = x;
        self.sy = y;
        self.sz = z;
    }

    /// Overwrite the x translation cell.
    pub fn set_x(&mut self, x: i64)
        requires
            -FP_MAX <= x <= FP_MAX,
        ensures
            final(self).x() == x,
            final(self).y() == old(self).y(),
            final(self).z() == old(self).z(),
            final(self).scale_x() == old(self).scale_x(),
            final(self).scale_y() == old(self).scale_y(),
            final(self).scale_z() == old(self).scale_z(),
    {
        self.tx = x;
    }

    /// Overwrite the y translation cell.
    pub fn set_y(&mut self, y: i64)
        requires
            -FP_MAX <= y <= FP_MAX,
        ensures
            final(self).y() == y,
            final(self).x() == old(self).x(),
            final(self).z() == old(self).z(),
            final(self).scale_x() == old(self).scale_x(),
            final(self).scale_y() == old(self).scale_y(),
            final(self).scale_z() == old(self).scale_z(),
    {
        self.ty = y;
    }

    /// Overwrite the z translation cell.
    pub fn set_z(&mut self, z: i64)
        requires
            -FP_MAX <= z <= FP_MAX,
        ensures
            final(self).z() == z,
            final(self).x() == old(self).x(),
            final(self).y() == old(self).y(),
            final(self).scale_x() == old(self).scale_x(),
            final(self).scale_y() == old(self).scale_y(),
            final(self).scale_z() == old(self).scale_z(),
    {
        self.tz = z;
    }

    /// The full 4x4 row-major matrix, for handing to a GPU uniform.
    pub fn matrix(&self) -> (m: [[i64; 4]; 4])
        ensures
            m@[0]@ =~= seq![self.scale_x(), 0i64, 0i64, 0i64],
            m@[1]@ =~= seq![0i64, self.scale_y(), 0i64, 0i64],
            m@[2]@ =~= seq![0i64, 0i64, self.scale_z(), 0i64],
            m@[3]@ =~= seq![self.x(), self.y(), self.z(), FP_ONE],
    {
        [
            [self.sx, 0i64, 0i64, 0i64],
            [0i64, self.sy, 0i64, 0i64],
            [0i64, 0i64, self.sz, 0i64],
            [self.tx, self.ty, self.tz, FP_ONE],
        ]
    }
}

/// A point light: position, color, intensity and distance falloff.
/// Position, intensity and falloff are fixed-point; color is 8-bit RGB.
#[derive(Clone, Copy, PartialEq, Eq, Structural, Debug)]
pub struct Light {
    pub(crate) px: i64,
    pub(crate) py: i64,
    pub(crate) pz: i64,
    pub(crate) cr: u8,
    pub(crate) cg: u8,
    pub(crate) cb: u8,
    pub(crate) intensity: i64,
    pub(crate) falloff: i64,
}

impl Light {
    pub closed spec fn x(&self) -> i64 {
        self.px
    }

    pub closed spec fn y(&self) -> i64 {
        self.py
    }

    pub closed spec fn z(&self) -> i64 {
        self.pz
    }

    /// The red light component, 0..=255 standing for 0.0..=1.0.
    pub closed spec fn red(&self) -> u8 {
        self.cr
    }

    pub closed spec fn green(&self) -> u8 {
        self.cg
    }

    pub closed spec fn blue(&self) -> u8 {
        self.cb
    }

    /// The light intensity, fixed-point, nonnegative.
    pub closed spec fn intensity_value(&self) -> i64 {
        self.intensity
    }

    /// The distance falloff coefficient, fixed-point, nonnegative.
    pub closed spec fn falloff_value(&self) -> i64 {
        self.falloff
    }

    /// Well-formed: position within the scene bound, intensity and falloff
    /// nonnegative and bounded.
    pub open spec fn wf(&self) -> bool {
        &&& -FP_MAX <= self.x() <= FP_MAX
        &&& -FP_MAX <= self.y() <= FP_MAX
        &&& -FP_MAX <= self.z() <= FP_MAX
        &&& 0 <= self.intensity_value() <= FP_MAX
        &&& 0 <= self.falloff_value() <= FP_MAX
    }

    /// A light at `position` with the given color, intensity and falloff.
    pub fn new(position: [i64; 3], color: [u8; 3], intensity: i64, falloff: i64) -> (l: Light)
        requires
            forall|i: int| 0 <= i < 3 ==> -FP_MAX <= #[trigger] position@[i] <= FP_MAX,
            0 <= intensity <= FP_MAX,
            0 <= falloff <= FP_MAX,
        ensures
            l.wf(),
            l.x() == position@[0],
            l.y() == position@[1],
            l.z() == position@[2],
            l.red() == color@[0],
            l.green() == color@[1],
            l.blue() == color@[2],
            l.intensity_value() == intensity,
            l.falloff_value() == falloff,
    {
        Light {
            px: position[0],
            py: position[1],
            pz: position[2],
            cr: color[0],
            cg: color[1],
            cb: color[2],
            intensity,
            falloff,
        }
    }

    /// Overwrite the position.
    pub fn set_position(&mut self, x: i64, y: i64, z: i64)
        requires
            -FP_MAX <= x <= FP_MAX,
            -FP_MAX <= y <= FP_MAX,
            -FP_MAX <= z <= FP_MAX,
        ensures
            final(self).x() == x,
            final(self).y() == y,
            final(self).z() == z,
            final(self).red() == old(self).red(),
            final(self).green() == old(self).green(),
            final(self).blue() == old(self).blue(),
            final(self).intensity_value() == old(self).intensity_value(),
            final(self).falloff_value() == old(self).falloff_value(),
    {
        self.px = x;
        self.py = y;
        self.pz = z;
    }

    /// The position, as handed to `new` or the last `set_position`.
    pub fn get_position(&self) -> (p: [i64; 3])
        ensures
            p@ =~= seq![self.x(), self.y(), self.z()],
    {
        [self.px, self.py, self.pz]
    }

    /// Overwrite the color; 0..=255 stands for the 0.0..=1.0 range.
    pub fn set_color(&mut self, r: u8, g: u8, b: u8)
        ensures
            final(self).red() == r,
            final(self).green() == g,
            final(self).blue() == b,
            final(self).x() == old(self).x(),
            final(self).y() == old(self).y(),
            final(self).z() == old(self).z(),
            final(self).intensity_value() == old(self).intensity_value(),
            final(self).falloff_value() == old(self).falloff_value(),
    {
        self.cr = r;
        self.cg = g;
        self.cb = b;
    }

    /// Overwrite the intensity.
    pub fn set_intensity(&mut self, intensity: i64)
        requires
            0 <= intensity <= FP_MAX,
        ensures
            final(self).intensity_value() == intensity,
            final(self).x() == old(self).x(),
            final(self).y() == old(self).y(),
            final(self).z() == old(self).z(),
            final(self).red() == old(self).red(),
            final(self).green() == old(self).green(),
            final(self).blue() == old(self).blue(),
            final(self).falloff_value() == old(self).falloff_value(),
    {
        self.intensity = intensity;
    }

    /// Overwrite the falloff coefficient.
    pub fn set_falloff(&mut self, falloff: i64)
        requires
            0 <= falloff <= FP_MAX,
        ensures
            final(self).falloff_value() == falloff,
            final(self).x() == old(self).x(),
            final(self).y() == old(self).y(),
            final(self).z() == old(self).z(),
            final(self).red() == old(self).red(),
            final(self).green() == old(self).green(),
            final(self).blue() == old(self).blue(),
            final(self).intensity_value() == old(self).intensity_value(),
    {
        self.falloff = falloff;
    }
}

/// The id the next compiled program will get after one with id `n`:
/// ids count up and stop at the top of the range.
pub open spec fn next_id_after(n: u64) -> u64 {
    if n == u64::MAX {
        n
    } else {
        (n + 1) as u64
    }
}

/// The render context: the display surface, the shader program registry and
/// the built-in pass programs. Exactly one instance drives an application.
pub struct LumenpyxProgram {
    table: rustc_hash::FxHashMap<String, usize>,
    programs: Vec<ShaderProgram>,
    next_shader_id: u64,
    screen: Framebuffer,
    /// The eagerly compiled per-light lighting pass program.
    pub lighting_shader: ShaderProgram,
    /// The eagerly compiled reflection pass program.
    pub reflection_shader: ShaderProgram,
    /// The eagerly compiled upscale pass program.
    pub upscale_shader: ShaderProgram,
}

impl LumenpyxProgram {
    /// The registry contents: the program filed under each name.
    pub closed spec fn shaders(&self) -> Map<Seq<char>, ShaderProgram> {
        Map::new(
            |k: Seq<char>| table_view(self.table).contains_key(k),
            |k: Seq<char>| self.programs@[table_view(self.table)[k] as int],
        )
    }

    /// The id the next compiled program will receive.
    pub closed spec fn next_id(&self) -> u64 {
        self.next_shader_id
    }

    /// The eagerly compiled lighting pass program.
    pub closed spec fn lighting_shader_spec(&self) -> ShaderProgram {
        self.lighting_shader
    }

    /// The eagerly compiled reflection pass program.
    pub closed spec fn reflection_shader_spec(&self) -> ShaderProgram {
        self.reflection_shader
    }

    /// The eagerly compiled upscale pass program.
    pub closed spec fn upscale_shader_spec(&self) -> ShaderProgram {
        self.upscale_shader
    }

    /// The display surface contents, row-major.
    pub closed spec fn screen_view(&self) -> Seq<Color> {
        self.screen@
    }

    pub closed spec fn screen_width_spec(&self) -> u32 {
        self.screen.width_spec()
    }

    pub closed spec fn screen_height_spec(&self) -> u32 {
        self.screen.height_spec()
    }

    /// Well-formed: the surface is well-formed and every registry slot is
    /// backed by a compiled program.
    pub closed spec fn wf(&self) -> bool {
        &&& self.screen.wf()
        &&& forall|k: Seq<char>| #[trigger] table_view(self.table).contains_key(k)
            ==> table_view(self.table)[k] < self.programs@.len()
    }

    /// The surface is well-formed whenever the context is.
    pub proof fn lemma_wf_screen(&self)
        requires
            self.wf(),
        ensures
            1 <= self.screen_width_spec() <= MAX_TARGET_EXTENT,
            1 <= self.screen_height_spec() <= MAX_TARGET_EXTENT,
            self.screen_view().len() == self.screen_width_spec() * self.screen_height_spec(),
    {
    }

    /// A fresh context for a display surface of the given size: the surface
    /// is cleared, the three built-in pass programs are compiled eagerly, and
    /// every system shader is registered.
    pub fn new(screen_width: u32, screen_height: u32) -> (program: LumenpyxProgram)
        requires
            1 <= screen_width <= MAX_TARGET_EXTENT,
            1 <= screen_height <= MAX_TARGET_EXTENT,
        ensures
            program.wf(),
            program.screen_width_spec() == screen_width,
            program.screen_height_spec() == screen_height,
            program.screen_view() =~= cleared_seq(screen_width as int * screen_height as int),
            program.lighting_shader_spec().id == 0,
            program.reflection_shader_spec().id == 1,
            program.upscale_shader_spec().id == 2,
            program.shaders() == crate::shaders::load_all_spec(
                Map::<Seq<char>, ShaderProgram>::empty(),
                3,
            ).0,
            program.next_id() == crate::shaders::load_all_spec(
                Map::<Seq<char>, ShaderProgram>::empty(),
                3,
            ).1,
    {
        let mut program = LumenpyxProgram {
            table: table_new(),
            programs: Vec::new(),
            next_shader_id: 0,
            screen: Framebuffer::new(screen_width, screen_height),
            lighting_shader: ShaderProgram { id: 0 },
            reflection_shader: ShaderProgram { id: 1 },
            upscale_shader: ShaderProgram { id: 2 },
        };
        proof {
            assert(program.shaders() =~= Map::<Seq<char>, ShaderProgram>::empty());
        }
        let lighting = program.compile_program();
        let reflection = program.compile_program();
        let upscale = program.compile_program();
        program.lighting_shader = lighting;
        program.reflection_shader = reflection;
        program.upscale_shader = upscale;
        crate::shaders::load_all_system_shaders(&mut program);
        program
    }

    /// Compile a shader program: allocate the next handle id. In this model
    /// compilation itself cannot fail; the GPU front end surfaces its own
    /// compile errors before handing a handle to the registry.
    pub fn compile_program(&mut self) -> (p: ShaderProgram)
        ensures
            p.id == old(self).next_id(),
            final(self).next_id() == next_id_after(old(self).next_id()),
            final(self).shaders() == old(self).shaders(),
            final(self).screen_view() == old(self).screen_view(),
            final(self).screen_width_spec() == old(self).screen_width_spec(),
            final(self).screen_height_spec() == old(self).screen_height_spec(),
            final(self).lighting_shader_spec() == old(self).lighting_shader_spec(),
            final(self).reflection_shader_spec() == old(self).reflection_shader_spec(),
            final(self).upscale_shader_spec() == old(self).upscale_shader_spec(),
            old(self).wf() ==> final(self).wf(),
    {
        let id = self.next_shader_id;
        if self.next_shader_id < u64::MAX {
            self.next_shader_id = self.next_shader_id + 1;
        }
        proof {
            assert(self.shaders() =~= old(self).shaders());
        }
        ShaderProgram { id }
    }

    /// File `program` in the registry under `name`. Re-registration under the
    /// same name overwrites the entry; the old handle is simply dropped.
    pub fn add_shader(&mut self, program: ShaderProgram, name: &str)
        requires
            old(self).wf(),
        ensures
            final(self).wf(),
            final(self).shaders() == old(self).shaders().insert(name@, program),
            final(self).next_id() == old(self).next_id(),
            final(self).screen_view() == old(self).screen_view(),
            final(self).screen_width_spec() == old(self).screen_width_spec(),
            final(self).screen_height_spec() == old(self).screen_height_spec(),
            final(self).lighting_shader_spec() == old(self).lighting_shader_spec(),
            final(self).reflection_shader_spec() == old(self).reflection_shader_spec(),
            final(self).upscale_shader_spec() == old(self).upscale_shader_spec(),
    {
        let slot = self.programs.len();
        self.programs.push(program);
        table_insert(&mut self.table, name, slot);
        proof {
            assert(self.shaders() =~= old(self).shaders().insert(name@, program));
        }
    }

    /// Look up the program filed under `name`, if any.
    pub fn get_shader(&self, name: &str) -> (r: Option<&ShaderProgram>)
        requires
            self.wf(),
        ensures
            match r {
                Some(p) => self.shaders().contains_key(name@) && *p == self.shaders()[name@],
                None => !self.shaders().contains_key(name@),
            },
    {
        match table_get(&self.table, name) {
            Some(slot) => Some(&self.programs[slot]),
            None => None,
        }
    }

    /// The display surface.
    pub fn screen(&self) -> (fb: &Framebuffer)
        ensures
            fb@ == self.screen_view(),
            fb.width_spec() == self.screen_width_spec(),
            fb.height_spec() == self.screen_height_spec(),
    {
        &self.screen
    }

    /// Replace the display surface contents; internal to the upscale pass.
    pub(crate) fn present(&mut self, pixels: Vec<Color>)
        requires
            pixels@.len() == old(self).screen_view().len(),
        ensures
            final(self).screen_view() == pixels@,
            final(self).shaders() == old(self).shaders(),
            final(self).next_id() == old(self).next_id(),
            final(self).screen_width_spec() == old(self).screen_width_spec(),
            final(self).screen_height_spec() == old(self).screen_height_spec(),
            final(self).lighting_shader_spec() == old(self).lighting_shader_spec(),
            final(self).reflection_shader_spec() == old(self).reflection_shader_spec(),
            final(self).upscale_shader_spec() == old(self).upscale_shader_spec(),
            old(self).wf() ==> final(self).wf(),
    {
        self.screen.set_pixels(pixels);
        proof {
            assert(self.shaders() =~= old(self).shaders());
        }
    }
}

/// The albedo target the G-buffer pass produces: every drawable drawn in
/// order over a cleared target at the virtual resolution.
pub open spec fn gbuffer_albedo<T: crate::drawable::Drawable>(ds: Seq<&T>) -> Seq<Color> {
    crate::drawable::albedo_fold(
        ds,
        cleared_seq(VIRTUAL_WIDTH as int * VIRTUAL_HEIGHT as int),
        VIRTUAL_WIDTH as int,
        VIRTUAL_HEIGHT as int,
    )
}

/// The height target the G-buffer pass produces.
pub open spec fn gbuffer_height<T: crate::drawable::Drawable>(ds: Seq<&T>) -> Seq<Color> {
    crate::drawable::height_fold(
        ds,
        cleared_seq(VIRTUAL_WIDTH as int * VIRTUAL_HEIGHT as int),
        VIRTUAL_WIDTH as int,
        VIRTUAL_HEIGHT as int,
    )
}

/// The roughness target the G-buffer pass produces.
pub open spec fn gbuffer_roughness<T: crate::drawable::Drawable>(ds: Seq<&T>) -> Seq<Color> {
    crate::drawable::roughness_fold(
        ds,
        cleared_seq(VIRTUAL_WIDTH as int * VIRTUAL_HEIGHT as int),
        VIRTUAL_WIDTH as int,
        VIRTUAL_HEIGHT as int,
    )
}

/// The normal target the G-buffer pass produces.
pub open spec fn gbuffer_normal<T: crate::drawable::Drawable>(ds: Seq<&T>) -> Seq<Color> {
    crate::drawable::normal_fold(
        ds,
        cleared_seq(VIRTUAL_WIDTH as int * VIRTUAL_HEIGHT as int),
        VIRTUAL_WIDTH as int,
        VIRTUAL_HEIGHT as int,
    )
}

/// The lit target: every light accumulated over the G-buffer, starting from
/// a cleared target.
pub open spec fn render_lit<T: crate::drawable::Drawable>(ls: Seq<&Light>, ds: Seq<&T>) -> Seq<
    Color,
> {
    crate::shaders::lights_fold(
        ls,
        gbuffer_albedo(ds),
        gbuffer_height(ds),
        cleared_seq(VIRTUAL_WIDTH as int * VIRTUAL_HEIGHT as int),
        VIRTUAL_WIDTH as int,
        VIRTUAL_HEIGHT as int,
    )
}

/// The presented surface of a whole frame: the lit target upscaled onto a
/// `tw x th` display surface with aspect-preserving letterboxing.
pub open spec fn render_frame_spec<T: crate::drawable::Drawable>(
    ls: Seq<&Light>,
    ds: Seq<&T>,
    tw: int,
    th: int,
) -> Seq<Color> {
    crate::shaders::upscale_spec(
        render_lit(ls, ds),
        VIRTUAL_WIDTH as int,
        VIRTUAL_HEIGHT as int,
        tw,
        th,
    )
}

/// Render one frame: provision every drawable's shaders, rasterize the
/// G-buffer at the virtual resolution, accumulate every light into the lit
/// target, run the reflection pass, and upscale the lit target onto the
/// display surface. Provisioning strictly precedes all geometry submission,
/// and a missing pass shader surfaces as an error before the surface is
/// touched: no partial frame is ever presented.
pub fn draw_all<T: crate::drawable::Drawable>(
    lights: Vec<&Light>,
    drawables: Vec<&T>,
    program: &mut LumenpyxProgram,
) -> (r: Result<(), RenderError>)
    requires
        old(program).wf(),
        forall|i: int| 0 <= i < lights@.len() ==> (#[trigger] lights@[i]).wf(),
        forall|i: int| 0 <= i < drawables@.len() ==> (#[trigger] drawables@[i]).wf(),
    ensures
        final(program).wf(),
        final(program).screen_width_spec() == old(program).screen_width_spec(),
        final(program).screen_height_spec() == old(program).screen_height_spec(),
        (final(program).shaders(), final(program).next_id()) == crate::drawable::provision_fold(
            drawables@,
            old(program).shaders(),
            old(program).next_id(),
        ),
        ({
            let pm = crate::drawable::provision_fold(
                drawables@,
                old(program).shaders(),
                old(program).next_id(),
            ).0;
            &&& (r is Ok <==> pm.contains_key("reflection_shader"@) && pm.contains_key(
                "upscale_shader"@,
            ))
            &&& (r is Ok ==> final(program).screen_view() == render_frame_spec(
                lights@,
                drawables@,
                old(program).screen_width_spec() as int,
                old(program).screen_height_spec() as int,
            ))
            &&& (r is Err ==> final(program).screen_view() == old(program).screen_view() && r
                == Err::<(), RenderError>(RenderError::MissingShader))
        }),
{
    let ghost m0 = program.shaders();
    let ghost n0 = program.next_id();
    let ghost vscreen0 = program.screen_view();
    let dcount = drawables.len();
    let mut i: usize = 0;
    while i < dcount
        invariant
            i <= dcount,
            dcount == drawables@.len(),
            forall|j: int| 0 <= j < drawables@.len() ==> (#[trigger] drawables@[j]).wf(),
            program.wf(),
            (program.shaders(), program.next_id()) == crate::drawable::provision_fold(
                drawables@.take(i as int),
                m0,
                n0,
            ),
            forall|j: int| 0 <= j < i ==> (#[trigger] drawables@[j]).shaders_loaded(
                program.shaders(),
            ),
            program.screen_view() == vscreen0,
            program.screen_width_spec() == old(program).screen_width_spec(),
            program.screen_height_spec() == old(program).screen_height_spec(),
        decreases dcount - i,
    {
        let ghost pre = program.shaders();
        drawables[i].try_load_shaders(program);
        proof {
            assert(drawables@.take(i as int + 1).drop_last() =~= drawables@.take(i as int));
            assert(drawables@.take(i as int + 1).last() == drawables@[i as int]);
            assert forall|j: int| 0 <= j < i + 1 implies (#[trigger] drawables@[j]).shaders_loaded(
                program.shaders(),
            ) by {
                if j < i {
                    drawables@[j].lemma_loaded_monotone(pre, program.shaders());
                }
            }
        }
        i = i + 1;
    }
    proof {
        assert(drawables@.take(dcount as int) =~= drawables@);
    }
    let ghost pm = program.shaders();
    let ghost pn = program.next_id();
    let ghost vw = VIRTUAL_WIDTH as int;
    let ghost vh = VIRTUAL_HEIGHT as int;
    let ghost vclear = cleared_seq(VIRTUAL_WIDTH as int * VIRTUAL_HEIGHT as int);
    let mut albedo_framebuffer = Framebuffer::new(VIRTUAL_WIDTH, VIRTUAL_HEIGHT);
    let mut height_framebuffer = Framebuffer::new(VIRTUAL_WIDTH, VIRTUAL_HEIGHT);
    let mut roughness_framebuffer = Framebuffer::new(VIRTUAL_WIDTH, VIRTUAL_HEIGHT);
    let mut normal_framebuffer = Framebuffer::new(VIRTUAL_WIDTH, VIRTUAL_HEIGHT);
    let mut i: usize = 0;
    while i < dcount
        invariant
            i <= dcount,
            dcount == drawables@.len(),
            forall|j: int| 0 <= j < drawables@.len() ==> (#[trigger] drawables@[j]).wf(),
            forall|j: int| 0 <= j < drawables@.len() ==> (#[trigger] drawables@[j]).shaders_loaded(
                program.shaders(),
            ),
            program.wf(),
            program.shaders() == pm,
            vw == VIRTUAL_WIDTH as int,
            vh == VIRTUAL_HEIGHT as int,
            vclear == cleared_seq(VIRTUAL_WIDTH as int * VIRTUAL_HEIGHT as int),
            albedo_framebuffer.wf(),
            albedo_framebuffer.width_spec() == VIRTUAL_WIDTH,
            albedo_framebuffer.height_spec() == VIRTUAL_HEIGHT,
            height_framebuffer.wf(),
            height_framebuffer.width_spec() == VIRTUAL_WIDTH,
            height_framebuffer.height_spec() == VIRTUAL_HEIGHT,
            roughness_framebuffer.wf(),
            roughness_framebuffer.width_spec() == VIRTUAL_WIDTH,
            roughness_framebuffer.height_spec() == VIRTUAL_HEIGHT,
            normal_framebuffer.wf(),
            normal_framebuffer.width_spec() == VIRTUAL_WIDTH,
            normal_framebuffer.height_spec() == VIRTUAL_HEIGHT,
            albedo_framebuffer@ == crate::drawable::albedo_fold(
                drawables@.take(i as int),
                vclear,
                vw,
                vh,
            ),
            height_framebuffer@ == crate::drawable::height_fold(
                drawables@.take(i as int),
                vclear,
                vw,
                vh,
            ),
            roughness_framebuffer@ == crate::drawable::roughness_fold(
                drawables@.take(i as int),
                vclear,
                vw,
                vh,
            ),
            normal_framebuffer@ == crate::drawable::normal_fold(
                drawables@.take(i as int),
                vclear,
                vw,
                vh,
            ),
        decreases dcount - i,
    {
        drawables[i].draw(
            program,
            &mut albedo_framebuffer,
            &mut height_framebuffer,
            &mut roughness_framebuffer,
            &mut normal_framebuffer,
        );
        proof {
            let pref = drawables@.take(i as int);
            let post = drawables@.take(i as int + 1);
            assert(post.drop_last() =~= pref);
            assert(post.last() == drawables@[i as int]);
            assert(crate::drawable::albedo_fold(post, vclear, vw, vh) == drawables@[i as int]
                .albedo_after(crate::drawable::albedo_fold(pref, vclear, vw, vh), vw, vh));
            assert(crate::drawable::height_fold(post, vclear, vw, vh) == drawables@[i as int]
                .height_after(crate::drawable::height_fold(pref, vclear, vw, vh), vw, vh));
            assert(crate::drawable::roughness_fold(post, vclear, vw, vh) == drawables@[i as int]
                .roughness_after(crate::drawable::roughness_fold(pref, vclear, vw, vh), vw, vh));
            assert(crate::drawable::normal_fold(post, vclear, vw, vh) == drawables@[i as int]
                .normal_after(crate::drawable::normal_fold(pref, vclear, vw, vh), vw, vh));
        }
        i = i + 1;
    }
    proof {
        assert(drawables@.take(dcount as int) =~= drawables@);
    }
    let lcount = lights.len();
    let mut lit_framebuffer = Framebuffer::new(VIRTUAL_WIDTH, VIRTUAL_HEIGHT);
    let mut i: usize = 0;
    while i < lcount
        invariant
            i <= lcount,
            lcount == lights@.len(),
            forall|j: int| 0 <= j < lights@.len() ==> (#[trigger] lights@[j]).wf(),
            program.wf(),
            program.shaders() == pm,
            vw == VIRTUAL_WIDTH as int,
            vh == VIRTUAL_HEIGHT as int,
            vclear == cleared_seq(VIRTUAL_WIDTH as int * VIRTUAL_HEIGHT as int),
            albedo_framebuffer.wf(),
            albedo_framebuffer.width_spec() == VIRTUAL_WIDTH,
            albedo_framebuffer.height_spec() == VIRTUAL_HEIGHT,
            height_framebuffer.wf(),
            height_framebuffer.width_spec() == VIRTUAL_WIDTH,
            height_framebuffer.height_spec() == VIRTUAL_HEIGHT,
            lit_framebuffer.wf(),
            lit_framebuffer.width_spec() == VIRTUAL_WIDTH,
            lit_framebuffer.height_spec() == VIRTUAL_HEIGHT,
            albedo_framebuffer@ == gbuffer_albedo(drawables@),
            height_framebuffer@ == gbuffer_height(drawables@),
            lit_framebuffer@ == crate::shaders::lights_fold(
                lights@.take(i as int),
                albedo_framebuffer@,
                height_framebuffer@,
                vclear,
                vw,
                vh,
            ),
        decreases lcount - i,
    {
        crate::shaders::draw_lighting(
            &albedo_framebuffer,
            &height_framebuffer,
            lights[i],
            program,
            &mut lit_framebuffer,
        );
        proof {
            let pref = lights@.take(i as int);
            let post = lights@.take(i as int + 1);
            assert(post.drop_last() =~= pref);
            assert(post.last() == lights@[i as int]);
            assert(crate::shaders::lights_fold(
                post,
                albedo_framebuffer@,
                height_framebuffer@,
                vclear,
                vw,
                vh,
            ) == crate::shaders::apply_light_spec(
                *lights@[i as int],
                albedo_framebuffer@,
                height_framebuffer@,
                crate::shaders::lights_fold(
                    pref,
                    albedo_framebuffer@,
                    height_framebuffer@,
                    vclear,
                    vw,
                    vh,
                ),
                vw,
                vh,
            ));
        }
        i = i + 1;
    }
    proof {
        assert(lights@.take(lcount as int) =~= lights@);
    }
    let mut reflected_framebuffer = Framebuffer::new(VIRTUAL_WIDTH, VIRTUAL_HEIGHT);
    let reflected = crate::shaders::draw_reflections(
        &lit_framebuffer,
        &height_framebuffer,
        &roughness_framebuffer,
        &normal_framebuffer,
        &mut reflected_framebuffer,
        program,
        0,
    );
    match reflected {
        Ok(()) => (),
        Err(e) => {
            return Err(e);
        },
    }
    match crate::shaders::draw_upscale(&lit_framebuffer, program) {
        Ok(()) => Ok(()),
        Err(e) => Err(e),
    }
}

} // verus!
