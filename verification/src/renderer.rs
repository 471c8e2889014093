//! The two-pass fractal renderer as a state machine.
//!
//! The renderer walks strictly forward through four phases: shaders are
//! compiled and linked once, the Mandelbrot set is prerendered once into an
//! offscreen texture, and from then on every frame draws the live Julia set
//! to the screen, sampling that texture.  The GPU calls themselves are
//! performed by the surrounding driver; each pass is handed out as a plain
//! descriptor of handles, locations and uniform values, and the driver
//! reports back the error code the GPU left behind.

use vstd::prelude::*;

use crate::error::{RenderError, Stage};
use crate::pointer::{PointerState, Screen};
use crate::program::{
    accept_compile, accept_link, check_gpu_error, validate_julia_locations,
    validate_mandelbrot_locations, CompileOutcome, JuliaLocations, LinkOutcome,
    MandelbrotLocations, RawJuliaLocations, RawMandelbrotLocations,
};

verus! {

/// The zoom factor in thousandths: screen-pixel coordinates are mapped into
/// the complex plane at 3/1000 of a unit per pixel.
pub const SCALE_THOUSANDTHS: u32 = 3;

/// Vertices of the full-screen quad, drawn as a triangle fan.
pub const QUAD_VERTEX_COUNT: u32 = 4;

/// The renderer's position in its one-way lifecycle.
#[derive(Clone, Copy, Debug, PartialEq, Eq, Structural)]
pub enum Phase {
    /// Nothing allocated yet.
    Uninitialized,
    /// Shaders compiled, programs linked, locations resolved, quad and
    /// offscreen target allocated.
    ShadersReady,
    /// The Mandelbrot texture has been drawn and is immutable from now on.
    TexturePrerendered,
    /// At least one live Julia frame has been completed.
    Running,
}

/// The phases in lifecycle order; transitions only ever increase this.
pub open spec fn phase_index(p: Phase) -> int {
    match p {
        Phase::Uninitialized => 0,
        Phase::ShadersReady => 1,
        Phase::TexturePrerendered => 2,
        Phase::Running => 3,
    }
}

/// One successful lifecycle transition: the `Ok` outcome of
/// `RendererState::install_shaders`, `RendererState::complete_prerender`
/// or `RendererState::complete_frame`.
pub open spec fn advances(pre: Phase, post: Phase) -> bool {
    (pre == Phase::Uninitialized && post == Phase::ShadersReady) || (pre == Phase::ShadersReady
        && post == Phase::TexturePrerendered) || ((pre == Phase::TexturePrerendered || pre
        == Phase::Running) && post == Phase::Running)
}

/// The lifecycle is strictly forward and the prerender is one-shot: no
/// successful transition lowers the phase, and the only way into
/// `TexturePrerendered` is from `ShadersReady` — a phase no transition
/// re-enters — so the Mandelbrot texture is produced at most once.
pub proof fn lemma_transitions_forward(pre: Phase, post: Phase)
    requires
        advances(pre, post),
    ensures
        phase_index(post) >= phase_index(pre),
        post == Phase::TexturePrerendered ==> pre == Phase::ShadersReady,
        post != Phase::ShadersReady || pre == Phase::Uninitialized,
{
}

/// The GPU objects and resolved locations held from `ShadersReady` on.
/// Once installed they are never reassigned.
#[derive(Clone, Copy, Debug, PartialEq, Eq, Structural)]
pub struct GpuObjects {
    /// The shared vertex shader.
    pub vertex_shader: u32,
    /// The Julia fragment shader.
    pub julia_shader: u32,
    /// The Mandelbrot fragment shader.
    pub mandelbrot_shader: u32,
    /// The linked Julia program.
    pub julia_program: u32,
    /// The linked Mandelbrot program.
    pub mandelbrot_program: u32,
    /// The buffer holding the full-screen quad.
    pub quad_buffer: u32,
    /// The offscreen texture the Mandelbrot set is prerendered into.
    pub texture: u32,
    /// The framebuffer the texture is attached to.
    pub framebuffer: u32,
    /// Resolved locations of the Julia program.
    pub julia: JuliaLocations,
    /// Resolved locations of the Mandelbrot program.
    pub mandelbrot: MandelbrotLocations,
}

/// Everything the GPU reported back during one-time initialization, in the
/// order the driver performed it.
#[derive(Clone, Copy, Debug, PartialEq, Eq, Structural)]
pub struct InitReport {
    /// Compiling the shared vertex shader.
    pub vertex_shader: CompileOutcome,
    /// Compiling the Julia fragment shader.
    pub julia_shader: CompileOutcome,
    /// Compiling the Mandelbrot fragment shader.
    pub mandelbrot_shader: CompileOutcome,
    /// Linking the Julia program.
    pub julia_link: LinkOutcome,
    /// Locations resolved on the Julia program.
    pub julia_locations: RawJuliaLocations,
    /// Linking the Mandelbrot program.
    pub mandelbrot_link: LinkOutcome,
    /// Locations resolved on the Mandelbrot program.
    pub mandelbrot_locations: RawMandelbrotLocations,
    /// The generated quad buffer.
    pub quad_buffer: u32,
    /// The generated offscreen texture.
    pub texture: u32,
    /// The generated framebuffer the texture was attached to.
    pub framebuffer: u32,
    /// The error code read after the remaining setup calls.
    pub error_code: u32,
}

impl InitReport {
    /// Initialization may be kept: every compilation and link produced a
    /// handle with a clean error code, every required location resolved,
    /// and the remaining setup left no error behind.
    pub open spec fn accepted(self) -> bool {
        self.vertex_shader.accepted() && self.julia_shader.accepted()
            && self.mandelbrot_shader.accepted() && self.julia_link.accepted()
            && self.julia_locations.all_found() && self.mandelbrot_link.accepted()
            && self.mandelbrot_locations.all_found() && self.error_code == 0
    }

    /// The error a rejected initialization surfaces: the first failure in
    /// the order the driver performed the work.
    pub open spec fn rejection(self) -> RenderError {
        if !self.vertex_shader.accepted() {
            self.vertex_shader.rejection(Stage::Vertex)
        } else if !self.julia_shader.accepted() {
            self.julia_shader.rejection(Stage::Fragment)
        } else if !self.mandelbrot_shader.accepted() {
            self.mandelbrot_shader.rejection(Stage::Fragment)
        } else if !self.julia_link.accepted() {
            self.julia_link.rejection()
        } else if !self.julia_locations.all_found() {
            RenderError::RequiredLocationMissing { name: self.julia_locations.first_missing() }
        } else if !self.mandelbrot_link.accepted() {
            self.mandelbrot_link.rejection()
        } else if !self.mandelbrot_locations.all_found() {
            RenderError::RequiredLocationMissing {
                name: self.mandelbrot_locations.first_missing(),
            }
        } else {
            RenderError::RuntimeError { code: self.error_code }
        }
    }

    /// The objects an accepted initialization installs.
    pub open spec fn installed_objects(self) -> GpuObjects {
        GpuObjects {
            vertex_shader: self.vertex_shader.handle,
            julia_shader: self.julia_shader.handle,
            mandelbrot_shader: self.mandelbrot_shader.handle,
            julia_program: self.julia_link.program,
            mandelbrot_program: self.mandelbrot_link.program,
            quad_buffer: self.quad_buffer,
            texture: self.texture,
            framebuffer: self.framebuffer,
            julia: JuliaLocations {
                vertex: self.julia_locations.vertex as u32,
                scale: self.julia_locations.scale,
                centre: self.julia_locations.centre,
                offset: self.julia_locations.offset,
                tex: self.julia_locations.tex,
            },
            mandelbrot: MandelbrotLocations {
                vertex: self.mandelbrot_locations.vertex as u32,
                scale: self.mandelbrot_locations.scale,
                centre: self.mandelbrot_locations.centre,
            },
        }
    }
}

/// One draw of the full-screen quad with the Mandelbrot program into the
/// offscreen framebuffer.  The `centre` uniform is the screen midpoint,
/// half of each screen dimension; the `scale` uniform is
/// `SCALE_THOUSANDTHS / 1000`.  The driver must follow the draw with a
/// blocking pipeline finish before the texture is sampled.
#[derive(Clone, Copy, Debug, PartialEq, Eq, Structural)]
pub struct PrerenderPass {
    /// Render destination: the offscreen framebuffer.
    pub framebuffer: u32,
    /// The quad buffer to bind.
    pub quad_buffer: u32,
    /// The Mandelbrot program to activate.
    pub program: u32,
    /// Location of the `scale` uniform.
    pub scale_loc: i32,
    /// Location of the `centre` uniform.
    pub centre_loc: i32,
    /// The zoom factor in thousandths.
    pub scale_thousandths: u32,
    /// The screen; the `centre` uniform is half of each dimension.
    pub screen: Screen,
    /// How many quad vertices to draw as a triangle fan.
    pub vertex_count: u32,
}

/// One draw of the full-screen quad with the Julia program to the default
/// on-screen framebuffer, sampling the prerendered texture.  The `offset`
/// uniform is the current pointer position; `scale` and `centre` are as in
/// the prerender pass.  The driver must follow the draw with a blocking
/// pipeline finish before the buffer swap.
#[derive(Clone, Copy, Debug, PartialEq, Eq, Structural)]
pub struct FramePass {
    /// Render destination: zero, the default on-screen framebuffer.
    pub framebuffer: u32,
    /// The quad buffer to bind.
    pub quad_buffer: u32,
    /// The Julia program to activate.
    pub program: u32,
    /// The prerendered texture to bind as the sampler input.
    pub texture: u32,
    /// Location of the `scale` uniform.
    pub scale_loc: i32,
    /// Location of the `centre` uniform.
    pub centre_loc: i32,
    /// Location of the `offset` uniform.
    pub offset_loc: i32,
    /// Location of the `tex` sampler uniform.
    pub tex_loc: i32,
    /// Horizontal pan offset: the pointer position.
    pub offset_x: i32,
    /// Vertical pan offset: the pointer position.
    pub offset_y: i32,
    /// The zoom factor in thousandths.
    pub scale_thousandths: u32,
    /// The screen; the `centre` uniform is half of each dimension.
    pub screen: Screen,
    /// How many quad vertices to draw as a triangle fan.
    pub vertex_count: u32,
}

/// The long-lived renderer state: the screen it draws to, its lifecycle
/// phase, and — from `ShadersReady` on — the installed GPU objects.
pub struct RendererState {
    pub screen: Screen,
    pub phase: Phase,
    pub gpu: Option<GpuObjects>,
}

impl RendererState {
    /// State invariant: the screen fits the pointer's integer range, and
    /// GPU objects are held exactly from `ShadersReady` on.
    pub open spec fn wf(self) -> bool {
        self.screen.wf() && (self.gpu is None <==> self.phase == Phase::Uninitialized)
    }

    /// A fresh renderer for the given screen: nothing allocated.
    pub fn new(screen: Screen) -> (r: RendererState)
        requires
            screen.wf(),
        ensures
            r.wf(),
            r.screen == screen,
            r.phase == Phase::Uninitialized,
            r.gpu is None,
    {
        RendererState { screen, phase: Phase::Uninitialized, gpu: None }
    }

    /// Install the one-time initialization, or reject it with its first
    /// failure and leave the state untouched.
    ///
    /// On acceptance every handle and location from the report is
    /// installed, and the renderer is ready for the prerender pass.
    pub fn install_shaders(&mut self, report: &InitReport) -> (r: Result<(), RenderError>)
        requires
            old(self).wf(),
            old(self).phase == Phase::Uninitialized,
        ensures
            final(self).wf(),
            final(self).screen == old(self).screen,
            r is Ok <==> report.accepted(),
            r is Ok ==> final(self).phase == Phase::ShadersReady && final(self).gpu == Some(
                report.installed_objects(),
            ) && advances(old(self).phase, final(self).phase),
            r is Err ==> *final(self) == *old(self) && r->Err_0 == report.rejection(),
    {
        let vertex_shader = accept_compile(Stage::Vertex, &report.vertex_shader)?;
        let julia_shader = accept_compile(Stage::Fragment, &report.julia_shader)?;
        let mandelbrot_shader = accept_compile(Stage::Fragment, &report.mandelbrot_shader)?;
        let julia_program = accept_link(&report.julia_link)?;
        let julia = validate_julia_locations(&report.julia_locations)?;
        let mandelbrot_program = accept_link(&report.mandelbrot_link)?;
        let mandelbrot = validate_mandelbrot_locations(&report.mandelbrot_locations)?;
        check_gpu_error(report.error_code)?;
        self.gpu = Some(
            GpuObjects {
                vertex_shader,
                julia_shader,
                mandelbrot_shader,
                julia_program,
                mandelbrot_program,
                quad_buffer: report.quad_buffer,
                texture: report.texture,
                framebuffer: report.framebuffer,
                julia,
                mandelbrot,
            },
        );
        self.phase = Phase::ShadersReady;
        Ok(())
    }

    /// The one Mandelbrot prerender pass, available exactly in
    /// `ShadersReady`: it targets the offscreen framebuffer with the
    /// Mandelbrot program, the fixed zoom factor and the screen midpoint.
    pub fn prerender_pass(&self) -> (r: PrerenderPass)
        requires
            self.wf(),
            self.phase == Phase::ShadersReady,
        ensures
            r == (PrerenderPass {
                framebuffer: self.gpu->0.framebuffer,
                quad_buffer: self.gpu->0.quad_buffer,
                program: self.gpu->0.mandelbrot_program,
                scale_loc: self.gpu->0.mandelbrot.scale,
                centre_loc: self.gpu->0.mandelbrot.centre,
                scale_thousandths: SCALE_THOUSANDTHS,
                screen: self.screen,
                vertex_count: QUAD_VERTEX_COUNT,
            }),
    {
        let gpu = self.gpu.as_ref().unwrap();
        PrerenderPass {
            framebuffer: gpu.framebuffer,
            quad_buffer: gpu.quad_buffer,
            program: gpu.mandelbrot_program,
            scale_loc: gpu.mandelbrot.scale,
            centre_loc: gpu.mandelbrot.centre,
            scale_thousandths: SCALE_THOUSANDTHS,
            screen: Screen { width: self.screen.width, height: self.screen.height },
            vertex_count: QUAD_VERTEX_COUNT,
        }
    }

    /// Record the end of the prerender pass.  A clean error code moves the
    /// renderer to `TexturePrerendered` — a transition taken at most once,
    /// after which the texture is treated as immutable — and changes
    /// nothing else; a non-zero code is a fatal runtime error and leaves
    /// the state untouched.
    pub fn complete_prerender(&mut self, error_code: u32) -> (r: Result<(), RenderError>)
        requires
            old(self).wf(),
            old(self).phase == Phase::ShadersReady,
        ensures
            final(self).wf(),
            r is Ok <==> error_code == 0,
            r is Ok ==> *final(self) == (RendererState {
                phase: Phase::TexturePrerendered,
                ..*old(self)
            }) && advances(old(self).phase, final(self).phase),
            r is Err ==> *final(self) == *old(self) && r->Err_0 == (RenderError::RuntimeError {
                code: error_code,
            }),
            phase_index(final(self).phase) >= phase_index(old(self).phase),
    {
        check_gpu_error(error_code)?;
        self.phase = Phase::TexturePrerendered;
        Ok(())
    }

    /// A live Julia frame, available from `TexturePrerendered` on: it
    /// targets the default framebuffer with the Julia program, samples the
    /// prerendered texture, and pans by the given pointer position.
    pub fn frame_pass(&self, pointer: &PointerState) -> (r: FramePass)
        requires
            self.wf(),
            self.phase == Phase::TexturePrerendered || self.phase == Phase::Running,
        ensures
            r == (FramePass {
                framebuffer: 0u32,
                quad_buffer: self.gpu->0.quad_buffer,
                program: self.gpu->0.julia_program,
                texture: self.gpu->0.texture,
                scale_loc: self.gpu->0.julia.scale,
                centre_loc: self.gpu->0.julia.centre,
                offset_loc: self.gpu->0.julia.offset,
                tex_loc: self.gpu->0.julia.tex,
                offset_x: pointer.x,
                offset_y: pointer.y,
                scale_thousandths: SCALE_THOUSANDTHS,
                screen: self.screen,
                vertex_count: QUAD_VERTEX_COUNT,
            }),
    {
        let gpu = self.gpu.as_ref().unwrap();
        FramePass {
            framebuffer: 0,
            quad_buffer: gpu.quad_buffer,
            program: gpu.julia_program,
            texture: gpu.texture,
            scale_loc: gpu.julia.scale,
            centre_loc: gpu.julia.centre,
            offset_loc: gpu.julia.offset,
            tex_loc: gpu.julia.tex,
            offset_x: pointer.x,
            offset_y: pointer.y,
            scale_thousandths: SCALE_THOUSANDTHS,
            screen: Screen { width: self.screen.width, height: self.screen.height },
            vertex_count: QUAD_VERTEX_COUNT,
        }
    }

    /// Record the end of a live frame.  A clean error code moves the
    /// renderer to `Running` and changes nothing else — in particular the
    /// prerendered texture and every other GPU object stay as installed —
    /// and a non-zero code is a fatal runtime error leaving the state
    /// untouched.
    pub fn complete_frame(&mut self, error_code: u32) -> (r: Result<(), RenderError>)
        requires
            old(self).wf(),
            old(self).phase == Phase::TexturePrerendered || old(self).phase == Phase::Running,
        ensures
            final(self).wf(),
            r is Ok <==> error_code == 0,
            r is Ok ==> *final(self) == (RendererState { phase: Phase::Running, ..*old(self) })
                && advances(old(self).phase, final(self).phase),
            r is Err ==> *final(self) == *old(self) && r->Err_0 == (RenderError::RuntimeError {
                code: error_code,
            }),
            phase_index(final(self).phase) >= phase_index(old(self).phase),
    {
        check_gpu_error(error_code)?;
        self.phase = Phase::Running;
        Ok(())
    }
}

/// The full-screen quad: four vertices in clip space forming a triangle
/// fan, each vertex `(x, y, z, w)` with the corners at `x, y` in
/// `{-1, 1}` and `z == w == 1`.  The driver converts each component to the
/// GPU's floating-point vertex format one for one.
pub fn quad_vertices() -> (r: Vec<i32>)
    ensures
        r@ == seq![
            -1i32, -1i32, 1i32, 1i32,
            1i32, -1i32, 1i32, 1i32,
            1i32, 1i32, 1i32, 1i32,
            -1i32, 1i32, 1i32, 1i32,
        ],
{
    let mut v: Vec<i32> = Vec::new();
    v.push(-1);
    v.push(-1);
    v.push(1);
    v.push(1);
    v.push(1);
    v.push(-1);
    v.push(1);
    v.push(1);
    v.push(1);
    v.push(1);
    v.push(1);
    v.push(1);
    v.push(-1);
    v.push(1);
    v.push(1);
    v.push(1);
    proof {
        assert(v@ =~= seq![
            -1i32, -1i32, 1i32, 1i32,
            1i32, -1i32, 1i32, 1i32,
            1i32, 1i32, 1i32, 1i32,
            -1i32, 1i32, 1i32, 1i32,
        ]);
    }
    v
}

} // verus!
