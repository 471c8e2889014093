//! Acceptance rules for shader compilation, program linking and location
//! lookup.
//!
//! The GPU calls themselves are performed by the surrounding driver; these
//! functions decide, from the plain values the GPU handed back, whether the
//! pipeline may proceed, and with which typed error it must stop otherwise.
//! Compile and link diagnostics are non-fatal at the time they occur — the
//! log stays retrievable — but a missing required location is fatal.

use vstd::prelude::*;

use crate::error::{InputName, RenderError, Stage};

verus! {

/// Upper bound on the length of a retrieved compile or link log.
pub const MAX_LOG_LEN: u32 = 1024;

/// Iterations of the Mandelbrot escape loop for a weak GPU, the most such a
/// device can run without exhausting its memory.
pub const LOW_TIER_ITERATIONS: u32 = 18;

/// Iterations of the Mandelbrot escape loop for a capable GPU.
pub const HIGH_TIER_ITERATIONS: u32 = 512;

/// Iterations of the Julia escape loop, fixed for every device.
pub const JULIA_ITERATIONS: u32 = 16;

/// How capable the GPU is, selecting the Mandelbrot iteration count.
#[derive(Clone, Copy, Debug, PartialEq, Eq, Structural)]
pub enum GpuTier {
    Low,
    High,
}

/// The Mandelbrot iteration count for a device tier.
pub fn mandelbrot_iterations(tier: GpuTier) -> (r: u32)
    ensures
        tier == GpuTier::Low ==> r == LOW_TIER_ITERATIONS,
        tier == GpuTier::High ==> r == HIGH_TIER_ITERATIONS,
{
    match tier {
        GpuTier::Low => LOW_TIER_ITERATIONS,
        GpuTier::High => HIGH_TIER_ITERATIONS,
    }
}

/// What the GPU reported back for one shader compilation: the allocated
/// handle (null on allocation failure) and the error code read afterwards.
#[derive(Clone, Copy, Debug, PartialEq, Eq, Structural)]
pub struct CompileOutcome {
    pub handle: u32,
    pub error_code: u32,
}

/// What the GPU reported back for one program link, like `CompileOutcome`.
#[derive(Clone, Copy, Debug, PartialEq, Eq, Structural)]
pub struct LinkOutcome {
    pub program: u32,
    pub error_code: u32,
}

impl CompileOutcome {
    /// The compilation may be kept: a real handle and a clean error code.
    pub open spec fn accepted(self) -> bool {
        self.handle != 0 && self.error_code == 0
    }

    /// The error a rejected compilation surfaces: a null handle means the
    /// shader object itself could not be created; otherwise the non-zero
    /// error code is reported as a runtime error.
    pub open spec fn rejection(self, stage: Stage) -> RenderError {
        if self.handle == 0 {
            RenderError::CompileFailed { stage }
        } else {
            RenderError::RuntimeError { code: self.error_code }
        }
    }
}

impl LinkOutcome {
    /// The link may be kept: a real program handle and a clean error code.
    pub open spec fn accepted(self) -> bool {
        self.program != 0 && self.error_code == 0
    }

    /// The error a rejected link surfaces, like `CompileOutcome::rejection`.
    pub open spec fn rejection(self) -> RenderError {
        if self.program == 0 {
            RenderError::LinkFailed
        } else {
            RenderError::RuntimeError { code: self.error_code }
        }
    }
}

/// Accept or reject one shader compilation.
///
/// A failed GLSL compilation is not itself fatal — its log remains
/// retrievable — so only a null handle or a non-zero error code rejects.
pub fn accept_compile(stage: Stage, o: &CompileOutcome) -> (r: Result<u32, RenderError>)
    ensures
        r is Ok <==> o.accepted(),
        r is Ok ==> r->Ok_0 == o.handle,
        r is Err ==> r->Err_0 == o.rejection(stage),
{
    if o.handle == 0 {
        Err(RenderError::CompileFailed { stage })
    } else if o.error_code != 0 {
        Err(RenderError::RuntimeError { code: o.error_code })
    } else {
        Ok(o.handle)
    }
}

/// Accept or reject one program link, like `accept_compile`.
pub fn accept_link(o: &LinkOutcome) -> (r: Result<u32, RenderError>)
    ensures
        r is Ok <==> o.accepted(),
        r is Ok ==> r->Ok_0 == o.program,
        r is Err ==> r->Err_0 == o.rejection(),
{
    if o.program == 0 {
        Err(RenderError::LinkFailed)
    } else if o.error_code != 0 {
        Err(RenderError::RuntimeError { code: o.error_code })
    } else {
        Ok(o.program)
    }
}

/// Judge a GPU error code: zero is accepted, anything else is a fatal
/// runtime error carrying the code.
pub fn check_gpu_error(code: u32) -> (r: Result<(), RenderError>)
    ensures
        r is Ok <==> code == 0,
        r is Err ==> r->Err_0 == (RenderError::RuntimeError { code }),
{
    if code == 0 {
        Ok(())
    } else {
        Err(RenderError::RuntimeError { code })
    }
}

/// Demand a resolved attribute location: non-negative, returned as the
/// unsigned index the vertex-input calls take.
pub fn require_attrib(name: InputName, loc: i32) -> (r: Result<u32, RenderError>)
    ensures
        r is Ok <==> loc >= 0,
        r is Ok ==> r->Ok_0 == loc,
        r is Err ==> r->Err_0 == (RenderError::RequiredLocationMissing { name }),
{
    if loc >= 0 {
        Ok(loc as u32)
    } else {
        Err(RenderError::RequiredLocationMissing { name })
    }
}

/// Demand a resolved uniform location: non-negative.
pub fn require_uniform(name: InputName, loc: i32) -> (r: Result<i32, RenderError>)
    ensures
        r is Ok <==> loc >= 0,
        r is Ok ==> r->Ok_0 == loc,
        r is Err ==> r->Err_0 == (RenderError::RequiredLocationMissing { name }),
{
    if loc >= 0 {
        Ok(loc)
    } else {
        Err(RenderError::RequiredLocationMissing { name })
    }
}

/// The raw locations the GPU resolved for the Julia program, as reported:
/// negative means not found.
#[derive(Clone, Copy, Debug, PartialEq, Eq, Structural)]
pub struct RawJuliaLocations {
    pub vertex: i32,
    pub scale: i32,
    pub centre: i32,
    pub offset: i32,
    pub tex: i32,
}

/// The raw locations the GPU resolved for the Mandelbrot program.
#[derive(Clone, Copy, Debug, PartialEq, Eq, Structural)]
pub struct RawMandelbrotLocations {
    pub vertex: i32,
    pub scale: i32,
    pub centre: i32,
}

/// The validated locations of the Julia program: every required input
/// resolved, the attribute already as an unsigned index.
#[derive(Clone, Copy, Debug, PartialEq, Eq, Structural)]
pub struct JuliaLocations {
    pub vertex: u32,
    pub scale: i32,
    pub centre: i32,
    pub offset: i32,
    pub tex: i32,
}

/// The validated locations of the Mandelbrot program.
#[derive(Clone, Copy, Debug, PartialEq, Eq, Structural)]
pub struct MandelbrotLocations {
    pub vertex: u32,
    pub scale: i32,
    pub centre: i32,
}

impl RawJuliaLocations {
    /// All required Julia inputs resolved.
    pub open spec fn all_found(self) -> bool {
        self.vertex >= 0 && self.scale >= 0 && self.centre >= 0 && self.offset >= 0 && self.tex
            >= 0
    }

    /// The first missing input, in the order the inputs are demanded.
    pub open spec fn first_missing(self) -> InputName {
        if self.vertex < 0 {
            InputName::Vertex
        } else if self.scale < 0 {
            InputName::Scale
        } else if self.centre < 0 {
            InputName::Centre
        } else if self.offset < 0 {
            InputName::Offset
        } else {
            InputName::Tex
        }
    }
}

impl RawMandelbrotLocations {
    /// All required Mandelbrot inputs resolved.
    pub open spec fn all_found(self) -> bool {
        self.vertex >= 0 && self.scale >= 0 && self.centre >= 0
    }

    /// The first missing input, in the order the inputs are demanded.
    pub open spec fn first_missing(self) -> InputName {
        if self.vertex < 0 {
            InputName::Vertex
        } else if self.scale < 0 {
            InputName::Scale
        } else {
            InputName::Centre
        }
    }
}

/// Validate the Julia program's locations: succeeds exactly when the
/// `vertex` attribute and the `scale`, `centre`, `offset` and `tex`
/// uniforms all resolved, and otherwise names the first missing one.
pub fn validate_julia_locations(raw: &RawJuliaLocations) -> (r: Result<
    JuliaLocations,
    RenderError,
>)
    ensures
        r is Ok <==> raw.all_found(),
        r is Ok ==> r->Ok_0 == (JuliaLocations {
            vertex: raw.vertex as u32,
            scale: raw.scale,
            centre: raw.centre,
            offset: raw.offset,
            tex: raw.tex,
        }),
        r is Err ==> r->Err_0 == (RenderError::RequiredLocationMissing {
            name: raw.first_missing(),
        }),
{
    let vertex = require_attrib(InputName::Vertex, raw.vertex)?;
    let scale = require_uniform(InputName::Scale, raw.scale)?;
    let centre = require_uniform(InputName::Centre, raw.centre)?;
    let offset = require_uniform(InputName::Offset, raw.offset)?;
    let tex = require_uniform(InputName::Tex, raw.tex)?;
    Ok(JuliaLocations { vertex, scale, centre, offset, tex })
}

/// Validate the Mandelbrot program's locations, like
/// `validate_julia_locations` for its three required inputs.
pub fn validate_mandelbrot_locations(raw: &RawMandelbrotLocations) -> (r: Result<
    MandelbrotLocations,
    RenderError,
>)
    ensures
        r is Ok <==> raw.all_found(),
        r is Ok ==> r->Ok_0 == (MandelbrotLocations {
            vertex: raw.vertex as u32,
            scale: raw.scale,
            centre: raw.centre,
        }),
        r is Err ==> r->Err_0 == (RenderError::RequiredLocationMissing {
            name: raw.first_missing(),
        }),
{
    let vertex = require_attrib(InputName::Vertex, raw.vertex)?;
    let scale = require_uniform(InputName::Scale, raw.scale)?;
    let centre = require_uniform(InputName::Centre, raw.centre)?;
    Ok(MandelbrotLocations { vertex, scale, centre })
}

} // verus!
