//! Typed errors for the rendering pipeline.
//!
//! The GPU reports failures as numeric error codes and null handles; the
//! pipeline turns each into one of these variants and propagates it to the
//! caller, which owns the decision to abort.

use vstd::prelude::*;

verus! {

/// The two shader stages a program is linked from.
#[derive(Clone, Copy, Debug, PartialEq, Eq, Structural)]
pub enum Stage {
    Vertex,
    Fragment,
}

/// The named shader inputs rendering cannot proceed without: the `vertex`
/// attribute and the `scale`, `centre`, `offset` and `tex` uniforms.
#[derive(Clone, Copy, Debug, PartialEq, Eq, Structural)]
pub enum InputName {
    Vertex,
    Scale,
    Centre,
    Offset,
    Tex,
}

/// GL error code reported when a command is illegal for the current state;
/// the one code with a known-cause explanation in the diagnostics.
pub const GL_INVALID_OPERATION: u32 = 0x0502;

/// A failure surfaced by the rendering pipeline.
#[derive(Clone, Copy, Debug, PartialEq, Eq, Structural)]
pub enum RenderError {
    /// The GPU handed back a null handle for a shader object.
    CompileFailed { stage: Stage },
    /// The GPU handed back a null handle for a program object.
    LinkFailed,
    /// A non-zero error code after a state-changing GPU call.
    RuntimeError { code: u32 },
    /// A required attribute or uniform did not resolve to a location.
    RequiredLocationMissing { name: InputName },
}

/// The known-cause explanation attached to a recognized GPU error code.
///
/// Exactly the code `GL_INVALID_OPERATION` has one.
pub fn known_cause(code: u32) -> (r: Option<&'static str>)
    ensures
        r is Some <==> code == GL_INVALID_OPERATION,
        r matches Some(s) ==> s@
            == "the set of state for a command is not legal for the parameters given to that command"@,
{
    if code == GL_INVALID_OPERATION {
        Some(
            "the set of state for a command is not legal for the parameters given to that command",
        )
    } else {
        None
    }
}

impl RenderError {
    /// A short diagnostic naming the kind of failure.
    pub fn describe(&self) -> (r: &'static str)
        ensures
            self matches RenderError::CompileFailed { stage: Stage::Vertex } ==> r@
                == "vertex shader object could not be created"@,
            self matches RenderError::CompileFailed { stage: Stage::Fragment } ==> r@
                == "fragment shader object could not be created"@,
            self is LinkFailed ==> r@ == "program object could not be created"@,
            self is RuntimeError ==> r@ == "the GPU reported a non-zero error code"@,
            self is RequiredLocationMissing ==> r@
                == "a required attribute or uniform location did not resolve"@,
    {
        match self {
            RenderError::CompileFailed { stage: Stage::Vertex } => {
                "vertex shader object could not be created"
            },
            RenderError::CompileFailed { stage: Stage::Fragment } => {
                "fragment shader object could not be created"
            },
            RenderError::LinkFailed => "program object could not be created",
            RenderError::RuntimeError { code: _ } => "the GPU reported a non-zero error code",
            RenderError::RequiredLocationMissing { name: _ } => {
                "a required attribute or uniform location did not resolve"
            },
        }
    }
}

} // verus!
