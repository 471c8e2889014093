use fractal_pipeline::error::{known_cause, InputName, RenderError, Stage, GL_INVALID_OPERATION};
use fractal_pipeline::program::{
    accept_compile, accept_link, check_gpu_error, mandelbrot_iterations, validate_julia_locations,
    validate_mandelbrot_locations, CompileOutcome, GpuTier, LinkOutcome, RawJuliaLocations,
    RawMandelbrotLocations, HIGH_TIER_ITERATIONS, JULIA_ITERATIONS, LOW_TIER_ITERATIONS,
};

#[test]
fn compile_accepted_returns_handle() {
    let o = CompileOutcome { handle: 7, error_code: 0 };
    assert_eq!(accept_compile(Stage::Fragment, &o), Ok(7));
}

#[test]
fn compile_null_handle_is_compile_failed() {
    let o = CompileOutcome { handle: 0, error_code: 0 };
    assert_eq!(
        accept_compile(Stage::Vertex, &o),
        Err(RenderError::CompileFailed { stage: Stage::Vertex })
    );
}

#[test]
fn compile_gpu_error_is_runtime_error() {
    let o = CompileOutcome { handle: 7, error_code: 0x0505 };
    assert_eq!(
        accept_compile(Stage::Fragment, &o),
        Err(RenderError::RuntimeError { code: 0x0505 })
    );
}

#[test]
fn link_accepted_returns_program() {
    let o = LinkOutcome { program: 3, error_code: 0 };
    assert_eq!(accept_link(&o), Ok(3));
}

#[test]
fn link_null_program_is_link_failed() {
    let o = LinkOutcome { program: 0, error_code: 0 };
    assert_eq!(accept_link(&o), Err(RenderError::LinkFailed));
}

#[test]
fn gpu_error_code_zero_passes() {
    assert_eq!(check_gpu_error(0), Ok(()));
    assert_eq!(
        check_gpu_error(0x0502),
        Err(RenderError::RuntimeError { code: 0x0502 })
    );
}

#[test]
fn known_cause_covers_invalid_operation_only() {
    assert!(known_cause(GL_INVALID_OPERATION).is_some());
    assert!(known_cause(0).is_none());
    assert!(known_cause(0x0505).is_none());
}

#[test]
fn error_descriptions_are_distinct_diagnostics() {
    let compile = RenderError::CompileFailed { stage: Stage::Vertex };
    let link = RenderError::LinkFailed;
    let runtime = RenderError::RuntimeError { code: 1 };
    let missing = RenderError::RequiredLocationMissing { name: InputName::Tex };
    assert!(!compile.describe().is_empty());
    assert_ne!(compile.describe(), link.describe());
    assert_ne!(link.describe(), runtime.describe());
    assert_ne!(runtime.describe(), missing.describe());
}

#[test]
fn julia_locations_all_found() {
    let raw = RawJuliaLocations { vertex: 0, scale: 1, centre: 2, offset: 3, tex: 4 };
    let v = validate_julia_locations(&raw).unwrap();
    assert_eq!(v.vertex, 0);
    assert_eq!(v.scale, 1);
    assert_eq!(v.centre, 2);
    assert_eq!(v.offset, 3);
    assert_eq!(v.tex, 4);
}

#[test]
fn julia_missing_offset_is_fatal() {
    let raw = RawJuliaLocations { vertex: 0, scale: 1, centre: 2, offset: -1, tex: 4 };
    assert_eq!(
        validate_julia_locations(&raw),
        Err(RenderError::RequiredLocationMissing { name: InputName::Offset })
    );
}

#[test]
fn julia_first_missing_input_is_named() {
    let raw = RawJuliaLocations { vertex: -1, scale: 1, centre: 2, offset: 3, tex: -1 };
    assert_eq!(
        validate_julia_locations(&raw),
        Err(RenderError::RequiredLocationMissing { name: InputName::Vertex })
    );
}

#[test]
fn mandelbrot_locations_all_found() {
    let raw = RawMandelbrotLocations { vertex: 5, scale: 6, centre: 7 };
    let v = validate_mandelbrot_locations(&raw).unwrap();
    assert_eq!(v.vertex, 5);
    assert_eq!(v.scale, 6);
    assert_eq!(v.centre, 7);
}

#[test]
fn mandelbrot_missing_centre_is_fatal() {
    let raw = RawMandelbrotLocations { vertex: 5, scale: 6, centre: -1 };
    assert_eq!(
        validate_mandelbrot_locations(&raw),
        Err(RenderError::RequiredLocationMissing { name: InputName::Centre })
    );
}

#[test]
fn iteration_counts_per_tier() {
    assert_eq!(mandelbrot_iterations(GpuTier::Low), 18);
    assert_eq!(mandelbrot_iterations(GpuTier::High), 512);
    assert_eq!(LOW_TIER_ITERATIONS, 18);
    assert_eq!(HIGH_TIER_ITERATIONS, 512);
    assert_eq!(JULIA_ITERATIONS, 16);
}
