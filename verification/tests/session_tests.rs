use fractal_pipeline::pointer::{Packet, ReadOutcome, Screen};
use fractal_pipeline::program::{
    CompileOutcome, LinkOutcome, RawJuliaLocations, RawMandelbrotLocations,
};
use fractal_pipeline::renderer::{InitReport, Phase};
use fractal_pipeline::session::{LoopAction, Session};

fn screen() -> Screen {
    Screen { width: 1920, height: 1080 }
}

fn good_report() -> InitReport {
    InitReport {
        vertex_shader: CompileOutcome { handle: 1, error_code: 0 },
        julia_shader: CompileOutcome { handle: 2, error_code: 0 },
        mandelbrot_shader: CompileOutcome { handle: 3, error_code: 0 },
        julia_link: LinkOutcome { program: 4, error_code: 0 },
        julia_locations: RawJuliaLocations { vertex: 0, scale: 1, centre: 2, offset: 3, tex: 4 },
        mandelbrot_link: LinkOutcome { program: 5, error_code: 0 },
        mandelbrot_locations: RawMandelbrotLocations { vertex: 0, scale: 1, centre: 2 },
        quad_buffer: 10,
        texture: 11,
        framebuffer: 12,
        error_code: 0,
    }
}

#[test]
fn fresh_session_state() {
    let s = Session::new(screen());
    assert_eq!(s.renderer.phase, Phase::Uninitialized);
    assert_eq!(s.pointer.x, 800);
    assert_eq!(s.pointer.y, 400);
    assert!(!s.device_open);
    assert!(!s.terminated);
}

#[test]
fn device_open_is_retried_until_it_succeeds() {
    let mut s = Session::new(screen());
    s.device_opened(false);
    assert!(!s.device_open);
    s.device_opened(true);
    assert!(s.device_open);
    s.device_opened(false);
    assert!(s.device_open);
}

#[test]
fn short_read_still_renders_a_frame() {
    let mut s = Session::new(screen());
    let r = s.on_read(ReadOutcome::Short);
    assert_eq!(r, LoopAction::RenderFrame);
    assert_eq!(s.pointer.x, 800);
    assert_eq!(s.pointer.y, 400);
    assert!(!s.terminated);
}

#[test]
fn noise_asks_for_another_read() {
    let mut s = Session::new(screen());
    let packet = Packet { status: 0b0000_0000, dx: 9, dy: 9 };
    let r = s.on_read(ReadOutcome::Full(packet));
    assert_eq!(r, LoopAction::ReadAgain);
    assert_eq!(s.pointer.x, 800);
    assert!(!s.terminated);
}

#[test]
fn click_stops_the_loop() {
    let mut s = Session::new(screen());
    let packet = Packet { status: 0b0000_1001, dx: 0, dy: 0 };
    let r = s.on_read(ReadOutcome::Full(packet));
    assert_eq!(r, LoopAction::Stop);
    assert!(s.terminated);
    assert_eq!(s.pointer.x, 800);
    assert_eq!(s.pointer.y, 400);
}

#[test]
fn motion_updates_the_next_frame() {
    let mut s = Session::new(screen());
    s.renderer.install_shaders(&good_report()).unwrap();
    s.renderer.complete_prerender(0).unwrap();

    let packet = Packet { status: 0b0000_1000, dx: 5, dy: 253 };
    let r = s.on_read(ReadOutcome::Full(packet));
    assert_eq!(r, LoopAction::RenderFrame);
    assert_eq!(s.pointer.x, 805);
    assert_eq!(s.pointer.y, 397);

    let pass = s.frame();
    assert_eq!(pass.offset_x, 805);
    assert_eq!(pass.offset_y, 397);
    assert_eq!(pass.framebuffer, 0);
    assert_eq!(pass.texture, 11);

    s.renderer.complete_frame(0).unwrap();
    assert_eq!(s.renderer.phase, Phase::Running);
}
