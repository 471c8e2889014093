//! The main loop's decisions, separated from the I/O that carries them out.
//!
//! The surrounding driver owns the real loop: it attempts to open the
//! device, reads packets, performs the GPU passes and swaps buffers.  The
//! session holds the long-lived state — renderer, pointer, whether the
//! device is open, whether a click has terminated the run — and decides,
//! from each read outcome, whether to read again, render a frame with the
//! current pointer position, or stop.

use vstd::prelude::*;

use crate::pointer::{button_pressed, sync_set, PointerState, ReadOutcome, Screen};
use crate::renderer::{FramePass, Phase, RendererState, QUAD_VERTEX_COUNT, SCALE_THOUSANDTHS};

verus! {

/// What the driver should do after handing the session one read outcome.
#[derive(Clone, Copy, Debug, PartialEq, Eq, Structural)]
pub enum LoopAction {
    /// The packet was mid-stream noise: read again before anything else.
    ReadAgain,
    /// Render one Julia frame with the current pointer position, then swap.
    RenderFrame,
    /// A button was clicked: leave the loop.
    Stop,
}

/// The long-lived state of one run: created once at startup, driven by the
/// main loop until a click terminates it.
pub struct Session {
    pub renderer: RendererState,
    pub pointer: PointerState,
    pub device_open: bool,
    pub terminated: bool,
}

impl Session {
    /// Session invariant: the renderer is well-formed and the pointer is
    /// on its screen.
    pub open spec fn wf(self) -> bool {
        self.renderer.wf() && self.pointer.wf(self.renderer.screen)
    }

    /// A fresh session: uninitialized renderer, pointer at the startup
    /// position, device not yet open, not terminated.
    pub fn new(screen: Screen) -> (r: Session)
        requires
            screen.wf(),
        ensures
            r.wf(),
            r.renderer.screen == screen,
            r.renderer.phase == Phase::Uninitialized,
            r.pointer == PointerState::new_spec(screen),
            !r.device_open,
            !r.terminated,
    {
        Session {
            renderer: RendererState::new(screen),
            pointer: PointerState::new(&screen),
            device_open: false,
            terminated: false,
        }
    }

    /// Record one attempt to open the device.  A failed attempt changes
    /// nothing — opening is retried on the next loop iteration — and a
    /// successful one marks the device open.
    pub fn device_opened(&mut self, success: bool)
        ensures
            *final(self) == (Session {
                device_open: old(self).device_open || success,
                ..*old(self)
            }),
    {
        if success {
            self.device_open = true;
        }
    }

    /// Decide the loop's next step from one read outcome.
    ///
    /// A short read renders a frame without moving the pointer; a packet
    /// without the sync marker asks for another read; a button click
    /// terminates the session with the pointer untouched; and a motion
    /// packet moves the pointer by its sign-corrected, clamped delta and
    /// renders a frame.  The renderer and the device flag never change.
    pub fn on_read(&mut self, outcome: ReadOutcome) -> (r: LoopAction)
        requires
            old(self).wf(),
            !old(self).terminated,
        ensures
            final(self).wf(),
            final(self).renderer == old(self).renderer,
            final(self).device_open == old(self).device_open,
            final(self).terminated == (r == LoopAction::Stop),
            outcome == ReadOutcome::Short ==> r == LoopAction::RenderFrame && final(self).pointer
                == old(self).pointer,
            outcome matches ReadOutcome::Full(p) ==> {
                &&& !sync_set(p.status) ==> r == LoopAction::ReadAgain && final(self).pointer
                    == old(self).pointer
                &&& sync_set(p.status) && button_pressed(p.status) ==> r == LoopAction::Stop
                    && final(self).pointer == old(self).pointer
                &&& sync_set(p.status) && !button_pressed(p.status) ==> r
                    == LoopAction::RenderFrame && final(self).pointer.x == old(
                    self,
                ).pointer.motion_x(p, old(self).renderer.screen) && final(self).pointer.y == old(
                    self,
                ).pointer.motion_y(p, old(self).renderer.screen)
            },
    {
        let screen = self.renderer.screen;
        let decoded = self.pointer.decode_step(outcome, &screen);
        match decoded {
            crate::pointer::Decoded::NoData => LoopAction::RenderFrame,
            crate::pointer::Decoded::Resync => LoopAction::ReadAgain,
            crate::pointer::Decoded::Terminate => {
                self.terminated = true;
                LoopAction::Stop
            },
            crate::pointer::Decoded::Moved => LoopAction::RenderFrame,
        }
    }

    /// The next Julia frame: the renderer's frame pass panned by the
    /// current pointer position.
    pub fn frame(&self) -> (r: FramePass)
        requires
            self.wf(),
            !self.terminated,
            self.renderer.phase == Phase::TexturePrerendered || self.renderer.phase
                == Phase::Running,
        ensures
            r == (FramePass {
                framebuffer: 0u32,
                quad_buffer: self.renderer.gpu->0.quad_buffer,
                program: self.renderer.gpu->0.julia_program,
                texture: self.renderer.gpu->0.texture,
                scale_loc: self.renderer.gpu->0.julia.scale,
                centre_loc: self.renderer.gpu->0.julia.centre,
                offset_loc: self.renderer.gpu->0.julia.offset,
                tex_loc: self.renderer.gpu->0.julia.tex,
                offset_x: self.pointer.x,
                offset_y: self.pointer.y,
                scale_thousandths: SCALE_THOUSANDTHS,
                screen: self.renderer.screen,
                vertex_count: QUAD_VERTEX_COUNT,
            }),
    {
        self.renderer.frame_pass(&self.pointer)
    }
}

} // verus!
