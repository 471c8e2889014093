//! Core logic of a two-pass GPU fractal viewer: a pointer-protocol decoder
//! that turns raw device packets into a clamped screen position, and the
//! state machine that sequences the Mandelbrot prerender pass and the live
//! Julia pass.

pub mod error;
pub mod pointer;
pub mod program;
pub mod renderer;
pub mod session;
