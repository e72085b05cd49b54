//! A retained-mode rendering pipeline for one lit, rotating cube.
//!
//! The library decides; the host performs. Everything the graphics device is
//! asked to do is produced here as plain values: the cube's geometry and the
//! byte images of its buffers, the per-frame command list, the recipe for the
//! frame's matrices, and the state machine that leads from start-up to the
//! running animation.

use vstd::prelude::*;
use crate::session::{Request, Session};

pub mod buffer;
pub mod error;
pub mod frame;
pub mod gl;
pub mod mesh;
pub mod session;
pub mod shader;
pub mod transform;

verus! {

/// The identifier of the drawing surface that the pipeline renders to.
pub fn surface_id() -> (id: &'static str)
    ensures
        id@ == "canvas"@,
{
    "canvas"
}

/// Starts the pipeline: the session in its first state, and the first
/// request to the host, which is for the graphics context of the drawing
/// surface.
pub fn start() -> (begun: (Session, Request))
    ensures
        begun == (Session::initial(), Request::AcquireContext),
        begun.0.wf(),
{
    Session::new()
}

} // verus!
