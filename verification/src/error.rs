//! The failures of the pipeline. All of them are fatal: none is retried, and
//! a pipeline that has met one renders nothing more.

use vstd::prelude::*;
use crate::gl::Stage;
use crate::session::SetupStep;
use crate::shader::{Attribute, Uniform};

verus! {

/// Where in the life of the pipeline a failure falls.
#[derive(Clone, Copy, Debug, PartialEq, Eq, Structural)]
pub enum FatalKind {
    /// Before the first frame: start-up ends here.
    Setup,
    /// While rendering: the animation ends here.
    Frame,
}

/// A fatal failure.
#[derive(Debug, PartialEq, Eq)]
pub enum Fatal {
    /// The host could not carry out a step of the start-up, or answered it
    /// with something that is no answer to it.
    Refused { step: SetupStep },
    /// A shader stage did not compile; `log` is the device's diagnostic.
    CompileFailed { stage: Stage, log: String },
    /// The program did not link; `log` is the device's diagnostic.
    LinkFailed { log: String },
    /// A program was to be linked before this stage had compiled.
    NotCompiled { stage: Stage },
    /// A name was to be looked up in a program that has not linked.
    NotLinked,
    /// The linked program has no attribute of this name.
    UnresolvedAttribute { attribute: Attribute },
    /// The linked program has no uniform of this name.
    UnresolvedUniform { uniform: Uniform },
    /// A frame was to be drawn with a program that lacks a slot or a
    /// location.
    IncompleteProgram,
    /// The drawing surface has no extent: its width or height is not
    /// positive.
    DegenerateSurface { width: i32, height: i32 },
    /// The host could not render a frame, or answered out of turn while the
    /// animation ran.
    RenderFailed,
    /// The pipeline had already ended with a failure of the given kind.
    Stopped { after: FatalKind },
}

impl Fatal {
    pub open spec fn spec_kind(&self) -> FatalKind {
        match self {
            Fatal::Refused { .. } => FatalKind::Setup,
            Fatal::CompileFailed { .. } => FatalKind::Setup,
            Fatal::LinkFailed { .. } => FatalKind::Setup,
            Fatal::NotCompiled { .. } => FatalKind::Setup,
            Fatal::NotLinked => FatalKind::Setup,
            Fatal::UnresolvedAttribute { .. } => FatalKind::Setup,
            Fatal::UnresolvedUniform { .. } => FatalKind::Setup,
            Fatal::IncompleteProgram => FatalKind::Frame,
            Fatal::DegenerateSurface { .. } => FatalKind::Frame,
            Fatal::RenderFailed => FatalKind::Frame,
            Fatal::Stopped { after } => *after,
        }
    }

    /// Whether the failure ends the start-up or the animation.
    pub fn kind(&self) -> (kind: FatalKind)
        ensures
            kind == self.spec_kind(),
    {
        match self {
            Fatal::Refused { .. } => FatalKind::Setup,
            Fatal::CompileFailed { .. } => FatalKind::Setup,
            Fatal::LinkFailed { .. } => FatalKind::Setup,
            Fatal::NotCompiled { .. } => FatalKind::Setup,
            Fatal::NotLinked => FatalKind::Setup,
            Fatal::UnresolvedAttribute { .. } => FatalKind::Setup,
            Fatal::UnresolvedUniform { .. } => FatalKind::Setup,
            Fatal::IncompleteProgram => FatalKind::Frame,
            Fatal::DegenerateSurface { .. } => FatalKind::Frame,
            Fatal::RenderFailed => FatalKind::Frame,
            Fatal::Stopped { after } => *after,
        }
    }
}

} // verus!
