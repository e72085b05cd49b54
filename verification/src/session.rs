//! The life of the pipeline, as a state machine.
//!
//! The pipeline works through the host: it hands out a request, the host
//! carries it out on the device and reports back with a reply, and the reply
//! decides the next request. Until the first tick is registered the
//! scheduler is idle and the session walks through the start-up, step by
//! step. From then on it is running: every tick yields the plan of one frame,
//! which the host renders before it registers the next tick. A failure at any
//! point halts the session for good.

use vstd::prelude::*;
use crate::buffer::BufferRole;
use crate::error::{Fatal, FatalKind};
use crate::frame::{lemma_frame_layout, Command, FramePlan};
use crate::gl::Stage;
use crate::shader::{Attribute, ShaderProgram, Uniform};
use crate::transform::{AnimationClock, CameraParams};

verus! {

/// The number of steps of the start-up.
pub const SETUP_STEPS: usize = 16;

/// A step of the start-up.
#[derive(Clone, Copy, Debug, PartialEq, Eq, Structural)]
pub enum SetupStep {
    /// Find the drawing surface and get its graphics context.
    AcquireContext,
    /// Compile one stage from its source.
    Compile(Stage),
    /// Attach both stages to a new program and link it.
    Link,
    /// Make the program the current one.
    UseProgram,
    /// Look up the slot of an attribute.
    ResolveAttribute(Attribute),
    /// Enable the slot of an attribute.
    EnableAttribute(Attribute),
    /// Create a buffer and fill it with the image of one list of the mesh.
    Upload(BufferRole),
    /// Look up the location of a uniform.
    ResolveUniform(Uniform),
    /// Read the time at which the animation starts.
    ReadClock,
}

/// The start-up, in order.
pub open spec fn setup_script() -> Seq<SetupStep> {
    seq![
        SetupStep::AcquireContext,
        SetupStep::Compile(Stage::Fragment),
        SetupStep::Compile(Stage::Vertex),
        SetupStep::Link,
        SetupStep::UseProgram,
        SetupStep::ResolveAttribute(Attribute::Position),
        SetupStep::EnableAttribute(Attribute::Position),
        SetupStep::Upload(BufferRole::Position),
        SetupStep::Upload(BufferRole::Color),
        SetupStep::Upload(BufferRole::Index),
        SetupStep::Upload(BufferRole::Normal),
        SetupStep::ResolveAttribute(Attribute::Normal),
        SetupStep::ResolveUniform(Uniform::Projection),
        SetupStep::ResolveUniform(Uniform::ModelView),
        SetupStep::ResolveUniform(Uniform::Normal),
        SetupStep::ReadClock,
    ]
}

/// Step `at` of the start-up, or `None` behind its end.
pub fn setup_step(at: usize) -> (step: Option<SetupStep>)
    ensures
        step == (if at < SETUP_STEPS {
            Some(setup_script()[at as int])
        } else {
            None
        }),
        setup_script().len() == SETUP_STEPS,
{
    match at {
        0 => Some(SetupStep::AcquireContext),
        1 => Some(SetupStep::Compile(Stage::Fragment)),
        2 => Some(SetupStep::Compile(Stage::Vertex)),
        3 => Some(SetupStep::Link),
        4 => Some(SetupStep::UseProgram),
        5 => Some(SetupStep::ResolveAttribute(Attribute::Position)),
        6 => Some(SetupStep::EnableAttribute(Attribute::Position)),
        7 => Some(SetupStep::Upload(BufferRole::Position)),
        8 => Some(SetupStep::Upload(BufferRole::Color)),
        9 => Some(SetupStep::Upload(BufferRole::Index)),
        10 => Some(SetupStep::Upload(BufferRole::Normal)),
        11 => Some(SetupStep::ResolveAttribute(Attribute::Normal)),
        12 => Some(SetupStep::ResolveUniform(Uniform::Projection)),
        13 => Some(SetupStep::ResolveUniform(Uniform::ModelView)),
        14 => Some(SetupStep::ResolveUniform(Uniform::Normal)),
        15 => Some(SetupStep::ReadClock),
        _ => None,
    }
}

/// What the host is asked to do.
#[derive(Debug, PartialEq, Eq)]
pub enum Request {
    AcquireContext,
    CompileShader { stage: Stage },
    LinkProgram,
    UseProgram,
    ResolveAttribute { attribute: Attribute },
    EnableAttribute { slot: u32 },
    UploadBuffer { role: BufferRole },
    ResolveUniform { uniform: Uniform },
    ReadClock,
    /// Register the first tick.
    ScheduleTick,
    /// Render the frame of this plan, then register the next tick.
    Render { plan: FramePlan },
    /// Stop, and bring the cause before the operator.
    Halt { cause: Fatal },
}

/// What the host reports.
#[derive(Debug, PartialEq, Eq)]
pub enum Reply {
    /// The request is carried out; it has no result.
    Done,
    /// The request could not be carried out.
    Failed,
    /// The compile status of the stage, and the device's diagnostic.
    Compiled { succeeded: bool, log: String },
    /// The link status of the program, and the device's diagnostic.
    Linked { succeeded: bool, log: String },
    /// The slot of the attribute; negative where the program has none of
    /// that name.
    AttributeLocation { location: i32 },
    /// Whether the program has a location for the uniform.
    UniformLocation { found: bool },
    /// The time of the host's clock, in milliseconds.
    Clock { now_ms: u64 },
    /// A tick: the time of the host's clock in milliseconds, and the extent
    /// of the drawing surface as it is now.
    Tick { now_ms: u64, width: i32, height: i32 },
}

/// Where the session stands.
#[derive(Clone, Copy, Debug, PartialEq, Eq, Structural)]
pub enum Phase {
    /// No tick is registered yet. Step `next` of the start-up is with the
    /// host.
    Idle { next: usize },
    /// A tick is registered, or a frame is with the host.
    Running,
    /// The session has ended with a failure of the given kind.
    Halted { after: FatalKind },
}

/// The state of the pipeline between two replies.
#[derive(Clone, Copy, Debug, PartialEq, Eq, Structural)]
pub struct Session {
    pub phase: Phase,
    pub program: ShaderProgram,
    /// The time at which the animation started; set by the last step of the
    /// start-up.
    pub start_ms: u64,
}

/// The request that asks for a step of the start-up, or the failure where
/// the program lacks what the step needs.
pub open spec fn spec_request_for(step: SetupStep, program: ShaderProgram) -> Result<Request, Fatal> {
    match step {
        SetupStep::AcquireContext => Ok(Request::AcquireContext),
        SetupStep::Compile(stage) => Ok(Request::CompileShader { stage }),
        SetupStep::Link => Ok(Request::LinkProgram),
        SetupStep::UseProgram => Ok(Request::UseProgram),
        SetupStep::ResolveAttribute(attribute) => Ok(Request::ResolveAttribute { attribute }),
        SetupStep::EnableAttribute(attribute) => match program.spec_slot(attribute) {
            Some(slot) => Ok(Request::EnableAttribute { slot }),
            None => Err(Fatal::UnresolvedAttribute { attribute }),
        },
        SetupStep::Upload(role) => Ok(Request::UploadBuffer { role }),
        SetupStep::ResolveUniform(uniform) => Ok(Request::ResolveUniform { uniform }),
        SetupStep::ReadClock => Ok(Request::ReadClock),
    }
}

/// What a reply to a step of the start-up makes of the program and of the
/// start time, or the failure that it amounts to. A reply that is no answer
/// to the step is a refusal of the step.
pub open spec fn spec_accept(step: SetupStep, reply: Reply, program: ShaderProgram, start_ms: u64) -> Result<
    (ShaderProgram, u64),
    Fatal,
> {
    match (step, reply) {
        (SetupStep::AcquireContext, Reply::Done) => Ok((program, start_ms)),
        (SetupStep::Compile(stage), Reply::Compiled { succeeded, log }) => match program.after_compile(
            stage,
            succeeded,
            log,
        ).1 {
            Ok(_) => Ok((program.after_compile(stage, succeeded, log).0, start_ms)),
            Err(cause) => Err(cause),
        },
        (SetupStep::Link, Reply::Linked { succeeded, log }) => match program.after_link(succeeded, log).1 {
            Ok(_) => Ok((program.after_link(succeeded, log).0, start_ms)),
            Err(cause) => Err(cause),
        },
        (SetupStep::UseProgram, Reply::Done) => Ok((program, start_ms)),
        (SetupStep::ResolveAttribute(attribute), Reply::AttributeLocation { location }) => match program.after_attribute(
            attribute,
            location,
        ).1 {
            Ok(_) => Ok((program.after_attribute(attribute, location).0, start_ms)),
            Err(cause) => Err(cause),
        },
        (SetupStep::EnableAttribute(_), Reply::Done) => Ok((program, start_ms)),
        (SetupStep::Upload(_), Reply::Done) => Ok((program, start_ms)),
        (SetupStep::ResolveUniform(uniform), Reply::UniformLocation { found }) => match program.after_uniform(
            uniform,
            found,
        ).1 {
            Ok(_) => Ok((program.after_uniform(uniform, found).0, start_ms)),
            Err(cause) => Err(cause),
        },
        (SetupStep::ReadClock, Reply::Clock { now_ms }) => Ok((program, now_ms)),
        _ => Err(Fatal::Refused { step }),
    }
}

/// The request that a tick is answered with: the plan of the frame, or the
/// failure that ends the animation.
pub open spec fn spec_tick(program: ShaderProgram, start_ms: u64, now_ms: u64, width: i32, height: i32) -> Result<
    FramePlan,
    Fatal,
> {
    if !(width > 0 && height > 0) {
        Err(Fatal::DegenerateSurface { width, height })
    } else {
        match FramePlan::spec_new(
            program,
            CameraParams::of_surface(width, height),
            AnimationClock { start_ms, now_ms },
        ) {
            Some(plan) => Ok(plan),
            None => Err(Fatal::IncompleteProgram),
        }
    }
}

impl Session {
    /// The session before anything is done: the first step of the start-up
    /// is with the host.
    pub open spec fn initial() -> Session {
        Session { phase: Phase::Idle { next: 0 }, program: ShaderProgram::blank(), start_ms: 0 }
    }

    /// The session that has ended through `cause`.
    pub open spec fn halted(self, cause: Fatal) -> (Session, Request) {
        (Session { phase: Phase::Halted { after: cause.spec_kind() }, ..self }, Request::Halt { cause })
    }

    /// The session and the request that follow on `reply`.
    pub open spec fn spec_advance(self, reply: Reply) -> (Session, Request) {
        match self.phase {
            Phase::Idle { next } => {
                if next >= SETUP_STEPS {
                    self.halted(Fatal::Stopped { after: FatalKind::Setup })
                } else {
                    match spec_accept(setup_script()[next as int], reply, self.program, self.start_ms) {
                        Err(cause) => self.halted(cause),
                        Ok((program, start_ms)) => {
                            let accepted = Session { phase: self.phase, program, start_ms };
                            if next + 1 == SETUP_STEPS {
                                (Session { phase: Phase::Running, ..accepted }, Request::ScheduleTick)
                            } else {
                                match spec_request_for(setup_script()[next + 1], program) {
                                    Ok(request) => (
                                        Session { phase: Phase::Idle { next: (next + 1) as usize }, ..accepted },
                                        request,
                                    ),
                                    Err(cause) => accepted.halted(cause),
                                }
                            }
                        },
                    }
                }
            },
            Phase::Running => match reply {
                Reply::Tick { now_ms, width, height } => match spec_tick(
                    self.program,
                    self.start_ms,
                    now_ms,
                    width,
                    height,
                ) {
                    Ok(plan) => (self, Request::Render { plan }),
                    Err(cause) => self.halted(cause),
                },
                _ => self.halted(Fatal::RenderFailed),
            },
            Phase::Halted { after } => (self, Request::Halt { cause: Fatal::Stopped { after } }),
        }
    }

    /// What the program must have come to when step `next` of the start-up
    /// is with the host.
    pub open spec fn program_at(program: ShaderProgram, next: int) -> bool {
        &&& program.fragment_compiled <==> next >= 2
        &&& program.vertex_compiled <==> next >= 3
        &&& program.linked <==> next >= 4
        &&& program.position is Some <==> next >= 6
        &&& program.normal is Some <==> next >= 12
        &&& program.projection <==> next >= 13
        &&& program.model_view <==> next >= 14
        &&& program.normal_matrix <==> next >= 15
    }

    /// The states that a session can come to from its beginning: during the
    /// start-up the program has come exactly as far as the steps behind it
    /// have brought it, and a running session has a program that can draw.
    pub open spec fn wf(self) -> bool {
        match self.phase {
            Phase::Idle { next } => next < SETUP_STEPS && Session::program_at(self.program, next as int),
            Phase::Running => self.program.complete() && self.program.wf(),
            Phase::Halted { .. } => true,
        }
    }

    /// The session before anything is done, and the first request.
    pub fn new() -> (begun: (Session, Request))
        ensures
            begun == (Session::initial(), Request::AcquireContext),
    {
        (Session { phase: Phase::Idle { next: 0 }, program: ShaderProgram::new(), start_ms: 0 }, Request::AcquireContext)
    }

    fn halt(&mut self, cause: Fatal) -> (request: Request)
        ensures
            (*final(self), request) == old(self).halted(cause),
    {
        self.phase = Phase::Halted { after: cause.kind() };
        Request::Halt { cause }
    }

    /// Takes the host's reply to the last request and gives the next
    /// request.
    pub fn advance(&mut self, reply: Reply) -> (request: Request)
        ensures
            (*final(self), request) == old(self).spec_advance(reply),
    {
        match self.phase {
            Phase::Idle { next } => {
                let step = match setup_step(next) {
                    Some(step) => step,
                    None => {
                        return self.halt(Fatal::Stopped { after: FatalKind::Setup });
                    },
                };
                match accept(step, reply, &mut self.program, &mut self.start_ms) {
                    Err(cause) => self.halt(cause),
                    Ok(()) => match setup_step(next + 1) {
                        None => {
                            self.phase = Phase::Running;
                            Request::ScheduleTick
                        },
                        Some(following) => match request_for(following, &self.program) {
                            Ok(request) => {
                                self.phase = Phase::Idle { next: next + 1 };
                                request
                            },
                            Err(cause) => self.halt(cause),
                        },
                    },
                }
            },
            Phase::Running => match reply {
                Reply::Tick { now_ms, width, height } => match tick(
                    &self.program,
                    self.start_ms,
                    now_ms,
                    width,
                    height,
                ) {
                    Ok(plan) => Request::Render { plan },
                    Err(cause) => self.halt(cause),
                },
                _ => self.halt(Fatal::RenderFailed),
            },
            Phase::Halted { after } => Request::Halt { cause: Fatal::Stopped { after } },
        }
    }

    /// Whether a tick is registered: the scheduler is running.
    pub fn is_running(&self) -> (running: bool)
        ensures
            running == (self.phase is Running),
    {
        match self.phase {
            Phase::Running => true,
            _ => false,
        }
    }
}

/// The request that asks for a step of the start-up.
pub fn request_for(step: SetupStep, program: &ShaderProgram) -> (request: Result<Request, Fatal>)
    ensures
        request == spec_request_for(step, *program),
{
    match step {
        SetupStep::AcquireContext => Ok(Request::AcquireContext),
        SetupStep::Compile(stage) => Ok(Request::CompileShader { stage }),
        SetupStep::Link => Ok(Request::LinkProgram),
        SetupStep::UseProgram => Ok(Request::UseProgram),
        SetupStep::ResolveAttribute(attribute) => Ok(Request::ResolveAttribute { attribute }),
        SetupStep::EnableAttribute(attribute) => match program.slot(attribute) {
            Some(slot) => Ok(Request::EnableAttribute { slot }),
            None => Err(Fatal::UnresolvedAttribute { attribute }),
        },
        SetupStep::Upload(role) => Ok(Request::UploadBuffer { role }),
        SetupStep::ResolveUniform(uniform) => Ok(Request::ResolveUniform { uniform }),
        SetupStep::ReadClock => Ok(Request::ReadClock),
    }
}

/// Takes the host's reply to a step of the start-up into the program and the
/// start time. On a failure both are left as they were.
pub fn accept(step: SetupStep, reply: Reply, program: &mut ShaderProgram, start_ms: &mut u64) -> (outcome: Result<
    (),
    Fatal,
>)
    ensures
        match spec_accept(step, reply, *old(program), *old(start_ms)) {
            Ok(taken) => outcome == Ok::<(), Fatal>(()) && (*final(program), *final(start_ms)) == taken,
            Err(cause) => outcome == Err::<(), Fatal>(cause) && *final(program) == *old(program) && *final(start_ms)
                == *old(start_ms),
        },
{
    match (step, reply) {
        (SetupStep::AcquireContext, Reply::Done) => Ok(()),
        (SetupStep::Compile(stage), Reply::Compiled { succeeded, log }) => program.record_compile(
            stage,
            succeeded,
            log,
        ),
        (SetupStep::Link, Reply::Linked { succeeded, log }) => program.record_link(succeeded, log),
        (SetupStep::UseProgram, Reply::Done) => Ok(()),
        (SetupStep::ResolveAttribute(attribute), Reply::AttributeLocation { location }) => {
            match program.record_attribute(attribute, location) {
                Ok(_) => Ok(()),
                Err(cause) => Err(cause),
            }
        },
        (SetupStep::EnableAttribute(_), Reply::Done) => Ok(()),
        (SetupStep::Upload(_), Reply::Done) => Ok(()),
        (SetupStep::ResolveUniform(uniform), Reply::UniformLocation { found }) => program.record_uniform(
            uniform,
            found,
        ),
        (SetupStep::ReadClock, Reply::Clock { now_ms }) => {
            *start_ms = now_ms;
            Ok(())
        },
        _ => Err(Fatal::Refused { step }),
    }
}

/// The plan of the frame of a tick. The surface must have an extent and the
/// program must be able to draw; else the animation ends.
pub fn tick(program: &ShaderProgram, start_ms: u64, now_ms: u64, width: i32, height: i32) -> (plan: Result<
    FramePlan,
    Fatal,
>)
    ensures
        plan == spec_tick(*program, start_ms, now_ms, width, height),
{
    let camera = match CameraParams::for_surface(width, height) {
        Ok(camera) => camera,
        Err(cause) => {
            return Err(cause);
        },
    };
    match FramePlan::new(program, camera, AnimationClock { start_ms, now_ms }) {
        Some(plan) => Ok(plan),
        None => Err(Fatal::IncompleteProgram),
    }
}

/// The reply that lets a step of the start-up succeed.
pub open spec fn favourable(step: SetupStep, reply: Reply) -> bool {
    match (step, reply) {
        (SetupStep::AcquireContext, Reply::Done) => true,
        (SetupStep::Compile(_), Reply::Compiled { succeeded, .. }) => succeeded,
        (SetupStep::Link, Reply::Linked { succeeded, .. }) => succeeded,
        (SetupStep::UseProgram, Reply::Done) => true,
        (SetupStep::ResolveAttribute(_), Reply::AttributeLocation { location }) => location >= 0,
        (SetupStep::EnableAttribute(_), Reply::Done) => true,
        (SetupStep::Upload(_), Reply::Done) => true,
        (SetupStep::ResolveUniform(_), Reply::UniformLocation { found }) => found,
        (SetupStep::ReadClock, Reply::Clock { .. }) => true,
        _ => false,
    }
}

/// The failures that an unfavourable reply to a step of the start-up can
/// amount to: what the device reported of this step, or a refusal of it.
pub open spec fn reported(step: SetupStep, reply: Reply, cause: Fatal) -> bool {
    match cause {
        Fatal::Refused { step: refused } => refused == step,
        Fatal::CompileFailed { stage, log } => step == SetupStep::Compile(stage) && reply == Reply::Compiled {
            succeeded: false,
            log,
        },
        Fatal::LinkFailed { log } => step == SetupStep::Link && reply == Reply::Linked { succeeded: false, log },
        Fatal::UnresolvedAttribute { attribute } => step == SetupStep::ResolveAttribute(attribute),
        Fatal::UnresolvedUniform { uniform } => step == SetupStep::ResolveUniform(uniform),
        _ => false,
    }
}

/// The session after a run of replies, each taken in its turn.
pub open spec fn spec_run(session: Session, replies: Seq<Reply>) -> Session
    decreases replies.len(),
{
    if replies.len() == 0 {
        session
    } else {
        spec_run(session.spec_advance(replies[0]).0, replies.drop_first())
    }
}

/// A session begins in a state that it can be in.
pub proof fn lemma_initial_is_well_formed()
    ensures
        Session::initial().wf(),
        Session::initial().phase is Idle,
{
}

/// Whatever the host replies, a session stays in a state that it can be in.
pub proof fn lemma_advance_keeps_well_formed(session: Session, reply: Reply)
    requires
        session.wf(),
    ensures
        session.spec_advance(reply).0.wf(),
{
}

/// During the start-up a favourable reply, and no other, brings the session
/// on: to the next step and the request for it, and behind the last step to
/// the running state and the registration of the first tick. Any other reply
/// halts it. The failure is then what the device reported or a refusal of
/// the step; the session itself never asks for what the program is not ready
/// for.
pub proof fn lemma_setup_progress(session: Session, reply: Reply)
    requires
        session.wf(),
        session.phase is Idle,
    ensures
        ({
            let next = session.phase->next;
            let step = setup_script()[next as int];
            let (after, request) = session.spec_advance(reply);
            &&& favourable(step, reply) && next + 1 < SETUP_STEPS ==> after.phase == Phase::Idle {
                next: (next + 1) as usize,
            } && Ok::<Request, Fatal>(request) == spec_request_for(setup_script()[next + 1], after.program)
            &&& favourable(step, reply) && next + 1 == SETUP_STEPS ==> after.phase == Phase::Running && request
                == Request::ScheduleTick && reply == Reply::Clock { now_ms: after.start_ms }
            &&& !favourable(step, reply) ==> after.phase == Phase::Halted { after: FatalKind::Setup }
                && after.program == session.program && request is Halt && reported(step, reply, request->cause)
        }),
{
}

/// A name is looked up, a slot enabled and a frame drawn only with a program
/// that has linked, and so with stages that have both compiled.
pub proof fn lemma_lookups_follow_the_link(session: Session, reply: Reply)
    requires
        session.wf(),
    ensures
        ({
            let (after, request) = session.spec_advance(reply);
            (request is ResolveAttribute || request is ResolveUniform || request is EnableAttribute
                || request is Render) ==> after.program.linked && after.program.fragment_compiled
                && after.program.vertex_compiled
        }),
{
}

/// The scheduler leaves the idle state once, behind the last step of the
/// start-up, and never comes back to it; and a halted session stays halted,
/// whatever it is told.
pub proof fn lemma_phases_follow_one_another(session: Session, reply: Reply)
    ensures
        ({
            let (after, request) = session.spec_advance(reply);
            &&& session.phase is Running ==> !(after.phase is Idle)
            &&& session.phase is Halted ==> after == session && request == Request::Halt {
                cause: Fatal::Stopped { after: session.phase->after },
            }
            &&& session.phase is Idle && after.phase is Running ==> session.phase->next + 1 == SETUP_STEPS && request
                == Request::ScheduleTick
            &&& after.phase is Halted <==> request is Halt
        }),
{
}

/// While the session runs, a tick over a surface with an extent is answered
/// with the plan of a frame: the slots of the program, the camera of the
/// surface, and the clock from the start of the animation to the tick. The
/// session is left as it was, so that the same tick, given again, is
/// answered with the same plan. Any other reply ends the animation.
pub proof fn lemma_tick(session: Session, reply: Reply)
    requires
        session.wf(),
        session.phase is Running,
    ensures
        ({
            let (after, request) = session.spec_advance(reply);
            &&& reply matches Reply::Tick { now_ms, width, height } ==> if width > 0 && height > 0 {
                &&& after == session
                &&& request == Request::Render {
                    plan: FramePlan {
                        position_slot: session.program.position->0,
                        normal_slot: session.program.normal->0,
                        camera: CameraParams::of_surface(width, height),
                        clock: AnimationClock { start_ms: session.start_ms, now_ms },
                    },
                }
                &&& after.spec_advance(reply) == (after, request)
            } else {
                &&& after.phase == Phase::Halted { after: FatalKind::Frame }
                &&& request == Request::Halt { cause: Fatal::DegenerateSurface { width, height } }
            }
            &&& !(reply is Tick) ==> after.phase == Phase::Halted { after: FatalKind::Frame } && request
                == Request::Halt { cause: Fatal::RenderFailed }
        }),
{
}

/// With a host that answers every step favourably the start-up succeeds:
/// from step `next` on, as many favourable replies as steps are left bring
/// the session to the running state.
pub proof fn lemma_favourable_run_reaches_running(session: Session, replies: Seq<Reply>)
    requires
        session.wf(),
        session.phase is Idle,
        replies.len() == SETUP_STEPS - session.phase->next,
        forall|i: int|
            0 <= i < replies.len() ==> favourable(
                setup_script()[session.phase->next + i],
                #[trigger] replies[i],
            ),
    ensures
        spec_run(session, replies).phase is Running,
        spec_run(session, replies).wf(),
    decreases replies.len(),
{
    let next = session.phase->next;
    let after = session.spec_advance(replies[0]).0;
    lemma_setup_progress(session, replies[0]);
    lemma_advance_keeps_well_formed(session, replies[0]);
    let rest = replies.drop_first();
    if next + 1 == SETUP_STEPS {
        assert(rest.len() == 0);
        assert(spec_run(after, rest) == after);
    } else {
        assert forall|i: int| 0 <= i < rest.len() implies favourable(
            setup_script()[after.phase->next + i],
            #[trigger] rest[i],
        ) by {
            assert(rest[i] == replies[i + 1]);
        }
        lemma_favourable_run_reaches_running(after, rest);
    }
}

/// A frame of the cube uses what the start-up has made: it binds no buffer
/// that the start-up has not filled, declares and enables no slot but those
/// that the start-up has looked up, and uploads to no uniform whose location
/// the start-up has not looked up.
pub proof fn lemma_frames_use_what_the_start_up_made(plan: FramePlan, i: int)
    requires
        0 <= i < plan.spec_commands().len(),
    ensures
        plan.spec_commands()[i] matches Command::BindBuffer { buffer, .. } ==> setup_script().contains(
            SetupStep::Upload(buffer),
        ),
        plan.spec_commands()[i] matches Command::VertexAttribPointer { slot, .. } ==> slot == plan.position_slot
            || slot == plan.normal_slot,
        plan.spec_commands()[i] matches Command::EnableVertexAttribArray { slot } ==> slot == plan.position_slot
            || slot == plan.normal_slot,
        plan.spec_commands()[i] matches Command::UniformMatrix { uniform, .. } ==> setup_script().contains(
            SetupStep::ResolveUniform(uniform),
        ),
        setup_script().contains(SetupStep::ResolveAttribute(Attribute::Position)),
        setup_script().contains(SetupStep::ResolveAttribute(Attribute::Normal)),
{
    lemma_frame_layout(plan.spec_attributes(), FramePlan::spec_uniforms(), FramePlan::spec_draw());
    let script = setup_script();
    assert(script[5] == SetupStep::ResolveAttribute(Attribute::Position));
    assert(script[7] == SetupStep::Upload(BufferRole::Position));
    assert(script[9] == SetupStep::Upload(BufferRole::Index));
    assert(script[10] == SetupStep::Upload(BufferRole::Normal));
    assert(script[11] == SetupStep::ResolveAttribute(Attribute::Normal));
    assert(script[12] == SetupStep::ResolveUniform(Uniform::Projection));
    assert(script[13] == SetupStep::ResolveUniform(Uniform::ModelView));
    assert(script[14] == SetupStep::ResolveUniform(Uniform::Normal));
}

} // verus!
