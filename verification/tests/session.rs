use webgl_cube::buffer::BufferRole;
use webgl_cube::error::{Fatal, FatalKind};
use webgl_cube::frame::FramePlan;
use webgl_cube::gl::Stage;
use webgl_cube::session::{accept, request_for, setup_step, tick, Phase, Reply, Request, Session, SetupStep};
use webgl_cube::shader::{Attribute, ShaderProgram, Uniform};
use webgl_cube::transform::{AnimationClock, CameraParams};
use webgl_cube::{start, surface_id};

fn ok_log() -> String {
    String::new()
}

fn favourable(step: SetupStep) -> Reply {
    match step {
        SetupStep::AcquireContext => Reply::Done,
        SetupStep::Compile(_) => Reply::Compiled { succeeded: true, log: ok_log() },
        SetupStep::Link => Reply::Linked { succeeded: true, log: ok_log() },
        SetupStep::UseProgram => Reply::Done,
        SetupStep::ResolveAttribute(Attribute::Position) => Reply::AttributeLocation { location: 0 },
        SetupStep::ResolveAttribute(Attribute::Normal) => Reply::AttributeLocation { location: 1 },
        SetupStep::EnableAttribute(_) => Reply::Done,
        SetupStep::Upload(_) => Reply::Done,
        SetupStep::ResolveUniform(_) => Reply::UniformLocation { found: true },
        SetupStep::ReadClock => Reply::Clock { now_ms: 0 },
    }
}

fn brought_to(step: usize) -> Session {
    let (mut session, _) = start();
    for at in 0..step {
        let request = session.advance(favourable(setup_step(at).unwrap()));
        assert!(!matches!(request, Request::Halt { .. }));
    }
    session
}

fn running() -> Session {
    let session = brought_to(16);
    assert!(session.is_running());
    session
}

#[test]
fn surface_is_the_canvas() {
    assert_eq!(surface_id(), "canvas");
}

#[test]
fn start_asks_for_the_context() {
    let (session, request) = start();
    assert_eq!(request, Request::AcquireContext);
    assert_eq!(session, Session { phase: Phase::Idle { next: 0 }, program: ShaderProgram::new(), start_ms: 0 });
    assert!(!session.is_running());
    assert_eq!(Session::new(), start());
}

#[test]
fn setup_script_in_order() {
    let expected = [
        SetupStep::AcquireContext,
        SetupStep::Compile(Stage::Fragment),
        SetupStep::Compile(Stage::Vertex),
        SetupStep::Link,
        SetupStep::UseProgram,
        SetupStep::ResolveAttribute(Attribute::Position),
        SetupStep::EnableAttribute(Attribute::Position),
        SetupStep::Upload(BufferRole::Position),
        SetupStep::Upload(BufferRole::Color),
        SetupStep::Upload(BufferRole::Index),
        SetupStep::Upload(BufferRole::Normal),
        SetupStep::ResolveAttribute(Attribute::Normal),
        SetupStep::ResolveUniform(Uniform::Projection),
        SetupStep::ResolveUniform(Uniform::ModelView),
        SetupStep::ResolveUniform(Uniform::Normal),
        SetupStep::ReadClock,
    ];
    for (at, step) in expected.iter().enumerate() {
        assert_eq!(setup_step(at), Some(*step));
    }
    assert_eq!(setup_step(16), None);
    assert_eq!(setup_step(usize::MAX), None);
}

#[test]
fn favourable_start_up_issues_every_request_in_order() {
    let (mut session, first) = start();
    let mut requests = vec![first];
    for at in 0..16 {
        requests.push(session.advance(favourable(setup_step(at).unwrap())));
    }
    assert_eq!(
        requests,
        vec![
            Request::AcquireContext,
            Request::CompileShader { stage: Stage::Fragment },
            Request::CompileShader { stage: Stage::Vertex },
            Request::LinkProgram,
            Request::UseProgram,
            Request::ResolveAttribute { attribute: Attribute::Position },
            Request::EnableAttribute { slot: 0 },
            Request::UploadBuffer { role: BufferRole::Position },
            Request::UploadBuffer { role: BufferRole::Color },
            Request::UploadBuffer { role: BufferRole::Index },
            Request::UploadBuffer { role: BufferRole::Normal },
            Request::ResolveAttribute { attribute: Attribute::Normal },
            Request::ResolveUniform { uniform: Uniform::Projection },
            Request::ResolveUniform { uniform: Uniform::ModelView },
            Request::ResolveUniform { uniform: Uniform::Normal },
            Request::ReadClock,
            Request::ScheduleTick,
        ]
    );
    assert!(session.is_running());
    assert!(session.program.is_complete());
}

#[test]
fn start_time_is_the_clock_reply() {
    let mut session = brought_to(15);
    assert_eq!(session.phase, Phase::Idle { next: 15 });
    assert_eq!(session.advance(Reply::Clock { now_ms: 1_700_000_000_000 }), Request::ScheduleTick);
    assert_eq!(session.phase, Phase::Running);
    assert_eq!(session.start_ms, 1_700_000_000_000);
}

#[test]
fn enabled_slot_is_the_resolved_one() {
    let mut session = brought_to(5);
    assert_eq!(session.advance(Reply::AttributeLocation { location: 9 }), Request::EnableAttribute { slot: 9 });
    assert_eq!(session.program.slot(Attribute::Position), Some(9));
}

#[test]
fn missing_context_is_fatal() {
    let (mut session, _) = start();
    let request = session.advance(Reply::Failed);
    assert_eq!(request, Request::Halt { cause: Fatal::Refused { step: SetupStep::AcquireContext } });
    assert_eq!(session.phase, Phase::Halted { after: FatalKind::Setup });
}

#[test]
fn compile_failure_is_fatal_and_carries_the_log() {
    for (at, stage) in [(1, Stage::Fragment), (2, Stage::Vertex)] {
        let mut session = brought_to(at);
        let request = session.advance(Reply::Compiled { succeeded: false, log: String::from("ERROR: 0:5") });
        assert_eq!(
            request,
            Request::Halt { cause: Fatal::CompileFailed { stage, log: String::from("ERROR: 0:5") } }
        );
        assert_eq!(session.phase, Phase::Halted { after: FatalKind::Setup });
    }
}

#[test]
fn link_failure_is_fatal_and_carries_the_log() {
    let mut session = brought_to(3);
    let request = session.advance(Reply::Linked { succeeded: false, log: String::from("link error") });
    assert_eq!(request, Request::Halt { cause: Fatal::LinkFailed { log: String::from("link error") } });
    assert_eq!(session.phase, Phase::Halted { after: FatalKind::Setup });
    assert!(!session.program.linked);
}

#[test]
fn unresolved_names_are_fatal() {
    let mut session = brought_to(5);
    assert_eq!(
        session.advance(Reply::AttributeLocation { location: -1 }),
        Request::Halt { cause: Fatal::UnresolvedAttribute { attribute: Attribute::Position } }
    );
    let mut session = brought_to(11);
    assert_eq!(
        session.advance(Reply::AttributeLocation { location: -1 }),
        Request::Halt { cause: Fatal::UnresolvedAttribute { attribute: Attribute::Normal } }
    );
    for (at, uniform) in [(12, Uniform::Projection), (13, Uniform::ModelView), (14, Uniform::Normal)] {
        let mut session = brought_to(at);
        assert_eq!(
            session.advance(Reply::UniformLocation { found: false }),
            Request::Halt { cause: Fatal::UnresolvedUniform { uniform } }
        );
        assert_eq!(session.phase, Phase::Halted { after: FatalKind::Setup });
    }
}

#[test]
fn buffer_failure_is_fatal() {
    for (at, role) in
        [(7, BufferRole::Position), (8, BufferRole::Color), (9, BufferRole::Index), (10, BufferRole::Normal)]
    {
        let mut session = brought_to(at);
        assert_eq!(
            session.advance(Reply::Failed),
            Request::Halt { cause: Fatal::Refused { step: SetupStep::Upload(role) } }
        );
    }
}

#[test]
fn reply_out_of_turn_is_a_refusal_of_the_step() {
    for at in 0..16 {
        let step = setup_step(at).unwrap();
        let mut session = brought_to(at);
        let before = session;
        let request = session.advance(Reply::Tick { now_ms: 1, width: 1, height: 1 });
        assert_eq!(request, Request::Halt { cause: Fatal::Refused { step } });
        assert_eq!(session.phase, Phase::Halted { after: FatalKind::Setup });
        assert_eq!(session.program, before.program);
        assert_eq!(session.start_ms, before.start_ms);
    }
}

#[test]
fn halted_session_stays_halted() {
    let (mut session, _) = start();
    session.advance(Reply::Failed);
    let halted = session;
    for _ in 0..3 {
        assert_eq!(
            session.advance(Reply::Done),
            Request::Halt { cause: Fatal::Stopped { after: FatalKind::Setup } }
        );
        assert_eq!(session, halted);
    }
    assert_eq!(
        session.advance(Reply::Tick { now_ms: 5, width: 640, height: 480 }),
        Request::Halt { cause: Fatal::Stopped { after: FatalKind::Setup } }
    );
    assert!(!session.is_running());
}

#[test]
fn tick_is_answered_with_the_plan_of_a_frame() {
    let mut session = running();
    let request = session.advance(Reply::Tick { now_ms: 1000, width: 640, height: 480 });
    assert_eq!(
        request,
        Request::Render {
            plan: FramePlan {
                position_slot: 0,
                normal_slot: 1,
                camera: CameraParams::for_surface(640, 480).unwrap(),
                clock: AnimationClock { start_ms: 0, now_ms: 1000 },
            },
        }
    );
    assert!(session.is_running());
}

#[test]
fn camera_follows_the_surface_from_tick_to_tick() {
    let mut session = running();
    let first = session.advance(Reply::Tick { now_ms: 16, width: 640, height: 480 });
    let second = session.advance(Reply::Tick { now_ms: 33, width: 800, height: 600 });
    match (first, second) {
        (Request::Render { plan: a }, Request::Render { plan: b }) => {
            assert_eq!((a.camera.width, a.camera.height), (640, 480));
            assert_eq!((b.camera.width, b.camera.height), (800, 600));
        }
        _ => panic!("both ticks render"),
    }
}

#[test]
fn same_tick_again_gives_the_same_plan() {
    let mut session = running();
    let before = session;
    let first = session.advance(Reply::Tick { now_ms: 500, width: 640, height: 480 });
    assert_eq!(session, before);
    let again = session.advance(Reply::Tick { now_ms: 500, width: 640, height: 480 });
    assert_eq!(first, again);
    assert_eq!(session, before);
}

#[test]
fn increasing_ticks_give_distinct_plans() {
    let mut session = running();
    let mut plans = Vec::new();
    for now_ms in [1u64, 2, 3, 17, 1000, 1001] {
        match session.advance(Reply::Tick { now_ms, width: 640, height: 480 }) {
            Request::Render { plan } => plans.push(plan),
            _ => panic!("a tick renders"),
        }
    }
    for i in 0..plans.len() {
        for j in (i + 1)..plans.len() {
            assert_ne!(plans[i], plans[j]);
            assert_ne!(plans[i].model_view(), plans[j].model_view());
            assert_eq!(plans[i].commands(), plans[j].commands());
        }
    }
}

#[test]
fn surface_without_extent_ends_the_animation() {
    let mut session = running();
    let request = session.advance(Reply::Tick { now_ms: 10, width: 640, height: 0 });
    assert_eq!(request, Request::Halt { cause: Fatal::DegenerateSurface { width: 640, height: 0 } });
    assert_eq!(session.phase, Phase::Halted { after: FatalKind::Frame });
    assert_eq!(
        session.advance(Reply::Tick { now_ms: 20, width: 640, height: 480 }),
        Request::Halt { cause: Fatal::Stopped { after: FatalKind::Frame } }
    );
}

#[test]
fn failed_frame_ends_the_animation() {
    for reply in [Reply::Failed, Reply::Done, Reply::Clock { now_ms: 3 }] {
        let mut session = running();
        assert_eq!(session.advance(reply), Request::Halt { cause: Fatal::RenderFailed });
        assert_eq!(session.phase, Phase::Halted { after: FatalKind::Frame });
    }
}

#[test]
fn session_behind_the_script_is_stopped() {
    let mut session = Session { phase: Phase::Idle { next: 16 }, program: ShaderProgram::new(), start_ms: 0 };
    assert_eq!(session.advance(Reply::Done), Request::Halt { cause: Fatal::Stopped { after: FatalKind::Setup } });
    assert_eq!(session.phase, Phase::Halted { after: FatalKind::Setup });
}

#[test]
fn running_session_with_an_incomplete_program_cannot_draw() {
    let mut session = Session { phase: Phase::Running, program: ShaderProgram::new(), start_ms: 0 };
    assert_eq!(
        session.advance(Reply::Tick { now_ms: 1, width: 2, height: 2 }),
        Request::Halt { cause: Fatal::IncompleteProgram }
    );
    assert_eq!(tick(&ShaderProgram::new(), 0, 1, 2, 2), Err(Fatal::IncompleteProgram));
    assert_eq!(tick(&ShaderProgram::new(), 0, 1, 0, 2), Err(Fatal::DegenerateSurface { width: 0, height: 2 }));
}

#[test]
fn enabling_an_unresolved_attribute_is_refused() {
    let program = ShaderProgram::new();
    assert_eq!(
        request_for(SetupStep::EnableAttribute(Attribute::Normal), &program),
        Err(Fatal::UnresolvedAttribute { attribute: Attribute::Normal })
    );
    assert_eq!(request_for(SetupStep::Link, &program), Ok(Request::LinkProgram));
}

#[test]
fn accept_leaves_the_state_alone_on_failure() {
    let mut program = ShaderProgram::new();
    let mut start_ms = 77;
    let outcome = accept(SetupStep::ReadClock, Reply::Done, &mut program, &mut start_ms);
    assert_eq!(outcome, Err(Fatal::Refused { step: SetupStep::ReadClock }));
    assert_eq!((program, start_ms), (ShaderProgram::new(), 77));
    let outcome = accept(SetupStep::ReadClock, Reply::Clock { now_ms: 5 }, &mut program, &mut start_ms);
    assert_eq!(outcome, Ok(()));
    assert_eq!(start_ms, 5);
}
