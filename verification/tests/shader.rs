use webgl_cube::error::{Fatal, FatalKind};
use webgl_cube::gl::Stage;
use webgl_cube::shader::{source, Attribute, ShaderProgram, Uniform, FRAGMENT_SOURCE, VERTEX_SOURCE};

fn linked() -> ShaderProgram {
    let mut program = ShaderProgram::new();
    program.record_compile(Stage::Fragment, true, String::new()).unwrap();
    program.record_compile(Stage::Vertex, true, String::new()).unwrap();
    program.record_link(true, String::new()).unwrap();
    program
}

#[test]
fn names_of_attributes_and_uniforms() {
    assert_eq!(Attribute::Position.name(), "aVertexPosition");
    assert_eq!(Attribute::Normal.name(), "aVertexNormal");
    assert_eq!(Uniform::Projection.name(), "uProjectionMatrix");
    assert_eq!(Uniform::ModelView.name(), "uModelViewMatrix");
    assert_eq!(Uniform::Normal.name(), "uNormalMatrix");
}

#[test]
fn vertex_source_declares_every_name_that_is_looked_up() {
    let vertex = source(Stage::Vertex);
    assert_eq!(vertex, VERTEX_SOURCE);
    assert!(vertex.contains(&format!("attribute vec4 {};", Attribute::Position.name())));
    assert!(vertex.contains(&format!("attribute vec3 {};", Attribute::Normal.name())));
    for uniform in [Uniform::Projection, Uniform::ModelView, Uniform::Normal] {
        assert!(vertex.contains(&format!("uniform mat4 {};", uniform.name())));
    }
}

#[test]
fn stages_share_the_lighting_varying() {
    let fragment = source(Stage::Fragment);
    assert_eq!(fragment, FRAGMENT_SOURCE);
    assert!(fragment.contains("varying highp vec3 vLighting;"));
    assert!(source(Stage::Vertex).contains("varying highp vec3 vLighting;"));
    assert!(fragment.contains("gl_FragColor = vec4(vec3(1, 1, 1) * vLighting, 1);"));
    assert!(fragment.starts_with("\n    varying"));
    assert!(source(Stage::Vertex).ends_with("    }\n"));
}

#[test]
fn new_program_has_nothing() {
    let program = ShaderProgram::new();
    assert!(!program.fragment_compiled && !program.vertex_compiled && !program.linked);
    assert_eq!(program.slot(Attribute::Position), None);
    assert_eq!(program.slot(Attribute::Normal), None);
    assert!(!program.is_complete());
}

#[test]
fn compile_failure_carries_the_log() {
    let mut program = ShaderProgram::new();
    let outcome = program.record_compile(Stage::Vertex, false, String::from("0:3 syntax error"));
    assert_eq!(outcome, Err(Fatal::CompileFailed { stage: Stage::Vertex, log: String::from("0:3 syntax error") }));
    assert_eq!(program, ShaderProgram::new());
    assert_eq!(outcome.unwrap_err().kind(), FatalKind::Setup);
}

#[test]
fn compile_success_marks_the_stage() {
    let mut program = ShaderProgram::new();
    assert_eq!(program.record_compile(Stage::Fragment, true, String::new()), Ok(()));
    assert!(program.fragment_compiled && !program.vertex_compiled);
    assert_eq!(program.record_compile(Stage::Vertex, true, String::from("warning")), Ok(()));
    assert!(program.fragment_compiled && program.vertex_compiled && !program.linked);
}

#[test]
fn link_is_refused_before_both_stages_compiled() {
    let mut program = ShaderProgram::new();
    assert_eq!(program.record_link(true, String::new()), Err(Fatal::NotCompiled { stage: Stage::Fragment }));
    program.record_compile(Stage::Fragment, true, String::new()).unwrap();
    assert_eq!(program.record_link(true, String::new()), Err(Fatal::NotCompiled { stage: Stage::Vertex }));
    assert!(!program.linked);
}

#[test]
fn link_failure_carries_the_log() {
    let mut program = ShaderProgram::new();
    program.record_compile(Stage::Fragment, true, String::new()).unwrap();
    program.record_compile(Stage::Vertex, true, String::new()).unwrap();
    let outcome = program.record_link(false, String::from("varying mismatch"));
    assert_eq!(outcome, Err(Fatal::LinkFailed { log: String::from("varying mismatch") }));
    assert!(!program.linked);
    assert_eq!(program.record_link(true, String::new()), Ok(()));
    assert!(program.linked);
}

#[test]
fn lookups_are_refused_on_a_program_that_has_not_linked() {
    let mut program = ShaderProgram::new();
    assert_eq!(program.record_attribute(Attribute::Position, 0), Err(Fatal::NotLinked));
    assert_eq!(program.record_uniform(Uniform::Projection, true), Err(Fatal::NotLinked));
    program.record_compile(Stage::Fragment, true, String::new()).unwrap();
    program.record_compile(Stage::Vertex, true, String::new()).unwrap();
    assert_eq!(program.record_attribute(Attribute::Normal, 1), Err(Fatal::NotLinked));
    assert_eq!(program.slot(Attribute::Normal), None);
}

#[test]
fn attribute_slot_is_the_location() {
    let mut program = linked();
    assert_eq!(program.record_attribute(Attribute::Position, 0), Ok(0));
    assert_eq!(program.record_attribute(Attribute::Normal, 7), Ok(7));
    assert_eq!(program.slot(Attribute::Position), Some(0));
    assert_eq!(program.slot(Attribute::Normal), Some(7));
    assert_eq!(program.record_attribute(Attribute::Normal, i32::MAX), Ok(2147483647));
}

#[test]
fn missing_attribute_fails_fast() {
    let mut program = linked();
    assert_eq!(
        program.record_attribute(Attribute::Normal, -1),
        Err(Fatal::UnresolvedAttribute { attribute: Attribute::Normal })
    );
    assert_eq!(program.slot(Attribute::Normal), None);
    assert_eq!(
        program.record_attribute(Attribute::Position, i32::MIN),
        Err(Fatal::UnresolvedAttribute { attribute: Attribute::Position })
    );
}

#[test]
fn missing_uniform_fails_fast() {
    let mut program = linked();
    assert_eq!(
        program.record_uniform(Uniform::ModelView, false),
        Err(Fatal::UnresolvedUniform { uniform: Uniform::ModelView })
    );
    assert!(!program.model_view);
    assert_eq!(program.record_uniform(Uniform::ModelView, true), Ok(()));
    assert!(program.model_view);
}

#[test]
fn program_is_complete_when_everything_is_resolved() {
    let mut program = linked();
    program.record_attribute(Attribute::Position, 0).unwrap();
    program.record_attribute(Attribute::Normal, 1).unwrap();
    program.record_uniform(Uniform::Projection, true).unwrap();
    program.record_uniform(Uniform::ModelView, true).unwrap();
    assert!(!program.is_complete());
    program.record_uniform(Uniform::Normal, true).unwrap();
    assert!(program.is_complete());
}

#[test]
fn kinds_of_failures() {
    assert_eq!(Fatal::NotLinked.kind(), FatalKind::Setup);
    assert_eq!(Fatal::LinkFailed { log: String::new() }.kind(), FatalKind::Setup);
    assert_eq!(Fatal::NotCompiled { stage: Stage::Vertex }.kind(), FatalKind::Setup);
    assert_eq!(Fatal::UnresolvedUniform { uniform: Uniform::Normal }.kind(), FatalKind::Setup);
    assert_eq!(Fatal::IncompleteProgram.kind(), FatalKind::Frame);
    assert_eq!(Fatal::DegenerateSurface { width: 0, height: 0 }.kind(), FatalKind::Frame);
    assert_eq!(Fatal::RenderFailed.kind(), FatalKind::Frame);
    assert_eq!(Fatal::Stopped { after: FatalKind::Setup }.kind(), FatalKind::Setup);
    assert_eq!(Fatal::Stopped { after: FatalKind::Frame }.kind(), FatalKind::Frame);
}
