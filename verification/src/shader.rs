//! The shader program: its two sources, the names it declares, and the
//! record of how far it has come.
//!
//! The device compiles, links and looks names up; this module holds what is
//! known of the program afterwards, and refuses what must not be asked of a
//! program in its state: linking before both stages compiled, a lookup before
//! the program linked.

use vstd::prelude::*;
use crate::error::Fatal;
use crate::gl::Stage;

verus! {

/// The source of the fragment stage: white, dimmed by the lighting that the
/// vertex stage hands over.
pub const FRAGMENT_SOURCE: &'static str = "
    varying highp vec3 vLighting;

    void main(void) {
        gl_FragColor = vec4(vec3(1, 1, 1) * vLighting, 1);
    }
";

/// The source of the vertex stage: it places the vertex, and lights it with
/// an ambient and a directional light from the transformed normal.
pub const VERTEX_SOURCE: &'static str = "
    attribute vec4 aVertexPosition;
    attribute vec3 aVertexNormal;

    uniform mat4 uNormalMatrix;
    uniform mat4 uModelViewMatrix;
    uniform mat4 uProjectionMatrix;

    varying highp vec3 vLighting;

    void main(void) {
        gl_Position = uProjectionMatrix * uModelViewMatrix * aVertexPosition;
        // Apply lighting effect
        highp vec3 ambientLight = vec3(0.3, 0.3, 0.3);
        highp vec3 directionalLightColor = vec3(1, 1, 1);
        highp vec3 directionalVector = normalize(vec3(0.85, 0.8, 0.75));
        highp vec4 transformedNormal = uNormalMatrix * vec4(aVertexNormal, 1.0);
        highp float directional = max(dot(transformedNormal.xyz, directionalVector), 0.0);
        vLighting = ambientLight + (directionalLightColor * directional);
    }
";

/// The source of a stage.
pub fn source(stage: Stage) -> (source: &'static str)
    ensures
        source@ == (match stage {
            Stage::Fragment => FRAGMENT_SOURCE@,
            Stage::Vertex => VERTEX_SOURCE@,
        }),
{
    match stage {
        Stage::Fragment => FRAGMENT_SOURCE,
        Stage::Vertex => VERTEX_SOURCE,
    }
}

/// A per-vertex input of the vertex stage.
#[derive(Clone, Copy, Debug, PartialEq, Eq, Structural)]
pub enum Attribute {
    Position,
    Normal,
}

/// A matrix that is constant over one draw call.
#[derive(Clone, Copy, Debug, PartialEq, Eq, Structural)]
pub enum Uniform {
    Projection,
    ModelView,
    Normal,
}

impl Attribute {
    pub open spec fn spec_name(self) -> Seq<char> {
        match self {
            Attribute::Position => "aVertexPosition"@,
            Attribute::Normal => "aVertexNormal"@,
        }
    }

    /// The name under which the vertex stage declares the attribute.
    pub fn name(self) -> (name: &'static str)
        ensures
            name@ == self.spec_name(),
    {
        match self {
            Attribute::Position => "aVertexPosition",
            Attribute::Normal => "aVertexNormal",
        }
    }
}

impl Uniform {
    pub open spec fn spec_name(self) -> Seq<char> {
        match self {
            Uniform::Projection => "uProjectionMatrix"@,
            Uniform::ModelView => "uModelViewMatrix"@,
            Uniform::Normal => "uNormalMatrix"@,
        }
    }

    /// The name under which the vertex stage declares the uniform.
    pub fn name(self) -> (name: &'static str)
        ensures
            name@ == self.spec_name(),
    {
        match self {
            Uniform::Projection => "uProjectionMatrix",
            Uniform::ModelView => "uModelViewMatrix",
            Uniform::Normal => "uNormalMatrix",
        }
    }
}

/// What is known of the program on the device.
#[derive(Clone, Copy, Debug, PartialEq, Eq, Structural)]
pub struct ShaderProgram {
    pub fragment_compiled: bool,
    pub vertex_compiled: bool,
    pub linked: bool,
    /// The slot of the position attribute, once resolved.
    pub position: Option<u32>,
    /// The slot of the normal attribute, once resolved.
    pub normal: Option<u32>,
    /// Whether the location of the projection matrix is resolved.
    pub projection: bool,
    /// Whether the location of the model-view matrix is resolved.
    pub model_view: bool,
    /// Whether the location of the normal matrix is resolved.
    pub normal_matrix: bool,
}

impl ShaderProgram {
    /// A program links only after both of its stages compiled, and a name is
    /// resolved only in a linked program.
    pub open spec fn wf(self) -> bool {
        &&& self.linked ==> self.fragment_compiled && self.vertex_compiled
        &&& self.position is Some ==> self.linked
        &&& self.normal is Some ==> self.linked
        &&& self.projection ==> self.linked
        &&& self.model_view ==> self.linked
        &&& self.normal_matrix ==> self.linked
    }

    /// The program of which nothing has been done yet.
    pub open spec fn blank() -> ShaderProgram {
        ShaderProgram {
            fragment_compiled: false,
            vertex_compiled: false,
            linked: false,
            position: None,
            normal: None,
            projection: false,
            model_view: false,
            normal_matrix: false,
        }
    }

    pub open spec fn compiled(self, stage: Stage) -> bool {
        match stage {
            Stage::Fragment => self.fragment_compiled,
            Stage::Vertex => self.vertex_compiled,
        }
    }

    pub open spec fn spec_slot(self, attribute: Attribute) -> Option<u32> {
        match attribute {
            Attribute::Position => self.position,
            Attribute::Normal => self.normal,
        }
    }

    pub open spec fn resolved(self, uniform: Uniform) -> bool {
        match uniform {
            Uniform::Projection => self.projection,
            Uniform::ModelView => self.model_view,
            Uniform::Normal => self.normal_matrix,
        }
    }

    /// The program is linked, and every attribute and uniform of it is
    /// resolved: it can draw.
    pub open spec fn complete(self) -> bool {
        &&& self.linked
        &&& self.position is Some
        &&& self.normal is Some
        &&& self.projection
        &&& self.model_view
        &&& self.normal_matrix
    }

    /// The program after a compile of `stage` that the device reports as
    /// `succeeded`, with the diagnostic `log`.
    pub open spec fn after_compile(self, stage: Stage, succeeded: bool, log: String) -> (
        ShaderProgram,
        Result<(), Fatal>,
    ) {
        if !succeeded {
            (self, Err(Fatal::CompileFailed { stage, log }))
        } else {
            match stage {
                Stage::Fragment => (ShaderProgram { fragment_compiled: true, ..self }, Ok(())),
                Stage::Vertex => (ShaderProgram { vertex_compiled: true, ..self }, Ok(())),
            }
        }
    }

    /// The program after a link that the device reports as `succeeded`, with
    /// the diagnostic `log`.
    pub open spec fn after_link(self, succeeded: bool, log: String) -> (ShaderProgram, Result<(), Fatal>) {
        if !self.fragment_compiled {
            (self, Err(Fatal::NotCompiled { stage: Stage::Fragment }))
        } else if !self.vertex_compiled {
            (self, Err(Fatal::NotCompiled { stage: Stage::Vertex }))
        } else if !succeeded {
            (self, Err(Fatal::LinkFailed { log }))
        } else {
            (ShaderProgram { linked: true, ..self }, Ok(()))
        }
    }

    /// The program after the device answered the lookup of `attribute` with
    /// `location`, which is negative where the program has no such
    /// attribute.
    pub open spec fn after_attribute(self, attribute: Attribute, location: i32) -> (
        ShaderProgram,
        Result<u32, Fatal>,
    ) {
        if !self.linked {
            (self, Err(Fatal::NotLinked))
        } else if location < 0 {
            (self, Err(Fatal::UnresolvedAttribute { attribute }))
        } else {
            match attribute {
                Attribute::Position => (
                    ShaderProgram { position: Some(location as u32), ..self },
                    Ok(location as u32),
                ),
                Attribute::Normal => (
                    ShaderProgram { normal: Some(location as u32), ..self },
                    Ok(location as u32),
                ),
            }
        }
    }

    /// The program after the device answered the lookup of `uniform`:
    /// `found` says whether it gave a location.
    pub open spec fn after_uniform(self, uniform: Uniform, found: bool) -> (ShaderProgram, Result<(), Fatal>) {
        if !self.linked {
            (self, Err(Fatal::NotLinked))
        } else if !found {
            (self, Err(Fatal::UnresolvedUniform { uniform }))
        } else {
            match uniform {
                Uniform::Projection => (ShaderProgram { projection: true, ..self }, Ok(())),
                Uniform::ModelView => (ShaderProgram { model_view: true, ..self }, Ok(())),
                Uniform::Normal => (ShaderProgram { normal_matrix: true, ..self }, Ok(())),
            }
        }
    }

    pub fn new() -> (program: ShaderProgram)
        ensures
            program == ShaderProgram::blank(),
    {
        ShaderProgram {
            fragment_compiled: false,
            vertex_compiled: false,
            linked: false,
            position: None,
            normal: None,
            projection: false,
            model_view: false,
            normal_matrix: false,
        }
    }

    /// Takes note of a compile. A stage that did not compile is a fatal
    /// failure, which carries the device's diagnostic.
    pub fn record_compile(&mut self, stage: Stage, succeeded: bool, log: String) -> (outcome: Result<(), Fatal>)
        ensures
            (*final(self), outcome) == old(self).after_compile(stage, succeeded, log),
    {
        if !succeeded {
            return Err(Fatal::CompileFailed { stage, log });
        }
        match stage {
            Stage::Fragment => {
                self.fragment_compiled = true;
            },
            Stage::Vertex => {
                self.vertex_compiled = true;
            },
        }
        Ok(())
    }

    /// Takes note of a link. It is refused unless both stages compiled; a
    /// program that did not link is a fatal failure, which carries the
    /// device's diagnostic.
    pub fn record_link(&mut self, succeeded: bool, log: String) -> (outcome: Result<(), Fatal>)
        ensures
            (*final(self), outcome) == old(self).after_link(succeeded, log),
    {
        if !self.fragment_compiled {
            return Err(Fatal::NotCompiled { stage: Stage::Fragment });
        }
        if !self.vertex_compiled {
            return Err(Fatal::NotCompiled { stage: Stage::Vertex });
        }
        if !succeeded {
            return Err(Fatal::LinkFailed { log });
        }
        self.linked = true;
        Ok(())
    }

    /// Takes note of the slot of an attribute, and returns it. The lookup is
    /// refused on a program that has not linked; a name that the program
    /// lacks is a fatal failure.
    pub fn record_attribute(&mut self, attribute: Attribute, location: i32) -> (outcome: Result<u32, Fatal>)
        ensures
            (*final(self), outcome) == old(self).after_attribute(attribute, location),
    {
        if !self.linked {
            return Err(Fatal::NotLinked);
        }
        if location < 0 {
            return Err(Fatal::UnresolvedAttribute { attribute });
        }
        let slot: u32 = location as u32;
        match attribute {
            Attribute::Position => {
                self.position = Some(slot);
            },
            Attribute::Normal => {
                self.normal = Some(slot);
            },
        }
        Ok(slot)
    }

    /// Takes note of the lookup of a uniform. It is refused on a program
    /// that has not linked; a name that the program lacks is a fatal
    /// failure.
    pub fn record_uniform(&mut self, uniform: Uniform, found: bool) -> (outcome: Result<(), Fatal>)
        ensures
            (*final(self), outcome) == old(self).after_uniform(uniform, found),
    {
        if !self.linked {
            return Err(Fatal::NotLinked);
        }
        if !found {
            return Err(Fatal::UnresolvedUniform { uniform });
        }
        match uniform {
            Uniform::Projection => {
                self.projection = true;
            },
            Uniform::ModelView => {
                self.model_view = true;
            },
            Uniform::Normal => {
                self.normal_matrix = true;
            },
        }
        Ok(())
    }

    /// The slot of an attribute, once it is resolved.
    pub fn slot(&self, attribute: Attribute) -> (slot: Option<u32>)
        ensures
            slot == self.spec_slot(attribute),
    {
        match attribute {
            Attribute::Position => self.position,
            Attribute::Normal => self.normal,
        }
    }

    pub fn is_complete(&self) -> (complete: bool)
        ensures
            complete == self.complete(),
    {
        self.linked && self.position.is_some() && self.normal.is_some() && self.projection
            && self.model_view && self.normal_matrix
    }

    /// No step breaks the order of things: whatever is recorded of a
    /// well-formed program, and however the device answers, the program
    /// stays well formed.
    pub proof fn lemma_records_keep_well_formed(
        self,
        stage: Stage,
        attribute: Attribute,
        uniform: Uniform,
        succeeded: bool,
        log: String,
        location: i32,
    )
        requires
            self.wf(),
        ensures
            self.after_compile(stage, succeeded, log).0.wf(),
            self.after_link(succeeded, log).0.wf(),
            self.after_attribute(attribute, location).0.wf(),
            self.after_uniform(uniform, succeeded).0.wf(),
    {
    }

    /// A lookup succeeds only on a linked program, and linking only on one
    /// whose stages both compiled.
    pub proof fn lemma_lookups_need_a_linked_program(
        self,
        attribute: Attribute,
        uniform: Uniform,
        succeeded: bool,
        log: String,
        location: i32,
    )
        ensures
            self.after_attribute(attribute, location).1 is Ok ==> self.linked && location >= 0,
            self.after_uniform(uniform, succeeded).1 is Ok ==> self.linked && succeeded,
            self.after_link(succeeded, log).1 is Ok ==> self.fragment_compiled && self.vertex_compiled
                && succeeded,
    {
    }
}

} // verus!
