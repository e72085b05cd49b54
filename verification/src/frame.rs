//! The frame renderer: what the device is told, in order, to draw one frame.
//!
//! A frame is a list of commands. Nothing of the device's state is taken to
//! last from one frame to the next, so every frame clears the framebuffer,
//! binds, declares and enables each vertex attribute, activates the program,
//! uploads each matrix and draws.

use vstd::prelude::*;
use crate::buffer::{element_count, image, BufferRole};
use crate::gl::{BufferTarget, Capability, ClearMask, Comparison, ComponentType, Topology};
use crate::mesh::{lemma_cube_is_well_formed, MeshView};
use crate::shader::{Attribute, ShaderProgram, Uniform};
use crate::transform::{model_view, spec_model_view, AnimationClock, CameraParams, MatrixSource, Transform};

verus! {

/// The number of indices that draw the cube.
pub const CUBE_INDEX_COUNT: i32 = 36;

/// How the device is to read one attribute out of the bound buffer.
#[derive(Clone, Copy, Debug, PartialEq, Eq, Structural)]
pub struct AttributeLayout {
    /// The number of components per vertex.
    pub components: i32,
    pub component_type: ComponentType,
    /// Whether integer data is to be scaled into the unit range.
    pub normalized: bool,
    /// The distance in bytes from one vertex to the next; 0 where the
    /// vertices are packed.
    pub stride: i32,
    /// The byte at which the first vertex begins.
    pub offset: i32,
}

impl AttributeLayout {
    /// Packed single-precision components, from the start of the buffer.
    pub open spec fn packed_floats(components: i32) -> AttributeLayout {
        AttributeLayout {
            components,
            component_type: ComponentType::Float,
            normalized: false,
            stride: 0,
            offset: 0,
        }
    }

    /// The distance in bytes from one vertex to the next.
    pub open spec fn pitch(self) -> int {
        if self.stride == 0 {
            self.components * self.component_type.spec_size()
        } else {
            self.stride as int
        }
    }

    /// The first byte behind vertex `v`.
    pub open spec fn end_of(self, v: int) -> int {
        self.offset + v * self.pitch() + self.components * self.component_type.spec_size()
    }
}

/// A vertex attribute in use: the slot of the program, the buffer that feeds
/// it, and how it is read.
#[derive(Clone, Copy, Debug, PartialEq, Eq, Structural)]
pub struct AttributeBinding {
    pub slot: u32,
    pub buffer: BufferRole,
    pub layout: AttributeLayout,
}

/// A matrix to upload: the uniform that takes it, and where it comes from.
#[derive(Clone, Copy, Debug, PartialEq, Eq, Structural)]
pub struct UniformUpload {
    pub uniform: Uniform,
    pub source: MatrixSource,
}

/// The draw call that ends a frame.
#[derive(Clone, Copy, Debug, PartialEq, Eq, Structural)]
pub enum DrawCall {
    /// Draw `count` vertices in buffer order, beginning with vertex `first`.
    Arrays { topology: Topology, first: i32, count: i32 },
    /// Draw the vertices that `count` indices name; the indices are read
    /// from byte `offset` of the buffer `indices`.
    Elements { topology: Topology, count: i32, index_type: ComponentType, offset: i32, indices: BufferRole },
}

/// One call on the device.
#[derive(Clone, Copy, Debug, PartialEq, Eq, Structural)]
pub enum Command {
    /// Set the colour that a clear writes; each channel runs from 0 to 255.
    ClearColor { red: u8, green: u8, blue: u8, alpha: u8 },
    Enable { capability: Capability },
    DepthFunc { comparison: Comparison },
    Clear { mask: ClearMask },
    BindBuffer { target: BufferTarget, buffer: BufferRole },
    VertexAttribPointer { slot: u32, layout: AttributeLayout },
    EnableVertexAttribArray { slot: u32 },
    UseProgram,
    /// Upload a four-by-four matrix, column by column.
    UniformMatrix { uniform: Uniform, transpose: bool, source: MatrixSource },
    Draw { call: DrawCall },
}

/// The commands that begin every frame: clear to opaque black, with the
/// depth test on and passing fragments that are no farther than what is
/// stored.
pub open spec fn prelude() -> Seq<Command> {
    seq![
        Command::ClearColor { red: 0, green: 0, blue: 0, alpha: 255 },
        Command::Enable { capability: Capability::DepthTest },
        Command::DepthFunc { comparison: Comparison::LessOrEqual },
        Command::Clear { mask: ClearMask { color: true, depth: true } },
    ]
}

/// The commands that bring one attribute into use: bind its buffer, declare
/// its layout at its slot, enable the slot.
pub open spec fn binding_command(binding: AttributeBinding, k: int) -> Command {
    if k == 0 {
        Command::BindBuffer { target: BufferTarget::Array, buffer: binding.buffer }
    } else if k == 1 {
        Command::VertexAttribPointer { slot: binding.slot, layout: binding.layout }
    } else {
        Command::EnableVertexAttribArray { slot: binding.slot }
    }
}

/// The commands that bring the attributes into use, one after another.
pub open spec fn binding_commands(attributes: Seq<AttributeBinding>) -> Seq<Command> {
    Seq::new(3 * attributes.len(), |i: int| binding_command(attributes[i / 3], i % 3))
}

/// The command that binds the index buffer of an indexed draw; nothing for
/// a draw in buffer order.
pub open spec fn index_commands(draw: DrawCall) -> Seq<Command> {
    match draw {
        DrawCall::Arrays { .. } => Seq::empty(),
        DrawCall::Elements { indices, .. } => seq![
            Command::BindBuffer { target: BufferTarget::ElementArray, buffer: indices },
        ],
    }
}

/// The commands that upload the matrices, none of them transposed.
pub open spec fn upload_commands(uniforms: Seq<UniformUpload>) -> Seq<Command> {
    Seq::new(
        uniforms.len(),
        |i: int| Command::UniformMatrix { uniform: uniforms[i].uniform, transpose: false, source: uniforms[i].source },
    )
}

/// The commands of one frame.
pub open spec fn frame_commands(
    attributes: Seq<AttributeBinding>,
    uniforms: Seq<UniformUpload>,
    draw: DrawCall,
) -> Seq<Command> {
    prelude() + binding_commands(attributes) + index_commands(draw) + seq![Command::UseProgram]
        + upload_commands(uniforms) + seq![Command::Draw { call: draw }]
}

/// The commands of one frame that brings `attributes` into use, uploads
/// `uniforms` and ends with `draw`.
pub fn render(attributes: &Vec<AttributeBinding>, uniforms: &Vec<UniformUpload>, draw: DrawCall) -> (commands: Vec<
    Command,
>)
    ensures
        commands@ == frame_commands(attributes@, uniforms@, draw),
{
    let mut commands: Vec<Command> = Vec::new();
    commands.push(Command::ClearColor { red: 0, green: 0, blue: 0, alpha: 255 });
    commands.push(Command::Enable { capability: Capability::DepthTest });
    commands.push(Command::DepthFunc { comparison: Comparison::LessOrEqual });
    commands.push(Command::Clear { mask: ClearMask { color: true, depth: true } });
    assert(commands@ =~= prelude());
    let mut a: usize = 0;
    while a < attributes.len()
        invariant
            a <= attributes.len(),
            commands@ =~= prelude() + binding_commands(attributes@.take(a as int)),
        decreases attributes.len() - a,
    {
        let binding = attributes[a];
        commands.push(Command::BindBuffer { target: BufferTarget::Array, buffer: binding.buffer });
        commands.push(Command::VertexAttribPointer { slot: binding.slot, layout: binding.layout });
        commands.push(Command::EnableVertexAttribArray { slot: binding.slot });
        a += 1;
    }
    assert(attributes@.take(a as int) == attributes@);
    match draw {
        DrawCall::Arrays { .. } => {},
        DrawCall::Elements { indices, .. } => {
            commands.push(Command::BindBuffer { target: BufferTarget::ElementArray, buffer: indices });
        },
    }
    commands.push(Command::UseProgram);
    let ghost before = commands@;
    assert(before =~= prelude() + binding_commands(attributes@) + index_commands(draw) + seq![Command::UseProgram]);
    let mut u: usize = 0;
    while u < uniforms.len()
        invariant
            u <= uniforms.len(),
            commands@ =~= before + upload_commands(uniforms@.take(u as int)),
        decreases uniforms.len() - u,
    {
        let upload = uniforms[u];
        commands.push(Command::UniformMatrix { uniform: upload.uniform, transpose: false, source: upload.source });
        u += 1;
    }
    assert(uniforms@.take(u as int) == uniforms@);
    commands.push(Command::Draw { call: draw });
    commands
}

/// The command at place `i` of a frame, place by place: the clear, three
/// commands for each attribute, the index buffer of an indexed draw, the
/// program, the matrices, the draw call.
pub open spec fn command_at(
    attributes: Seq<AttributeBinding>,
    uniforms: Seq<UniformUpload>,
    draw: DrawCall,
    i: int,
) -> Command {
    let program = 4 + 3 * attributes.len() + index_commands(draw).len();
    if i < 4 {
        prelude()[i]
    } else if i < 4 + 3 * attributes.len() {
        binding_command(attributes[(i - 4) / 3], (i - 4) % 3)
    } else if i < program {
        index_commands(draw)[0]
    } else if i == program {
        Command::UseProgram
    } else if i <= program + uniforms.len() {
        Command::UniformMatrix {
            uniform: uniforms[i - program - 1].uniform,
            transpose: false,
            source: uniforms[i - program - 1].source,
        }
    } else {
        Command::Draw { call: draw }
    }
}

/// A frame holds, at each place, the command that `command_at` gives for it.
pub proof fn lemma_frame_layout(attributes: Seq<AttributeBinding>, uniforms: Seq<UniformUpload>, draw: DrawCall)
    ensures
        index_commands(draw).len() == (if draw is Elements { 1nat } else { 0nat }),
        frame_commands(attributes, uniforms, draw).len() == 4 + 3 * attributes.len() + index_commands(draw).len()
            + 1 + uniforms.len() + 1,
        forall|i: int|
            0 <= i < frame_commands(attributes, uniforms, draw).len() ==> #[trigger] frame_commands(
                attributes,
                uniforms,
                draw,
            )[i] == command_at(attributes, uniforms, draw, i),
{
    let a = prelude();
    let b = binding_commands(attributes);
    let c = index_commands(draw);
    let d = seq![Command::UseProgram];
    let e = upload_commands(uniforms);
    let f = seq![Command::Draw { call: draw }];
    let ab = a + b;
    let abc = ab + c;
    let abcd = abc + d;
    let abcde = abcd + e;
    let all = abcde + f;
    assert(all == frame_commands(attributes, uniforms, draw));
    assert(a.len() == 4);
    assert forall|i: int| 0 <= i < all.len() implies #[trigger] all[i] == command_at(attributes, uniforms, draw, i) by {
        if i < abcde.len() {
            assert(all[i] == abcde[i]);
            if i < abcd.len() {
                assert(abcde[i] == abcd[i]);
                if i < abc.len() {
                    assert(abcd[i] == abc[i]);
                    if i < ab.len() {
                        assert(abc[i] == ab[i]);
                        if i < 4 {
                            assert(ab[i] == a[i]);
                        } else {
                            assert(ab[i] == b[i - 4]);
                        }
                    } else {
                        assert(abc[i] == c[i - ab.len()]);
                    }
                } else {
                    assert(abcd[i] == d[i - abc.len()]);
                }
            } else {
                assert(abcde[i] == e[i - abcd.len()]);
            }
        } else {
            assert(all[i] == f[i - abcde.len()]);
        }
    }
}

/// The three commands that stand for attribute `k` in a frame.
pub open spec fn commands_for_attribute(commands: Seq<Command>, k: int) -> (Command, Command, Command) {
    (commands[4 + 3 * k], commands[4 + 3 * k + 1], commands[4 + 3 * k + 2])
}

/// The place of the command that activates the program, in a frame with
/// `attributes` attributes in use.
pub open spec fn program_place(attributes: nat, draw: DrawCall) -> int {
    4 + 3 * attributes + (if draw is Elements { 1int } else { 0int })
}

/// The command that stands for matrix `i` in a frame.
pub open spec fn command_for_uniform(commands: Seq<Command>, program: int, i: int) -> Command {
    commands[program + 1 + i]
}

/// The order of a frame: it begins with the clear; it brings each attribute
/// into use by binding its buffer, declaring its layout and enabling its
/// slot, in this order; it binds the index buffer of an indexed draw; it
/// activates the program and then uploads each matrix; it ends with the
/// draw call, the only one in it.
pub open spec fn in_frame_order(
    commands: Seq<Command>,
    attributes: Seq<AttributeBinding>,
    uniforms: Seq<UniformUpload>,
    draw: DrawCall,
) -> bool {
    let program = program_place(attributes.len(), draw);
    &&& commands.len() == program + 1 + uniforms.len() + 1
    &&& commands.subrange(0, 4) == prelude()
    &&& forall|k: int|
        0 <= k < attributes.len() ==> #[trigger] commands_for_attribute(commands, k) == (
            Command::BindBuffer { target: BufferTarget::Array, buffer: attributes[k].buffer },
            Command::VertexAttribPointer { slot: attributes[k].slot, layout: attributes[k].layout },
            Command::EnableVertexAttribArray { slot: attributes[k].slot },
        )
    &&& draw matches DrawCall::Elements { indices, .. } ==> commands[program - 1] == Command::BindBuffer {
        target: BufferTarget::ElementArray,
        buffer: indices,
    }
    &&& commands[program] == Command::UseProgram
    &&& forall|i: int|
        0 <= i < uniforms.len() ==> #[trigger] command_for_uniform(commands, program, i) == Command::UniformMatrix {
            uniform: uniforms[i].uniform,
            transpose: false,
            source: uniforms[i].source,
        }
    &&& commands.last() == Command::Draw { call: draw }
    &&& forall|i: int| 0 <= i < commands.len() - 1 ==> !(#[trigger] commands[i] is Draw)
}

/// Every frame is in frame order.
pub proof fn lemma_frame_order(attributes: Seq<AttributeBinding>, uniforms: Seq<UniformUpload>, draw: DrawCall)
    ensures
        in_frame_order(frame_commands(attributes, uniforms, draw), attributes, uniforms, draw),
{
    let commands = frame_commands(attributes, uniforms, draw);
    let program = program_place(attributes.len(), draw);
    lemma_frame_layout(attributes, uniforms, draw);
    assert(commands.subrange(0, 4) =~= prelude()) by {
        assert forall|i: int| 0 <= i < 4 implies commands.subrange(0, 4)[i] == prelude()[i] by {
            assert(commands[i] == command_at(attributes, uniforms, draw, i));
        }
    }
    assert forall|k: int| 0 <= k < attributes.len() implies #[trigger] commands_for_attribute(commands, k) == (
        Command::BindBuffer { target: BufferTarget::Array, buffer: attributes[k].buffer },
        Command::VertexAttribPointer { slot: attributes[k].slot, layout: attributes[k].layout },
        Command::EnableVertexAttribArray { slot: attributes[k].slot },
    ) by {
        assert(commands[4 + 3 * k] == command_at(attributes, uniforms, draw, 4 + 3 * k));
        assert(commands[4 + 3 * k + 1] == command_at(attributes, uniforms, draw, 4 + 3 * k + 1));
        assert(commands[4 + 3 * k + 2] == command_at(attributes, uniforms, draw, 4 + 3 * k + 2));
    }
    assert(commands[program] == command_at(attributes, uniforms, draw, program));
    if draw is Elements {
        assert(commands[program - 1] == command_at(attributes, uniforms, draw, program - 1));
    }
    assert forall|i: int| 0 <= i < uniforms.len() implies #[trigger] command_for_uniform(commands, program, i) == (
    Command::UniformMatrix { uniform: uniforms[i].uniform, transpose: false, source: uniforms[i].source }) by {
        assert(commands[program + 1 + i] == command_at(attributes, uniforms, draw, program + 1 + i));
    }
    assert(commands.last() == command_at(attributes, uniforms, draw, commands.len() - 1));
    assert forall|i: int| 0 <= i < commands.len() - 1 implies !(#[trigger] commands[i] is Draw) by {
        assert(commands[i] == command_at(attributes, uniforms, draw, i));
    }
}

/// What the session hands out for a tick: all that one frame of the cube
/// depends on.
#[derive(Clone, Copy, Debug, PartialEq, Eq, Structural)]
pub struct FramePlan {
    /// The slot of the position attribute.
    pub position_slot: u32,
    /// The slot of the normal attribute.
    pub normal_slot: u32,
    pub camera: CameraParams,
    pub clock: AnimationClock,
}

impl FramePlan {
    /// The attributes of the cube in use: positions and normals, three
    /// packed single-precision components each.
    pub open spec fn spec_attributes(self) -> Seq<AttributeBinding> {
        seq![
            AttributeBinding {
                slot: self.position_slot,
                buffer: BufferRole::Position,
                layout: AttributeLayout::packed_floats(3),
            },
            AttributeBinding {
                slot: self.normal_slot,
                buffer: BufferRole::Normal,
                layout: AttributeLayout::packed_floats(3),
            },
        ]
    }

    /// The matrices of the cube: projection, model-view, and the normal
    /// matrix for the lighting.
    pub open spec fn spec_uniforms() -> Seq<UniformUpload> {
        seq![
            UniformUpload { uniform: Uniform::Projection, source: MatrixSource::Perspective },
            UniformUpload { uniform: Uniform::ModelView, source: MatrixSource::ModelView },
            UniformUpload { uniform: Uniform::Normal, source: MatrixSource::InverseTransposeOfModelView },
        ]
    }

    /// The draw call of the cube: its 36 indices, as triangles.
    pub open spec fn spec_draw() -> DrawCall {
        DrawCall::Elements {
            topology: Topology::Triangles,
            count: CUBE_INDEX_COUNT,
            index_type: ComponentType::UnsignedShort,
            offset: 0,
            indices: BufferRole::Index,
        }
    }

    /// The commands of the frame.
    pub open spec fn spec_commands(self) -> Seq<Command> {
        frame_commands(self.spec_attributes(), FramePlan::spec_uniforms(), FramePlan::spec_draw())
    }

    /// The plan of a frame, or `None` where the program lacks a slot or a
    /// location that the frame needs.
    pub open spec fn spec_new(program: ShaderProgram, camera: CameraParams, clock: AnimationClock) -> Option<
        FramePlan,
    > {
        if program.complete() {
            Some(
                FramePlan {
                    position_slot: program.position->0,
                    normal_slot: program.normal->0,
                    camera,
                    clock,
                },
            )
        } else {
            None
        }
    }

    pub fn new(program: &ShaderProgram, camera: CameraParams, clock: AnimationClock) -> (plan: Option<FramePlan>)
        ensures
            plan == FramePlan::spec_new(*program, camera, clock),
    {
        if !program.is_complete() {
            return None;
        }
        match (program.slot(Attribute::Position), program.slot(Attribute::Normal)) {
            (Some(position_slot), Some(normal_slot)) => Some(
                FramePlan { position_slot, normal_slot, camera, clock },
            ),
            _ => None,
        }
    }

    pub fn attributes(&self) -> (attributes: Vec<AttributeBinding>)
        ensures
            attributes@ == self.spec_attributes(),
    {
        let layout = AttributeLayout {
            components: 3,
            component_type: ComponentType::Float,
            normalized: false,
            stride: 0,
            offset: 0,
        };
        let mut attributes: Vec<AttributeBinding> = Vec::new();
        attributes.push(AttributeBinding { slot: self.position_slot, buffer: BufferRole::Position, layout });
        attributes.push(AttributeBinding { slot: self.normal_slot, buffer: BufferRole::Normal, layout });
        attributes
    }

    pub fn uniforms(&self) -> (uniforms: Vec<UniformUpload>)
        ensures
            uniforms@ == FramePlan::spec_uniforms(),
    {
        let mut uniforms: Vec<UniformUpload> = Vec::new();
        uniforms.push(UniformUpload { uniform: Uniform::Projection, source: MatrixSource::Perspective });
        uniforms.push(UniformUpload { uniform: Uniform::ModelView, source: MatrixSource::ModelView });
        uniforms.push(
            UniformUpload { uniform: Uniform::Normal, source: MatrixSource::InverseTransposeOfModelView },
        );
        uniforms
    }

    pub fn draw(&self) -> (draw: DrawCall)
        ensures
            draw == FramePlan::spec_draw(),
    {
        DrawCall::Elements {
            topology: Topology::Triangles,
            count: CUBE_INDEX_COUNT,
            index_type: ComponentType::UnsignedShort,
            offset: 0,
            indices: BufferRole::Index,
        }
    }

    /// The commands that draw the frame.
    pub fn commands(&self) -> (commands: Vec<Command>)
        ensures
            commands@ == self.spec_commands(),
    {
        let attributes = self.attributes();
        let uniforms = self.uniforms();
        render(&attributes, &uniforms, self.draw())
    }

    /// The recipe of the frame's model-view matrix.
    pub fn model_view(&self) -> (steps: Vec<Transform>)
        ensures
            steps@ == spec_model_view(self.clock),
    {
        model_view(&self.clock)
    }
}

/// What a frame declares of a buffer is what the buffer was built as, and
/// the draw call stays within the buffers: each attribute of the cube is
/// declared with the component type and count of the buffer bound for it,
/// the draw call takes as many indices as the index buffer holds and reads
/// them as what they are, and every vertex that an index names lies wholly
/// inside each attribute's buffer.
pub proof fn lemma_cube_frame_matches_buffers(plan: FramePlan)
    ensures
        forall|k: int|
            #![trigger plan.spec_attributes()[k]]
            0 <= k < plan.spec_attributes().len() ==> {
                let binding = plan.spec_attributes()[k];
                let built = binding.buffer.spec_layout();
                &&& built.target == BufferTarget::Array
                &&& binding.layout.components == built.components
                &&& binding.layout.component_type == built.component_type
                &&& binding.layout.pitch() == built.spec_element_size()
                &&& forall|i: int|
                    0 <= i < MeshView::cube().indices.len() ==> 0 <= binding.layout.offset
                        && binding.layout.end_of(#[trigger] MeshView::cube().indices[i] as int) <= image(
                        MeshView::cube(),
                        binding.buffer,
                    ).len()
            },
        FramePlan::spec_draw() matches DrawCall::Elements { count, index_type, offset, indices, .. } && {
            &&& indices.spec_layout().target == BufferTarget::ElementArray
            &&& index_type == indices.spec_layout().component_type
            &&& count == element_count(MeshView::cube(), indices)
            &&& offset + count * index_type.spec_size() == image(MeshView::cube(), indices).len()
        },
{
    lemma_cube_is_well_formed();
    let cube = MeshView::cube();
    assert forall|k: int| #![trigger plan.spec_attributes()[k]] 0 <= k < plan.spec_attributes().len() implies {
        let binding = plan.spec_attributes()[k];
        let built = binding.buffer.spec_layout();
        &&& built.target == BufferTarget::Array
        &&& binding.layout.components == built.components
        &&& binding.layout.component_type == built.component_type
        &&& binding.layout.pitch() == built.spec_element_size()
        &&& forall|i: int|
            0 <= i < cube.indices.len() ==> 0 <= binding.layout.offset && binding.layout.end_of(
                #[trigger] cube.indices[i] as int,
            ) <= image(cube, binding.buffer).len()
    } by {
        let binding = plan.spec_attributes()[k];
        assert(binding.layout == AttributeLayout::packed_floats(3));
        assert(binding.layout.components == 3 && binding.layout.component_type.spec_size() == 4);
        assert(binding.layout.pitch() == 12);
        assert(image(cube, binding.buffer).len() == 12 * 24);
        assert forall|i: int| 0 <= i < cube.indices.len() implies 0 <= binding.layout.offset
            && binding.layout.end_of(#[trigger] cube.indices[i] as int) <= image(cube, binding.buffer).len() by {
            assert(cube.indices[i] < 24);
        }
    }
}

} // verus!
