//! The buffers that hold the cube's geometry on the device.
//!
//! A buffer is the byte image of one list of the mesh, byte for byte what
//! the device is to hold: positions, normals and colours as single-precision
//! numbers, indices as unsigned 16-bit numbers, both with the low byte
//! first. The components of the mesh are -1, 0 and 1, whose single-precision
//! bit patterns are 0xBF800000, 0 and 0x3F800000.

use vstd::arithmetic::power2::{lemma2_to64, lemma_pow2_adds, pow2};
use vstd::prelude::*;
use crate::gl::{BufferTarget, ComponentType, Usage};
use crate::mesh::{is_unit, Color, Mesh, MeshView, Vector3};

verus! {

/// The lists of the mesh, each of which gets a buffer of its own.
#[derive(Clone, Copy, Debug, PartialEq, Eq, Structural)]
pub enum BufferRole {
    Position,
    Color,
    Index,
    Normal,
}

/// How the bytes of a buffer are to be read.
#[derive(Clone, Copy, Debug, PartialEq, Eq, Structural)]
pub struct BufferLayout {
    /// The binding point through which the buffer is filled and used.
    pub target: BufferTarget,
    pub usage: Usage,
    pub component_type: ComponentType,
    /// The number of components that belong to one vertex; 1 in an index
    /// buffer.
    pub components: usize,
}

impl BufferLayout {
    /// The number of bytes that one vertex, or one index, occupies.
    pub open spec fn spec_element_size(self) -> nat {
        self.components as nat * self.component_type.spec_size()
    }
}

impl BufferRole {
    pub open spec fn spec_layout(self) -> BufferLayout {
        match self {
            BufferRole::Position => BufferLayout {
                target: BufferTarget::Array,
                usage: Usage::Static,
                component_type: ComponentType::Float,
                components: 3,
            },
            BufferRole::Color => BufferLayout {
                target: BufferTarget::Array,
                usage: Usage::Static,
                component_type: ComponentType::Float,
                components: 4,
            },
            BufferRole::Index => BufferLayout {
                target: BufferTarget::ElementArray,
                usage: Usage::Static,
                component_type: ComponentType::UnsignedShort,
                components: 1,
            },
            BufferRole::Normal => BufferLayout {
                target: BufferTarget::Array,
                usage: Usage::Static,
                component_type: ComponentType::Float,
                components: 3,
            },
        }
    }

    /// The layout of the buffer that holds this list.
    pub fn layout(self) -> (layout: BufferLayout)
        ensures
            layout == self.spec_layout(),
    {
        match self {
            BufferRole::Position => BufferLayout {
                target: BufferTarget::Array,
                usage: Usage::Static,
                component_type: ComponentType::Float,
                components: 3,
            },
            BufferRole::Color => BufferLayout {
                target: BufferTarget::Array,
                usage: Usage::Static,
                component_type: ComponentType::Float,
                components: 4,
            },
            BufferRole::Index => BufferLayout {
                target: BufferTarget::ElementArray,
                usage: Usage::Static,
                component_type: ComponentType::UnsignedShort,
                components: 1,
            },
            BufferRole::Normal => BufferLayout {
                target: BufferTarget::Array,
                usage: Usage::Static,
                component_type: ComponentType::Float,
                components: 3,
            },
        }
    }
}

/// The single-precision bit pattern of a component that is -1, 0 or 1.
pub open spec fn unit_word(c: i8) -> u32 {
    if c == 0 {
        0
    } else if c > 0 {
        0x3F80_0000
    } else {
        0xBF80_0000
    }
}

/// The single-precision word `word` stands for the integer `value`. The
/// word holds, from the high end, one bit for the sign, eight for the
/// exponent and twenty-three for the fraction. Where exponent and fraction
/// are both zero, it stands for zero. Where the exponent `e` is neither zero
/// nor 255, it stands for the number `(1 + fraction / 2^23) * 2^(e - 127)`,
/// with its sign; the equation below is this one, multiplied by `2^150`.
pub open spec fn stands_for(word: u32, value: int) -> bool {
    let sign: int = if word >= 0x8000_0000 { -1 } else { 1 };
    let exponent = (word / 0x80_0000 % 256) as nat;
    let fraction = word % 0x80_0000;
    if exponent == 0 {
        fraction == 0 && value == 0
    } else {
        exponent < 255 && value * pow2(150) == sign * ((0x80_0000 + fraction) * pow2(exponent))
    }
}

/// The bit pattern that stands for a unit component is the one that the
/// single-precision format gives it.
pub proof fn lemma_unit_word_stands_for_its_component(c: i8)
    requires
        is_unit(c),
    ensures
        stands_for(unit_word(c), c as int),
{
    lemma2_to64();
    lemma_pow2_adds(23, 127);
    assert(0x3F80_0000u32 / 0x80_0000 % 256 == 127 && 0x3F80_0000u32 % 0x80_0000 == 0);
    assert(0xBF80_0000u32 / 0x80_0000 % 256 == 127 && 0xBF80_0000u32 % 0x80_0000 == 0);
    let whole = pow2(127);
    assert(pow2(150) == 0x80_0000 * whole);
    if c == 1 {
        assert(1 * (0x80_0000 * whole) == 1 * ((0x80_0000 + 0) * whole));
    } else if c == -1 {
        assert((-1) * (0x80_0000 * whole) == (-1) * ((0x80_0000 + 0) * whole));
    }
}

/// Byte `k` of a 32-bit word, counted from the low end; `k` is 0 to 3.
pub open spec fn word_byte(word: u32, k: int) -> u8 {
    if k == 0 {
        (word % 256) as u8
    } else if k == 1 {
        (word / 256 % 256) as u8
    } else if k == 2 {
        (word / 65536 % 256) as u8
    } else {
        (word / 16777216) as u8
    }
}

/// The word whose bytes, from the low end, are `bytes[at]` to
/// `bytes[at + 3]`.
pub open spec fn word_at(bytes: Seq<u8>, at: int) -> u32 {
    (bytes[at] + 256 * bytes[at + 1] + 65536 * bytes[at + 2] + 16777216 * bytes[at + 3]) as u32
}

/// The component whose bit pattern `word` is, where there is one.
pub open spec fn unit_of_word(word: u32) -> i8 {
    if word == 0x3F80_0000 {
        1
    } else if word == 0xBF80_0000 {
        (-1) as i8
    } else {
        0
    }
}

/// The components of a list of vectors, vertex by vertex.
pub open spec fn vector_components(vectors: Seq<Vector3>) -> Seq<i8> {
    Seq::new(3 * vectors.len(), |i: int| vectors[i / 3].component(i % 3))
}

/// The channels of a list of colours, vertex by vertex.
pub open spec fn color_components(colors: Seq<Color>) -> Seq<i8> {
    Seq::new(4 * colors.len(), |i: int| colors[i / 4].component(i % 4))
}

/// The byte image of a list of unit components: four bytes each, the bit
/// pattern of the component with the low byte first.
pub open spec fn float_image(components: Seq<i8>) -> Seq<u8> {
    Seq::new(4 * components.len(), |i: int| word_byte(unit_word(components[i / 4]), i % 4))
}

/// The components that a byte image holds.
pub open spec fn float_image_components(bytes: Seq<u8>) -> Seq<i8> {
    Seq::new(bytes.len() / 4, |j: int| unit_of_word(word_at(bytes, 4 * j)))
}

/// The byte image of an index list: two bytes each, the low byte first.
pub open spec fn index_image(indices: Seq<u16>) -> Seq<u8> {
    Seq::new(
        2 * indices.len(),
        |i: int|
            if i % 2 == 0 {
                (indices[i / 2] % 256) as u8
            } else {
                (indices[i / 2] / 256) as u8
            },
    )
}

/// The indices that a byte image holds.
pub open spec fn index_image_indices(bytes: Seq<u8>) -> Seq<u16> {
    Seq::new(bytes.len() / 2, |j: int| (bytes[2 * j] + 256 * bytes[2 * j + 1]) as u16)
}

/// The bytes that the buffer of the given list holds.
pub open spec fn image(mesh: MeshView, role: BufferRole) -> Seq<u8> {
    match role {
        BufferRole::Position => float_image(vector_components(mesh.positions)),
        BufferRole::Color => float_image(color_components(mesh.colors)),
        BufferRole::Index => index_image(mesh.indices),
        BufferRole::Normal => float_image(vector_components(mesh.normals)),
    }
}

/// The number of elements in the given list of the mesh: vertices, or
/// indices.
pub open spec fn element_count(mesh: MeshView, role: BufferRole) -> nat {
    match role {
        BufferRole::Position => mesh.positions.len(),
        BufferRole::Color => mesh.colors.len(),
        BufferRole::Index => mesh.indices.len(),
        BufferRole::Normal => mesh.normals.len(),
    }
}

/// The components of a list of vectors, in one list.
fn flatten_vectors(vectors: &Vec<Vector3>) -> (out: Vec<i8>)
    ensures
        out@ == vector_components(vectors@),
{
    let mut out: Vec<i8> = Vec::new();
    let mut v: usize = 0;
    while v < vectors.len()
        invariant
            v <= vectors.len(),
            out.len() == 3 * v,
            forall|i: int| 0 <= i < out.len() ==> out[i] == vectors[i / 3].component(i % 3),
        decreases vectors.len() - v,
    {
        let vector = vectors[v];
        out.push(vector.x);
        out.push(vector.y);
        out.push(vector.z);
        v += 1;
    }
    out
}

/// The channels of a list of colours, in one list.
fn flatten_colors(colors: &Vec<Color>) -> (out: Vec<i8>)
    ensures
        out@ == color_components(colors@),
{
    let mut out: Vec<i8> = Vec::new();
    let mut v: usize = 0;
    while v < colors.len()
        invariant
            v <= colors.len(),
            out.len() == 4 * v,
            forall|i: int| 0 <= i < out.len() ==> out[i] == colors[i / 4].component(i % 4),
        decreases colors.len() - v,
    {
        let color = colors[v];
        out.push(color.r);
        out.push(color.g);
        out.push(color.b);
        out.push(color.a);
        v += 1;
    }
    out
}

/// The byte image of a list of unit components.
fn encode_units(components: &Vec<i8>) -> (bytes: Vec<u8>)
    requires
        forall|j: int| 0 <= j < components.len() ==> is_unit(#[trigger] components[j]),
    ensures
        bytes@ == float_image(components@),
{
    let mut bytes: Vec<u8> = Vec::new();
    let mut j: usize = 0;
    while j < components.len()
        invariant
            j <= components.len(),
            bytes.len() == 4 * j,
            forall|i: int| 0 <= i < bytes.len() ==> bytes[i] == word_byte(unit_word(components[i / 4]), i % 4),
        decreases components.len() - j,
    {
        let c = components[j];
        bytes.push(0);
        bytes.push(0);
        if c == 0 {
            bytes.push(0);
            bytes.push(0);
        } else if c > 0 {
            bytes.push(0x80);
            bytes.push(0x3F);
        } else {
            bytes.push(0x80);
            bytes.push(0xBF);
        }
        j += 1;
    }
    bytes
}

/// The byte image of an index list.
fn encode_indices(indices: &Vec<u16>) -> (bytes: Vec<u8>)
    ensures
        bytes@ == index_image(indices@),
{
    let mut bytes: Vec<u8> = Vec::new();
    let mut j: usize = 0;
    while j < indices.len()
        invariant
            j <= indices.len(),
            bytes.len() == 2 * j,
            bytes@ =~= index_image(indices@.take(j as int)),
        decreases indices.len() - j,
    {
        let index = indices[j];
        bytes.push((index % 256) as u8);
        bytes.push((index / 256) as u8);
        j += 1;
    }
    assert(indices@.take(j as int) == indices@);
    bytes
}

/// One list of the mesh as the device is to hold it. A buffer is made once
/// and never changed.
pub struct GeometryBuffer {
    role: BufferRole,
    bytes: Vec<u8>,
}

impl View for GeometryBuffer {
    type V = Seq<u8>;

    closed spec fn view(&self) -> Seq<u8> {
        self.bytes@
    }
}

impl GeometryBuffer {
    /// The list that this buffer holds.
    pub closed spec fn spec_role(&self) -> BufferRole {
        self.role
    }

    /// The image of the given list of the mesh.
    pub fn build(mesh: &Mesh, role: BufferRole) -> (buffer: GeometryBuffer)
        ensures
            buffer.spec_role() == role,
            buffer@ == image(mesh@, role),
            buffer@.len() == element_count(mesh@, role) * role.spec_layout().spec_element_size(),
    {
        let bytes = match role {
            BufferRole::Position => {
                let components = flatten_vectors(mesh.positions());
                assert forall|j: int| 0 <= j < components.len() implies is_unit(#[trigger] components[j]) by {
                    assert(mesh@.positions[j / 3].is_unit_valued());
                }
                encode_units(&components)
            },
            BufferRole::Color => {
                let components = flatten_colors(mesh.colors());
                assert forall|j: int| 0 <= j < components.len() implies is_unit(#[trigger] components[j]) by {
                    assert(mesh@.colors[j / 4].is_unit_valued());
                }
                encode_units(&components)
            },
            BufferRole::Index => encode_indices(mesh.indices()),
            BufferRole::Normal => {
                let components = flatten_vectors(mesh.normals());
                assert forall|j: int| 0 <= j < components.len() implies is_unit(#[trigger] components[j]) by {
                    assert(mesh@.normals[j / 3].is_unit_valued());
                }
                encode_units(&components)
            },
        };
        assert(role.spec_layout().spec_element_size() == match role {
            BufferRole::Position => 12nat,
            BufferRole::Color => 16nat,
            BufferRole::Index => 2nat,
            BufferRole::Normal => 12nat,
        });
        GeometryBuffer { role, bytes }
    }

    /// The list that this buffer holds.
    pub fn role(&self) -> (role: BufferRole)
        ensures
            role == self.spec_role(),
    {
        self.role
    }

    /// How the bytes of this buffer are to be read.
    pub fn layout(&self) -> (layout: BufferLayout)
        ensures
            layout == self.spec_role().spec_layout(),
    {
        self.role.layout()
    }

    /// The bytes to hand to the device.
    pub fn bytes(&self) -> (bytes: &Vec<u8>)
        ensures
            bytes@ == self@,
    {
        &self.bytes
    }
}

/// The image of a list of unit components holds those components: reading
/// the words back and taking each for the number it is the pattern of gives
/// the list again.
pub proof fn lemma_float_image_round_trip(components: Seq<i8>)
    requires
        forall|j: int| 0 <= j < components.len() ==> is_unit(#[trigger] components[j]),
    ensures
        float_image(components).len() == 4 * components.len(),
        float_image_components(float_image(components)) == components,
{
    let bytes = float_image(components);
    assert forall|j: int| 0 <= j < components.len() implies unit_of_word(word_at(bytes, 4 * j))
        == components[j] by {
        assert(is_unit(components[j]));
        assert(bytes[4 * j] == word_byte(unit_word(components[j]), 0));
        assert(bytes[4 * j + 1] == word_byte(unit_word(components[j]), 1));
        assert(bytes[4 * j + 2] == word_byte(unit_word(components[j]), 2));
        assert(bytes[4 * j + 3] == word_byte(unit_word(components[j]), 3));
    }
    assert(float_image_components(bytes) =~= components);
}

/// The image of an index list holds those indices.
pub proof fn lemma_index_image_round_trip(indices: Seq<u16>)
    ensures
        index_image(indices).len() == 2 * indices.len(),
        index_image_indices(index_image(indices)) == indices,
{
    let bytes = index_image(indices);
    assert forall|j: int| 0 <= j < indices.len() implies (bytes[2 * j] + 256 * bytes[2 * j + 1]) as u16
        == indices[j] by {
        assert(bytes[2 * j] == (indices[j] % 256) as u8);
        assert(bytes[2 * j + 1] == (indices[j] / 256) as u8);
    }
    assert(index_image_indices(bytes) =~= indices);
}

} // verus!
