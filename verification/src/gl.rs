//! The enumerants of the graphics device that the pipeline uses.
//!
//! Each enumerant is a small type of this library; its numeric code is the
//! constant that `web_sys::WebGlRenderingContext` publishes, read through one
//! private function per constant. The contracts of those functions are taken
//! on trust: they repeat the value written in the binding's source.

use vstd::prelude::*;

verus! {

/// `web_sys::WebGlRenderingContext::FRAGMENT_SHADER`, whose value is 35632.
#[verifier::external_body]
fn fragment_shader_code() -> (code: u32)
    ensures
        code == 35632,
{
    web_sys::WebGlRenderingContext::FRAGMENT_SHADER
}

/// `web_sys::WebGlRenderingContext::VERTEX_SHADER`, whose value is 35633.
#[verifier::external_body]
fn vertex_shader_code() -> (code: u32)
    ensures
        code == 35633,
{
    web_sys::WebGlRenderingContext::VERTEX_SHADER
}

/// `web_sys::WebGlRenderingContext::ARRAY_BUFFER`, whose value is 34962.
#[verifier::external_body]
fn array_buffer_code() -> (code: u32)
    ensures
        code == 34962,
{
    web_sys::WebGlRenderingContext::ARRAY_BUFFER
}

/// `web_sys::WebGlRenderingContext::ELEMENT_ARRAY_BUFFER`, whose value is
/// 34963.
#[verifier::external_body]
fn element_array_buffer_code() -> (code: u32)
    ensures
        code == 34963,
{
    web_sys::WebGlRenderingContext::ELEMENT_ARRAY_BUFFER
}

/// `web_sys::WebGlRenderingContext::STATIC_DRAW`, whose value is 35044.
#[verifier::external_body]
fn static_draw_code() -> (code: u32)
    ensures
        code == 35044,
{
    web_sys::WebGlRenderingContext::STATIC_DRAW
}

/// `web_sys::WebGlRenderingContext::DEPTH_TEST`, whose value is 2929.
#[verifier::external_body]
fn depth_test_code() -> (code: u32)
    ensures
        code == 2929,
{
    web_sys::WebGlRenderingContext::DEPTH_TEST
}

/// `web_sys::WebGlRenderingContext::LEQUAL`, whose value is 515.
#[verifier::external_body]
fn lequal_code() -> (code: u32)
    ensures
        code == 515,
{
    web_sys::WebGlRenderingContext::LEQUAL
}

/// `web_sys::WebGlRenderingContext::COLOR_BUFFER_BIT`, whose value is 16384.
#[verifier::external_body]
fn color_buffer_bit() -> (bit: u32)
    ensures
        bit == 16384,
{
    web_sys::WebGlRenderingContext::COLOR_BUFFER_BIT
}

/// `web_sys::WebGlRenderingContext::DEPTH_BUFFER_BIT`, whose value is 256.
#[verifier::external_body]
fn depth_buffer_bit() -> (bit: u32)
    ensures
        bit == 256,
{
    web_sys::WebGlRenderingContext::DEPTH_BUFFER_BIT
}

/// `web_sys::WebGlRenderingContext::FLOAT`, whose value is 5126.
#[verifier::external_body]
fn float_code() -> (code: u32)
    ensures
        code == 5126,
{
    web_sys::WebGlRenderingContext::FLOAT
}

/// `web_sys::WebGlRenderingContext::UNSIGNED_SHORT`, whose value is 5123.
#[verifier::external_body]
fn unsigned_short_code() -> (code: u32)
    ensures
        code == 5123,
{
    web_sys::WebGlRenderingContext::UNSIGNED_SHORT
}

/// `web_sys::WebGlRenderingContext::TRIANGLES`, whose value is 4.
#[verifier::external_body]
fn triangles_code() -> (code: u32)
    ensures
        code == 4,
{
    web_sys::WebGlRenderingContext::TRIANGLES
}

/// `web_sys::WebGlRenderingContext::TRIANGLE_STRIP`, whose value is 5.
#[verifier::external_body]
fn triangle_strip_code() -> (code: u32)
    ensures
        code == 5,
{
    web_sys::WebGlRenderingContext::TRIANGLE_STRIP
}

/// One of the two programmable stages of a shader program.
#[derive(Clone, Copy, Debug, PartialEq, Eq, Structural)]
pub enum Stage {
    Fragment,
    Vertex,
}

impl Stage {
    pub open spec fn spec_code(self) -> u32 {
        match self {
            Stage::Fragment => 35632,
            Stage::Vertex => 35633,
        }
    }

    /// The shader type to create for this stage.
    pub fn code(self) -> (code: u32)
        ensures
            code == self.spec_code(),
    {
        match self {
            Stage::Fragment => fragment_shader_code(),
            Stage::Vertex => vertex_shader_code(),
        }
    }
}

/// The binding point a buffer is attached to.
#[derive(Clone, Copy, Debug, PartialEq, Eq, Structural)]
pub enum BufferTarget {
    /// Per-vertex attribute data.
    Array,
    /// Vertex indices of an indexed draw.
    ElementArray,
}

impl BufferTarget {
    pub open spec fn spec_code(self) -> u32 {
        match self {
            BufferTarget::Array => 34962,
            BufferTarget::ElementArray => 34963,
        }
    }

    pub fn code(self) -> (code: u32)
        ensures
            code == self.spec_code(),
    {
        match self {
            BufferTarget::Array => array_buffer_code(),
            BufferTarget::ElementArray => element_array_buffer_code(),
        }
    }
}

/// How the device may expect a buffer's data to be used.
#[derive(Clone, Copy, Debug, PartialEq, Eq, Structural)]
pub enum Usage {
    /// Written once, drawn many times.
    Static,
}

impl Usage {
    pub open spec fn spec_code(self) -> u32 {
        match self {
            Usage::Static => 35044,
        }
    }

    pub fn code(self) -> (code: u32)
        ensures
            code == self.spec_code(),
    {
        match self {
            Usage::Static => static_draw_code(),
        }
    }
}

/// A capability of the device that can be switched on.
#[derive(Clone, Copy, Debug, PartialEq, Eq, Structural)]
pub enum Capability {
    DepthTest,
}

impl Capability {
    pub open spec fn spec_code(self) -> u32 {
        match self {
            Capability::DepthTest => 2929,
        }
    }

    pub fn code(self) -> (code: u32)
        ensures
            code == self.spec_code(),
    {
        match self {
            Capability::DepthTest => depth_test_code(),
        }
    }
}

/// The comparison of the depth test: a fragment passes when its depth
/// compares so to the stored one.
#[derive(Clone, Copy, Debug, PartialEq, Eq, Structural)]
pub enum Comparison {
    LessOrEqual,
}

impl Comparison {
    pub open spec fn spec_code(self) -> u32 {
        match self {
            Comparison::LessOrEqual => 515,
        }
    }

    pub fn code(self) -> (code: u32)
        ensures
            code == self.spec_code(),
    {
        match self {
            Comparison::LessOrEqual => lequal_code(),
        }
    }
}

/// The numeric type of one component in a buffer.
#[derive(Clone, Copy, Debug, PartialEq, Eq, Structural)]
pub enum ComponentType {
    /// Single-precision floating point, four bytes.
    Float,
    /// Unsigned 16-bit integer, two bytes.
    UnsignedShort,
}

impl ComponentType {
    pub open spec fn spec_code(self) -> u32 {
        match self {
            ComponentType::Float => 5126,
            ComponentType::UnsignedShort => 5123,
        }
    }

    pub fn code(self) -> (code: u32)
        ensures
            code == self.spec_code(),
    {
        match self {
            ComponentType::Float => float_code(),
            ComponentType::UnsignedShort => unsigned_short_code(),
        }
    }

    /// The number of bytes one component occupies.
    pub open spec fn spec_size(self) -> nat {
        match self {
            ComponentType::Float => 4,
            ComponentType::UnsignedShort => 2,
        }
    }

    pub fn size(self) -> (size: usize)
        ensures
            size == self.spec_size(),
    {
        match self {
            ComponentType::Float => 4,
            ComponentType::UnsignedShort => 2,
        }
    }
}

/// How consecutive vertices are assembled into triangles.
#[derive(Clone, Copy, Debug, PartialEq, Eq, Structural)]
pub enum Topology {
    /// Every three vertices form one triangle.
    Triangles,
    /// Every vertex after the second forms a triangle with its two
    /// predecessors.
    TriangleStrip,
}

impl Topology {
    pub open spec fn spec_code(self) -> u32 {
        match self {
            Topology::Triangles => 4,
            Topology::TriangleStrip => 5,
        }
    }

    pub fn code(self) -> (code: u32)
        ensures
            code == self.spec_code(),
    {
        match self {
            Topology::Triangles => triangles_code(),
            Topology::TriangleStrip => triangle_strip_code(),
        }
    }
}

/// The planes of the framebuffer that a clear resets.
#[derive(Clone, Copy, Debug, PartialEq, Eq, Structural)]
pub struct ClearMask {
    pub color: bool,
    pub depth: bool,
}

impl ClearMask {
    /// The mask as the device takes it: one bit per plane, 16384 for color
    /// and 256 for depth.
    pub open spec fn spec_bits(self) -> u32 {
        let color: u32 = if self.color { 16384 } else { 0 };
        let depth: u32 = if self.depth { 256 } else { 0 };
        color | depth
    }

    pub fn bits(self) -> (bits: u32)
        ensures
            bits == self.spec_bits(),
    {
        let color: u32 = if self.color { color_buffer_bit() } else { 0 };
        let depth: u32 = if self.depth { depth_buffer_bit() } else { 0 };
        color | depth
    }

    /// The planes occupy different bits, so the mask is the sum of those
    /// selected, and two masks with the same bits select the same planes.
    pub proof fn lemma_bits_are_disjoint(self)
        ensures
            self.spec_bits() == (if self.color { 16384int } else { 0 }) + (if self.depth { 256int } else { 0 }),
    {
        assert(16384u32 | 256u32 == 16640u32) by (bit_vector);
        assert(16384u32 | 0u32 == 16384u32) by (bit_vector);
        assert(0u32 | 256u32 == 256u32) by (bit_vector);
        assert(0u32 | 0u32 == 0u32) by (bit_vector);
    }
}

} // verus!
