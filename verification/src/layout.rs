//! Vertex buffer layouts: which attribute sits at which byte offset.
//!
//! The meshes of this crate store their attributes one after the other,
//! without padding. [`is_packed`] states that of a table of attributes, and
//! the tables of the visual elements are proved to satisfy it.

use vstd::prelude::*;

verus! {

/// The format of one vertex attribute: a vector of 32-bit floats.
#[derive(Clone, Copy, Debug, PartialEq, Eq, Structural)]
pub enum VertexFormat {
    /// Two components.
    Float2,
    /// Three components.
    Float3,
    /// Four components.
    Float4,
}

/// The number of bytes that a value of format `format` occupies.
pub open spec fn format_size(format: VertexFormat) -> nat {
    match format {
        VertexFormat::Float2 => 8,
        VertexFormat::Float3 => 12,
        VertexFormat::Float4 => 16,
    }
}

impl VertexFormat {
    /// The number of bytes that a value of this format occupies.
    pub fn size(&self) -> (bytes: u64)
        ensures
            bytes == format_size(*self),
    {
        match self {
            VertexFormat::Float2 => 8,
            VertexFormat::Float3 => 12,
            VertexFormat::Float4 => 16,
        }
    }
}

/// One input of a vertex shader, as it lies in a vertex buffer.
#[derive(Clone, Copy, Debug, PartialEq, Eq, Structural)]
pub struct VertexAttribute {
    /// Byte offset of the attribute from the start of its element.
    pub offset: u64,
    /// The location that the shader reads the attribute from.
    pub shader_location: u32,
    /// The format of the attribute.
    pub format: VertexFormat,
}

/// Whether a buffer advances once per vertex or once per instance.
#[derive(Clone, Copy, Debug, PartialEq, Eq, Structural)]
pub enum InputStepMode {
    /// The buffer holds one element per vertex.
    Vertex,
    /// The buffer holds one element per instance.
    Instance,
}

/// How one vertex buffer is read: the size of an element, how the buffer is
/// stepped, and the attributes of an element.
#[derive(Clone, Debug, PartialEq, Eq)]
pub struct VertexBufferLayout {
    /// The number of bytes from one element to the next.
    pub array_stride: u64,
    /// Whether the buffer is stepped per vertex or per instance.
    pub step_mode: InputStepMode,
    /// The attributes of one element.
    pub attributes: Vec<VertexAttribute>,
}

/// The number of bytes that the first `count` attributes occupy together.
pub open spec fn packed_size(attributes: Seq<VertexAttribute>, count: int) -> nat
    decreases count,
{
    if count <= 0 {
        0
    } else {
        packed_size(attributes, count - 1) + format_size(attributes[count - 1].format)
    }
}

/// Attributes are packed when each one starts where the one before it ends,
/// the first one at offset zero, and when their shader locations count up from
/// `first_location`.
pub open spec fn is_packed(attributes: Seq<VertexAttribute>, first_location: nat) -> bool {
    forall|i: int|
        0 <= i < attributes.len() ==> {
            &&& (#[trigger] attributes[i]).offset == packed_size(attributes, i)
            &&& attributes[i].shader_location == first_location + i
        }
}

impl VertexBufferLayout {
    /// The layout is well formed when its attributes are packed from
    /// `first_location` on and fill the stride exactly.
    pub open spec fn wf(&self, first_location: nat) -> bool {
        &&& is_packed(self.attributes@, first_location)
        &&& self.array_stride == packed_size(self.attributes@, self.attributes@.len() as int)
    }
}

/// Packed attributes do not overlap: an earlier attribute ends at or before
/// the offset at which any later one starts.
pub proof fn lemma_packed_disjoint(
    attributes: Seq<VertexAttribute>,
    first_location: nat,
    i: int,
    j: int,
)
    requires
        is_packed(attributes, first_location),
        0 <= i < j < attributes.len(),
    ensures
        attributes[i].offset + format_size(attributes[i].format) <= attributes[j].offset,
    decreases j - i,
{
    if j == i + 1 {
        assert(packed_size(attributes, j) == packed_size(attributes, i) + format_size(
            attributes[i].format,
        ));
    } else {
        lemma_packed_disjoint(attributes, first_location, i, j - 1);
        assert(packed_size(attributes, j) == packed_size(attributes, j - 1) + format_size(
            attributes[j - 1].format,
        ));
    }
}

/// Packed attributes lie inside the element: each one ends at or before the
/// size of all attributes together.
pub proof fn lemma_packed_within_stride(
    attributes: Seq<VertexAttribute>,
    first_location: nat,
    i: int,
)
    requires
        is_packed(attributes, first_location),
        0 <= i < attributes.len(),
    ensures
        attributes[i].offset + format_size(attributes[i].format) <= packed_size(
            attributes,
            attributes.len() as int,
        ),
    decreases attributes.len() - i,
{
    if i + 1 == attributes.len() {
        assert(packed_size(attributes, i + 1) == packed_size(attributes, i) + format_size(
            attributes[i].format,
        ));
    } else {
        lemma_packed_disjoint(attributes, first_location, i, i + 1);
        lemma_packed_within_stride(attributes, first_location, i + 1);
    }
}

} // verus!
