//! How a vertex buffer is read: its stride, its step and its attributes.

use vstd::prelude::*;

verus! {

/// The format of one vertex attribute: two, three or four scalars.
#[derive(Clone, Copy, Debug, PartialEq, Eq)]
pub enum VertexFormat {
    Float32x2,
    Float32x3,
    Float32x4,
}

/// Whether a buffer advances once per vertex or once per instance.
#[derive(Clone, Copy, Debug, PartialEq, Eq)]
pub enum VertexStepMode {
    Vertex,
    Instance,
}

/// One input of the vertex shader: where it lies in an element of the buffer
/// and at which shader location it arrives.
#[derive(Clone, Copy, Debug, PartialEq, Eq)]
pub struct VertexAttribute {
    pub format: VertexFormat,
    pub offset: u64,
    pub shader_location: u32,
}

/// The layout of one vertex buffer slot.
#[derive(Clone, Debug, PartialEq, Eq)]
pub struct VertexBufferLayout {
    pub array_stride: u64,
    pub step_mode: VertexStepMode,
    pub attributes: Vec<VertexAttribute>,
}

/// A layout as a mathematical value.
pub struct LayoutView {
    pub array_stride: nat,
    pub step_mode: VertexStepMode,
    pub attributes: Seq<VertexAttribute>,
}

impl VertexFormat {
    /// The number of scalars in one value of the format.
    pub open spec fn components(self) -> nat {
        match self {
            VertexFormat::Float32x2 => 2,
            VertexFormat::Float32x3 => 3,
            VertexFormat::Float32x4 => 4,
        }
    }

    /// The number of bytes in one value of the format.
    pub open spec fn size(self) -> nat {
        4 * self.components()
    }

    /// The number of bytes in one value of the format.
    pub fn byte_size(&self) -> (n: u64)
        ensures
            n == self.size(),
    {
        match self {
            VertexFormat::Float32x2 => 8,
            VertexFormat::Float32x3 => 12,
            VertexFormat::Float32x4 => 16,
        }
    }
}

impl VertexAttribute {
    /// The offset just behind the attribute's last byte.
    pub open spec fn end(self) -> int {
        self.offset + self.format.size()
    }

    /// The index of the attribute's first scalar among the scalars of an
    /// element.
    pub open spec fn first_word(self) -> int {
        self.offset as int / 4
    }
}

impl View for VertexBufferLayout {
    type V = LayoutView;

    open spec fn view(&self) -> LayoutView {
        LayoutView {
            array_stride: self.array_stride as nat,
            step_mode: self.step_mode,
            attributes: self.attributes@,
        }
    }
}

impl LayoutView {
    /// Every attribute starts on a scalar and ends within the stride.
    pub open spec fn attributes_fit(self) -> bool {
        forall|i: int|
            0 <= i < self.attributes.len() ==> {
                &&& (#[trigger] self.attributes[i]).offset % 4 == 0
                &&& self.attributes[i].end() <= self.array_stride
            }
    }

    /// No byte of an element belongs to two attributes.
    pub open spec fn attributes_disjoint(self) -> bool {
        forall|i: int, j: int|
            0 <= i < j < self.attributes.len() ==> {
                ||| (#[trigger] self.attributes[i]).end() <= (#[trigger] self.attributes[j]).offset
                ||| self.attributes[j].end() <= self.attributes[i].offset
            }
    }

    /// No shader location is fed twice.
    pub open spec fn locations_distinct(self) -> bool {
        forall|i: int, j: int|
            0 <= i < j < self.attributes.len() ==> (#[trigger] self.attributes[i]).shader_location
                != (#[trigger] self.attributes[j]).shader_location
    }

    /// The layout can be read: the stride is a whole number of scalars, the
    /// attributes lie within it without overlap, and each feeds a location of
    /// its own.
    pub open spec fn wf(self) -> bool {
        &&& self.array_stride % 4 == 0
        &&& self.attributes_fit()
        &&& self.attributes_disjoint()
        &&& self.locations_distinct()
    }
}

} // verus!
