use vstd::prelude::*;

verus! {

/// Element format of one vertex attribute.
#[derive(Clone, Copy, Debug, PartialEq, Eq, Structural)]
pub enum VertexFormat {
    Float32x3,
    Float32x4,
}

/// Whether a vertex buffer advances once per vertex or once per instance.
#[derive(Clone, Copy, Debug, PartialEq, Eq, Structural)]
pub enum StepMode {
    Vertex,
    Instance,
}

/// One attribute read from a vertex buffer: its format, its byte offset in
/// an element, and the shader location it feeds.
#[derive(Clone, Copy, Debug, PartialEq, Eq, Structural)]
pub struct VertexAttribute {
    pub format: VertexFormat,
    pub offset: u64,
    pub shader_location: u32,
}

/// Shape of the elements of one vertex buffer.
#[derive(Debug)]
pub struct VertexLayout {
    pub array_stride: u64,
    pub step_mode: StepMode,
    pub attributes: Vec<VertexAttribute>,
}

/// Size in bytes of one value of the format.
pub open spec fn format_size(f: VertexFormat) -> u64 {
    match f {
        VertexFormat::Float32x3 => 12,
        VertexFormat::Float32x4 => 16,
    }
}

impl VertexLayout {
    /// Every attribute lies inside one element.
    pub open spec fn attributes_fit(&self) -> bool {
        forall|i: int|
            0 <= i < self.attributes@.len() ==> self.attributes@[i].offset + format_size(
                self.attributes@[i].format,
            ) <= self.array_stride
    }
}

} // verus!
