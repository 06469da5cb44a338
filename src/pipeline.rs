use vstd::prelude::*;
use crate::layout::VertexLayout;

verus! {

/// How vertices group into primitives.
#[derive(Clone, Copy, Debug, PartialEq, Eq, Structural)]
pub enum Topology {
    TriangleList,
}

/// Which winding faces the viewer.
#[derive(Clone, Copy, Debug, PartialEq, Eq, Structural)]
pub enum FrontFace {
    Ccw,
    Cw,
}

/// Which faces are dropped before rasterisation.
#[derive(Clone, Copy, Debug, PartialEq, Eq, Structural)]
pub enum CullMode {
    Back,
    Front,
}

/// How the fragment's colour is written to the target.
#[derive(Clone, Copy, Debug, PartialEq, Eq, Structural)]
pub enum BlendMode {
    Replace,
}

/// The fixed-function state of a pipeline.
#[derive(Clone, Copy, Debug, PartialEq, Eq, Structural)]
pub struct FixedState {
    pub topology: Topology,
    pub front_face: FrontFace,
    pub cull_mode: CullMode,
    pub blend: BlendMode,
    pub depth_stencil: bool,
    pub sample_count: u32,
}

/// Triangle lists, counter-clockwise front faces, back faces culled, opaque
/// replace blending, no depth or stencil, one sample per pixel.
pub open spec fn opaque_triangles() -> FixedState {
    FixedState {
        topology: Topology::TriangleList,
        front_face: FrontFace::Ccw,
        cull_mode: CullMode::Back,
        blend: BlendMode::Replace,
        depth_stencil: false,
        sample_count: 1,
    }
}

/// Why a pipeline could not be described.
#[derive(Debug)]
pub enum PipelineError {
    /// No shader source was found at the attempted path.
    ShaderNotFound { path: String },
}

impl PipelineError {
    /// A line for the user that names the attempted file.
    pub fn message(&self) -> (r: String)
        ensures
            match self {
                PipelineError::ShaderNotFound { path } => r@ == "no shader found at "@ + path@,
            },
    {
        match self {
            PipelineError::ShaderNotFound { path } => {
                let head = "no shader found at ".to_string();
                head.concat(path.as_str())
            },
        }
    }
}

/// Collects what a render pipeline is made of. Bind-group layouts are named
/// by handles the caller assigns, and the pixel format by its index among
/// the formats the surface supports.
#[derive(Debug)]
pub struct PipelineBuilder {
    pub shader_path: String,
    pub vertex_entry: String,
    pub fragment_entry: String,
    pub pixel_format: usize,
    pub bind_group_layouts: Vec<u32>,
    pub vertex_buffer_layouts: Vec<VertexLayout>,
}

/// Everything a render pipeline is created from, in the order the layouts
/// were added: bind-group layout `i` serves group index `i`, vertex layout
/// `i` is read from buffer slot `i`.
#[derive(Debug)]
pub struct PipelineDesc {
    pub label: String,
    pub shader_source: String,
    pub vertex_entry: String,
    pub fragment_entry: String,
    pub pixel_format: usize,
    pub bind_group_layouts: Vec<u32>,
    pub vertex_buffer_layouts: Vec<VertexLayout>,
    pub fixed: FixedState,
}

/// The file a shader path names, relative to the working directory.
pub open spec fn shader_file(shader_path: Seq<char>) -> Seq<char> {
    "src/"@ + shader_path
}

/// The file a shader path names.
pub fn shader_file_of(shader_path: &str) -> (r: String)
    ensures
        r@ == shader_file(shader_path@),
{
    let dir = "src/".to_string();
    dir.concat(shader_path)
}

impl PipelineBuilder {
    /// A builder with no layout yet.
    pub fn new(shader_path: &str, vertex_entry: &str, fragment_entry: &str, pixel_format: usize) -> (r:
        PipelineBuilder)
        ensures
            r.shader_path@ == shader_path@,
            r.vertex_entry@ == vertex_entry@,
            r.fragment_entry@ == fragment_entry@,
            r.pixel_format == pixel_format,
            r.bind_group_layouts@.len() == 0,
            r.vertex_buffer_layouts@.len() == 0,
    {
        PipelineBuilder {
            shader_path: shader_path.to_string(),
            vertex_entry: vertex_entry.to_string(),
            fragment_entry: fragment_entry.to_string(),
            pixel_format,
            bind_group_layouts: Vec::new(),
            vertex_buffer_layouts: Vec::new(),
        }
    }

    /// Appends a bind-group layout; it will serve the next group index.
    pub fn add_bind_group_layout(&mut self, layout: u32)
        ensures
            final(self).bind_group_layouts@ == old(self).bind_group_layouts@.push(layout),
            final(self).vertex_buffer_layouts@ == old(self).vertex_buffer_layouts@,
            final(self).shader_path == old(self).shader_path,
            final(self).vertex_entry == old(self).vertex_entry,
            final(self).fragment_entry == old(self).fragment_entry,
            final(self).pixel_format == old(self).pixel_format,
    {
        self.bind_group_layouts.push(layout);
    }

    /// Appends a vertex-buffer layout; it will be read from the next buffer slot.
    pub fn add_vertex_buffer_layout(&mut self, layout: VertexLayout)
        ensures
            final(self).vertex_buffer_layouts@ == old(self).vertex_buffer_layouts@.push(layout),
            final(self).bind_group_layouts@ == old(self).bind_group_layouts@,
            final(self).shader_path == old(self).shader_path,
            final(self).vertex_entry == old(self).vertex_entry,
            final(self).fragment_entry == old(self).fragment_entry,
            final(self).pixel_format == old(self).pixel_format,
    {
        self.vertex_buffer_layouts.push(layout);
    }

    /// The file the shader source is read from.
    pub fn shader_file(&self) -> (r: String)
        ensures
            r@ == shader_file(self.shader_path@),
    {
        shader_file_of(self.shader_path.as_str())
    }

    /// Assembles the pipeline from the collected layouts and the shader source
    /// read from `shader_file`, or reports the attempted file when there was
    /// none to read.
    pub fn build_pipeline(self, label: &str, shader_source: Option<String>) -> (r: Result<
        PipelineDesc,
        PipelineError,
    >)
        ensures
            shader_source is None <==> r is Err,
            r matches Err(PipelineError::ShaderNotFound { path }) ==> path@ == shader_file(
                self.shader_path@,
            ),
            r matches Ok(d) ==> {
                &&& d.label@ == label@
                &&& shader_source == Some(d.shader_source)
                &&& d.vertex_entry == self.vertex_entry
                &&& d.fragment_entry == self.fragment_entry
                &&& d.pixel_format == self.pixel_format
                &&& d.bind_group_layouts@ == self.bind_group_layouts@
                &&& d.vertex_buffer_layouts@ == self.vertex_buffer_layouts@
                &&& d.fixed == opaque_triangles()
            },
    {
        match shader_source {
            None => Err(PipelineError::ShaderNotFound { path: self.shader_file() }),
            Some(source) => Ok(
                PipelineDesc {
                    label: label.to_string(),
                    shader_source: source,
                    vertex_entry: self.vertex_entry,
                    fragment_entry: self.fragment_entry,
                    pixel_format: self.pixel_format,
                    bind_group_layouts: self.bind_group_layouts,
                    vertex_buffer_layouts: self.vertex_buffer_layouts,
                    fixed: FixedState {
                        topology: Topology::TriangleList,
                        front_face: FrontFace::Ccw,
                        cull_mode: CullMode::Back,
                        blend: BlendMode::Replace,
                        depth_stencil: false,
                        sample_count: 1,
                    },
                },
            ),
        }
    }
}

} // verus!
