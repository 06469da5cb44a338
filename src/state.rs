use vstd::prelude::*;
use crate::instance::{instance_attributes, layout_instances, placed, Instance};
use crate::layout::StepMode;
use crate::material::{material_error, rgba_decoding, Material, MaterialError};
use crate::mesh::{make_mesh, quad_indices, quad_vertices, vertex_attributes, Mesh, Vertex};
use crate::pipeline::{opaque_triangles, shader_file, PipelineBuilder, PipelineDesc, PipelineError};
use crate::surface::{configurable, is_chosen_format, PresentMode, SurfaceConfig};

verus! {

/// Vertex-buffer slot the mesh's vertices are bound to.
pub const MESH_SLOT: u32 = 0;

/// Vertex-buffer slot the instance transforms are bound to.
pub const INSTANCE_SLOT: u32 = 1;

/// Bind-group index of the material.
pub const MATERIAL_GROUP: u32 = 0;

/// Handle under which the pipeline names the material's bind-group layout.
pub const MATERIAL_LAYOUT: u32 = 0;

/// The one draw of a frame: which buffers and group go to which slot, and
/// how many indices and instances are drawn. Indices and instances are drawn
/// from the first one on, with no offset added to the vertex index.
#[derive(Clone, Copy, Debug, PartialEq, Eq, Structural)]
pub struct DrawCall {
    pub mesh_slot: u32,
    pub instance_slot: u32,
    pub material_group: u32,
    pub index_count: u32,
    pub instance_count: u32,
}

/// What the start-up configuration of the renderer fixes.
pub struct Setup<'a> {
    pub width: u32,
    pub height: u32,
    /// Whether each format the surface supports is sRGB, in its order.
    pub srgb: &'a Vec<bool>,
    /// How many alpha modes the surface supports.
    pub alpha_modes: usize,
    /// The encoded texture.
    pub texture: &'a [u8],
    pub shader_path: &'a str,
    /// The text read from the shader file, if there was one.
    pub shader_source: Option<String>,
    pub vertex_entry: &'a str,
    pub fragment_entry: &'a str,
    pub instance_count: u16,
    pub instance_spacing: i32,
}

/// Why the renderer could not start.
#[derive(Debug)]
pub enum InitError {
    /// The window has no area, or the surface reports no format or alpha mode.
    Surface,
    Material(MaterialError),
    Pipeline(PipelineError),
}

/// Everything the renderer draws with, as decided before any GPU object
/// exists: the surface's configuration, the quad, the material, the instances
/// and the pipeline that draws them.
#[derive(Debug)]
pub struct State {
    pub config: SurfaceConfig,
    pub mesh: Mesh,
    pub material: Material,
    pub instances: Vec<Instance>,
    pub pipeline: PipelineDesc,
}

/// The pipeline's layouts in binding order: the mesh's vertex layout, then the
/// instance layout as vertex buffers, and the material's layout as group 0.
pub fn render_pipeline_builder(
    shader_path: &str,
    vertex_entry: &str,
    fragment_entry: &str,
    pixel_format: usize,
    material_layout: u32,
) -> (r: PipelineBuilder)
    ensures
        r.shader_path@ == shader_path@,
        r.vertex_entry@ == vertex_entry@,
        r.fragment_entry@ == fragment_entry@,
        r.pixel_format == pixel_format,
        r.bind_group_layouts@ == seq![material_layout],
        r.vertex_buffer_layouts@.len() == 2,
        r.vertex_buffer_layouts@[0].step_mode == StepMode::Vertex,
        r.vertex_buffer_layouts@[0].array_stride == 12,
        r.vertex_buffer_layouts@[0].attributes@ == vertex_attributes(),
        r.vertex_buffer_layouts@[1].step_mode == StepMode::Instance,
        r.vertex_buffer_layouts@[1].array_stride == 64,
        r.vertex_buffer_layouts@[1].attributes@ == instance_attributes(),
{
    let mut builder = PipelineBuilder::new(shader_path, vertex_entry, fragment_entry, pixel_format);
    builder.add_vertex_buffer_layout(Vertex::desc());
    builder.add_bind_group_layout(material_layout);
    builder.add_vertex_buffer_layout(Instance::desc());
    assert(builder.bind_group_layouts@ =~= seq![material_layout]);
    builder
}

/// The pipeline draws the quad's vertices from buffer slot 0, the instances'
/// transforms from slot 1, and the material as group 0.
pub open spec fn draws_instanced_quad(d: PipelineDesc) -> bool {
    &&& d.bind_group_layouts@ == seq![MATERIAL_LAYOUT]
    &&& d.vertex_buffer_layouts@.len() == 2
    &&& d.vertex_buffer_layouts@[0].step_mode == StepMode::Vertex
    &&& d.vertex_buffer_layouts@[0].array_stride == 12
    &&& d.vertex_buffer_layouts@[0].attributes@ == vertex_attributes()
    &&& d.vertex_buffer_layouts@[1].step_mode == StepMode::Instance
    &&& d.vertex_buffer_layouts@[1].array_stride == 64
    &&& d.vertex_buffer_layouts@[1].attributes@ == instance_attributes()
    &&& d.fixed == opaque_triangles()
}

impl State {
    pub open spec fn wf(&self) -> bool {
        &&& self.config.wf()
        &&& self.mesh.vertices@ == quad_vertices()
        &&& self.mesh.indices@ == quad_indices()
        &&& self.material.wf()
        &&& self.instances@.len() <= u16::MAX
        &&& self.pipeline.pixel_format == self.config.format_index
        &&& draws_instanced_quad(self.pipeline)
    }

    /// Builds, in dependency order, the surface configuration, the quad, the
    /// material, the instances and, last, the pipeline that refers to them.
    /// The first step that fails ends the start-up with its error.
    pub fn new(setup: Setup) -> (r: Result<State, InitError>)
        ensures
            !configurable(setup.width, setup.height, setup.srgb@, setup.alpha_modes) ==> r
                is Err && r->Err_0 is Surface,
            configurable(setup.width, setup.height, setup.srgb@, setup.alpha_modes)
                ==> match material_error(setup.texture@) {
                Some(e) => r matches Err(InitError::Material(f)) && f == e,
                None => match setup.shader_source {
                    None => r matches Err(InitError::Pipeline(PipelineError::ShaderNotFound { path }))
                        && path@ == shader_file(setup.shader_path@),
                    Some(_) => r is Ok,
                },
            },
            r matches Ok(s) ==> {
                &&& s.wf()
                &&& s.config.width == setup.width
                &&& s.config.height == setup.height
                &&& is_chosen_format(setup.srgb@, s.config.format_index as int)
                &&& s.config.alpha_mode_index == 0
                &&& s.config.present_mode == PresentMode::Fifo
                &&& rgba_decoding(setup.texture@) == Some(
                    (s.material.dimensions.0, s.material.dimensions.1, s.material.pixels@),
                )
                &&& s.instances@.len() == setup.instance_count
                &&& forall|i: int|
                    0 <= i < setup.instance_count ==> s.instances@[i] == placed(
                        setup.instance_count as int,
                        setup.instance_spacing as int,
                        i,
                    )
                &&& setup.shader_source == Some(s.pipeline.shader_source)
                &&& s.pipeline.vertex_entry@ == setup.vertex_entry@
                &&& s.pipeline.fragment_entry@ == setup.fragment_entry@
            },
    {
        let config = match SurfaceConfig::new(setup.width, setup.height, setup.srgb, setup.alpha_modes) {
            Some(c) => c,
            None => {
                return Err(InitError::Surface);
            },
        };
        let mesh = make_mesh();
        let material = match Material::new(setup.texture) {
            Ok(m) => m,
            Err(e) => {
                return Err(InitError::Material(e));
            },
        };
        let instances = layout_instances(setup.instance_count, setup.instance_spacing);
        let builder = render_pipeline_builder(
            setup.shader_path,
            setup.vertex_entry,
            setup.fragment_entry,
            config.format_index,
            MATERIAL_LAYOUT,
        );
        let pipeline = match builder.build_pipeline("Render Pipeline", setup.shader_source) {
            Ok(p) => p,
            Err(e) => {
                return Err(InitError::Pipeline(e));
            },
        };
        Ok(State { config, mesh, material, instances, pipeline })
    }

    /// Applies a size-change event; the result says whether the surface is to
    /// be reconfigured. A zero dimension leaves everything as it was.
    pub fn resize(&mut self, width: u32, height: u32) -> (reconfigure: bool)
        requires
            old(self).wf(),
        ensures
            final(self).wf(),
            reconfigure == (width > 0 && height > 0),
            final(self).config == (if reconfigure {
                SurfaceConfig { width, height, ..old(self).config }
            } else {
                old(self).config
            }),
            final(self).mesh == old(self).mesh,
            final(self).material == old(self).material,
            final(self).instances == old(self).instances,
            final(self).pipeline == old(self).pipeline,
    {
        self.config.resize(width, height)
    }

    /// The draw of one frame: every index of the mesh, every instance, with
    /// the mesh, the instances and the material at their slots.
    pub fn render(&self) -> (r: DrawCall)
        requires
            self.wf(),
        ensures
            r == (DrawCall {
                mesh_slot: MESH_SLOT,
                instance_slot: INSTANCE_SLOT,
                material_group: MATERIAL_GROUP,
                index_count: self.mesh.indices@.len() as u32,
                instance_count: self.instances@.len() as u32,
            }),
            r.index_count == 6,
    {
        DrawCall {
            mesh_slot: MESH_SLOT,
            instance_slot: INSTANCE_SLOT,
            material_group: MATERIAL_GROUP,
            index_count: self.mesh.indices.len() as u32,
            instance_count: self.instances.len() as u32,
        }
    }
}

/// The slots a frame binds its buffers and group to are those the state's
/// pipeline declared them for: the mesh's per-vertex layout, the per-instance
/// layout, and the material's group layout.
pub proof fn lemma_draw_matches_pipeline(s: State)
    requires
        s.wf(),
    ensures
        s.pipeline.vertex_buffer_layouts@[MESH_SLOT as int].step_mode == StepMode::Vertex,
        s.pipeline.vertex_buffer_layouts@[INSTANCE_SLOT as int].step_mode == StepMode::Instance,
        s.pipeline.bind_group_layouts@[MATERIAL_GROUP as int] == MATERIAL_LAYOUT,
{
}

} // verus!
