use quad_render::instance::{layout_instances, Instance};
use quad_render::layout::{StepMode, VertexAttribute, VertexFormat};
use quad_render::material::{
    BindingResource, BindingType, FilterMode, GroupEntry, LayoutEntry, Material, MaterialError,
};
use quad_render::mesh::{make_mesh, Vertex};
use quad_render::pipeline::{
    shader_file_of, BlendMode, CullMode, FrontFace, PipelineBuilder, PipelineError, Topology,
};
use quad_render::state::{render_pipeline_builder, DrawCall, InitError, Setup, State, MATERIAL_LAYOUT};
use quad_render::surface::{choose_format, PresentMode, SurfaceConfig};

fn png_bytes(width: u32, height: u32) -> Vec<u8> {
    let mut img = image::RgbaImage::new(width, height);
    img.put_pixel(1, 0, image::Rgba([10, 20, 30, 255]));
    let mut out = std::io::Cursor::new(Vec::new());
    img.write_to(&mut out, image::ImageFormat::Png).unwrap();
    out.into_inner()
}

#[test]
fn resize_stores_non_zero_size() {
    let mut c = SurfaceConfig::new(1000, 1000, &vec![false, true], 1).unwrap();
    assert!(c.resize(640, 480));
    assert_eq!((c.width, c.height, c.format_index), (640, 480, 1));
}

#[test]
fn resize_skips_zero_width() {
    let mut c = SurfaceConfig::new(1000, 800, &vec![true], 2).unwrap();
    assert!(!c.resize(0, 480));
    assert_eq!((c.width, c.height), (1000, 800));
}

#[test]
fn resize_skips_zero_height() {
    let mut c = SurfaceConfig::new(1000, 800, &vec![true], 2).unwrap();
    assert!(!c.resize(640, 0));
    assert!(!c.resize(0, 0));
    assert_eq!((c.width, c.height), (1000, 800));
}

#[test]
fn format_prefers_first_srgb() {
    assert_eq!(choose_format(&vec![false, false, true, true]), Some(2));
    assert_eq!(choose_format(&vec![true, false]), Some(0));
}

#[test]
fn format_falls_back_to_first() {
    assert_eq!(choose_format(&vec![false, false, false]), Some(0));
}

#[test]
fn format_of_no_formats() {
    assert_eq!(choose_format(&vec![]), None);
    assert_eq!(SurfaceConfig::new(10, 10, &vec![], 1), None);
}

#[test]
fn surface_without_area_is_not_configured() {
    assert_eq!(SurfaceConfig::new(0, 10, &vec![true], 1), None);
    assert_eq!(SurfaceConfig::new(10, 10, &vec![true], 0), None);
    let srgb = vec![true];
    let png = png_bytes(4, 4);
    assert!(matches!(State::new(setup(10, 0, &srgb, &png, Some(SHADER.to_string()))), Err(InitError::Surface)));
}

#[test]
fn surface_starts_fifo_with_first_alpha_mode() {
    let c = SurfaceConfig::new(1000, 1000, &vec![false, true], 3).unwrap();
    assert_eq!(c.alpha_mode_index, 0);
    assert_eq!(c.present_mode, PresentMode::Fifo);
    assert_eq!(c.format_index, 1);
}

const SHADER: &str = "@vertex fn vs_main() {}";

fn setup<'a>(
    width: u32,
    height: u32,
    srgb: &'a Vec<bool>,
    texture: &'a [u8],
    shader_source: Option<String>,
) -> Setup<'a> {
    Setup {
        width,
        height,
        srgb,
        alpha_modes: 1,
        texture,
        shader_path: "shaders/shader.wgsl",
        shader_source,
        vertex_entry: "vs_main",
        fragment_entry: "fs_main",
        instance_count: 8,
        instance_spacing: 1,
    }
}

#[test]
fn state_starts_ready_at_window_size() {
    let png = png_bytes(64, 64);
    let srgb = vec![false, true, false];
    let s = State::new(setup(1000, 1000, &srgb, &png, Some(SHADER.to_string()))).unwrap();
    assert_eq!(s.config.width, 1000);
    assert_eq!(s.config.height, 1000);
    assert_eq!(s.config.format_index, 1);
    assert_eq!(s.mesh.indices, vec![0, 1, 2, 2, 1, 3]);
    assert_eq!(s.material.dimensions, (64, 64));
    assert_eq!(s.instances.len(), 8);
    assert_eq!(s.instances[0].x, -7);
    assert_eq!(s.pipeline.pixel_format, 1);
    assert_eq!(s.pipeline.bind_group_layouts, vec![MATERIAL_LAYOUT]);
    assert_eq!(s.pipeline.vertex_buffer_layouts[0].step_mode, StepMode::Vertex);
    assert_eq!(s.pipeline.vertex_buffer_layouts[1].step_mode, StepMode::Instance);
    assert_eq!(s.pipeline.shader_source, SHADER);
    let srgb = vec![false, false];
    let s = State::new(setup(1000, 1000, &srgb, &png, Some(SHADER.to_string()))).unwrap();
    assert_eq!(s.config.format_index, 0);
}

#[test]
fn state_reports_the_failing_step() {
    let srgb = vec![true];
    let png = png_bytes(2, 2);
    match State::new(setup(100, 100, &srgb, &[9, 9, 9], Some(SHADER.to_string()))) {
        Err(InitError::Material(e)) => assert_eq!(e, MaterialError::Decode),
        other => panic!("unexpected {:?}", other.map(|s| s.config)),
    }
    match State::new(setup(100, 100, &srgb, &png, None)) {
        Err(InitError::Pipeline(PipelineError::ShaderNotFound { path })) => {
            assert_eq!(path, "src/shaders/shader.wgsl")
        }
        other => panic!("unexpected {:?}", other.map(|s| s.config)),
    }
}

#[test]
fn state_render_draws_all_indices_and_instances() {
    let png = png_bytes(2, 2);
    let srgb = vec![true];
    let mut s = State::new(setup(1000, 1000, &srgb, &png, Some(SHADER.to_string()))).unwrap();
    let d = s.render();
    assert_eq!(
        d,
        DrawCall { mesh_slot: 0, instance_slot: 1, material_group: 0, index_count: 6, instance_count: 8 }
    );
    assert!(s.resize(300, 200));
    assert_eq!(s.render(), d);
    assert_eq!((s.config.width, s.config.height), (300, 200));
    let before = s.config;
    assert!(!s.resize(0, 0));
    assert_eq!(s.config, before);
}

#[test]
fn quad_has_four_vertices_and_two_triangles() {
    let m = make_mesh();
    assert_eq!(m.vertices.len(), 4);
    assert_eq!(m.indices, vec![0, 1, 2, 2, 1, 3]);
    assert!(m.indices.iter().all(|i| *i < 4));
    for i in 0..4 {
        for j in (i + 1)..4 {
            assert_ne!(m.vertices[i], m.vertices[j]);
        }
    }
    for t in 0..2 {
        let a = m.vertices[m.indices[3 * t] as usize];
        let b = m.vertices[m.indices[3 * t + 1] as usize];
        let c = m.vertices[m.indices[3 * t + 2] as usize];
        let turn = (b.x - a.x) * (c.y - a.y) - (b.y - a.y) * (c.x - a.x);
        assert!(turn > 0);
    }
    assert_eq!(m.vertices[0], Vertex { x: -1, y: -1, z: 0 });
    assert_eq!(m.vertices[3], Vertex { x: 1, y: 1, z: 0 });
}

#[test]
fn vertex_layout_is_three_floats() {
    let d = Vertex::desc();
    assert_eq!(d.array_stride, 12);
    assert_eq!(d.step_mode, StepMode::Vertex);
    assert_eq!(
        d.attributes,
        vec![VertexAttribute { format: VertexFormat::Float32x3, offset: 0, shader_location: 0 }]
    );
}

#[test]
fn instances_form_a_centred_row() {
    let r = layout_instances(8, 1);
    let xs: Vec<i64> = r.iter().map(|i| i.x).collect();
    let angles: Vec<u32> = r.iter().map(|i| i.angle_degrees).collect();
    assert_eq!(xs, vec![-7, -5, -3, -1, 1, 3, 5, 7]);
    assert_eq!(angles, vec![0, 30, 60, 90, 120, 150, 180, 210]);
}

#[test]
fn instances_follow_spacing() {
    let r = layout_instances(3, -4);
    assert_eq!(
        r,
        vec![
            Instance { x: 8, angle_degrees: 0 },
            Instance { x: 0, angle_degrees: 30 },
            Instance { x: -8, angle_degrees: 60 },
        ]
    );
    let one = layout_instances(1, 5);
    assert_eq!(one, vec![Instance { x: 0, angle_degrees: 0 }]);
    assert!(layout_instances(0, 5).is_empty());
}

#[test]
fn instances_at_largest_count() {
    let r = layout_instances(u16::MAX, i32::MIN);
    assert_eq!(r.len(), 65535);
    assert_eq!(r[0].x, -(i32::MIN as i64) * 65534);
    assert_eq!(r[1].x - r[0].x, 2 * i32::MIN as i64);
    assert_eq!(r[65534].angle_degrees, 30 * 65534);
}

#[test]
fn instance_layout_is_a_matrix_per_instance() {
    let d = Instance::desc();
    assert_eq!(d.array_stride, 64);
    assert_eq!(d.step_mode, StepMode::Instance);
    let locs: Vec<(u64, u32)> = d.attributes.iter().map(|a| (a.offset, a.shader_location)).collect();
    assert_eq!(locs, vec![(0, 5), (16, 6), (32, 7), (48, 8)]);
    assert!(d.attributes.iter().all(|a| a.format == VertexFormat::Float32x4));
}

#[test]
fn material_of_a_64_square_image() {
    let m = Material::new(&png_bytes(64, 64)).unwrap();
    assert_eq!(m.dimensions, (64, 64));
    assert_eq!(m.bytes_per_row, 256);
    assert_eq!(m.rows_per_image, 64);
    assert_eq!(m.pixels.len(), 64 * 64 * 4);
    assert_eq!(&m.pixels[4..8], &[10, 20, 30, 255]);
    assert_eq!(
        m.layout_entries,
        vec![
            LayoutEntry { binding: 0, ty: BindingType::FilterableTexture },
            LayoutEntry { binding: 1, ty: BindingType::FilteringSampler },
        ]
    );
    assert_eq!(
        m.group_entries,
        vec![
            GroupEntry { binding: 0, resource: BindingResource::TextureView },
            GroupEntry { binding: 1, resource: BindingResource::Sampler },
        ]
    );
    assert_eq!(m.sampler.mag_filter, FilterMode::Linear);
    assert_eq!(m.sampler.min_filter, FilterMode::Nearest);
    assert_eq!(m.sampler.mipmap_filter, FilterMode::Nearest);
}

#[test]
fn material_of_a_wide_image() {
    let m = Material::new(&png_bytes(3, 2)).unwrap();
    assert_eq!(m.dimensions, (3, 2));
    assert_eq!(m.bytes_per_row, 12);
    assert_eq!(m.pixels.len(), 24);
}

#[test]
fn material_of_garbage_fails_to_decode() {
    assert_eq!(Material::new(&[1, 2, 3, 4]).unwrap_err(), MaterialError::Decode);
    assert_eq!(Material::new(&[]).unwrap_err(), MaterialError::Decode);
}

#[test]
fn material_rejects_bad_rgba() {
    assert_eq!(Material::from_rgba(2, 2, vec![0; 15]).unwrap_err(), MaterialError::SizeMismatch);
    assert_eq!(Material::from_rgba(0, 2, vec![]).unwrap_err(), MaterialError::Empty);
    assert_eq!(Material::from_rgba(2, 0, vec![]).unwrap_err(), MaterialError::Empty);
    assert_eq!(
        Material::from_rgba(0x4000_0000, 1, vec![]).unwrap_err(),
        MaterialError::RowTooWide
    );
    let m = Material::from_rgba(2, 1, vec![7; 8]).unwrap();
    assert_eq!(m.bytes_per_row, 8);
    assert_eq!(m.pixels, vec![7; 8]);
}

#[test]
fn pipeline_without_shader_reports_path() {
    let b = PipelineBuilder::new("shaders/missing.wgsl", "vs_main", "fs_main", 0);
    assert_eq!(b.shader_file(), "src/shaders/missing.wgsl");
    assert_eq!(shader_file_of("a.wgsl"), "src/a.wgsl");
    match b.build_pipeline("Render Pipeline", None) {
        Err(e) => {
            let PipelineError::ShaderNotFound { path } = &e;
            assert_eq!(path, "src/shaders/missing.wgsl");
            assert!(e.message().contains("shaders/missing.wgsl"));
            assert_eq!(e.message(), "no shader found at src/shaders/missing.wgsl");
        }
        Ok(_) => panic!("a pipeline without shader source"),
    }
}

#[test]
fn pipeline_keeps_layout_order() {
    let b = render_pipeline_builder("shaders/shader.wgsl", "vs_main", "fs_main", 2, 9);
    assert_eq!(b.bind_group_layouts, vec![9]);
    let d = b.build_pipeline("Render Pipeline", Some("@vertex fn vs_main() {}".to_string())).unwrap();
    assert_eq!(d.label, "Render Pipeline");
    assert_eq!(d.shader_source, "@vertex fn vs_main() {}");
    assert_eq!(d.vertex_entry, "vs_main");
    assert_eq!(d.fragment_entry, "fs_main");
    assert_eq!(d.pixel_format, 2);
    assert_eq!(d.vertex_buffer_layouts.len(), 2);
    assert_eq!(d.vertex_buffer_layouts[0].step_mode, StepMode::Vertex);
    assert_eq!(d.vertex_buffer_layouts[1].step_mode, StepMode::Instance);
    assert_eq!(d.fixed.topology, Topology::TriangleList);
    assert_eq!(d.fixed.front_face, FrontFace::Ccw);
    assert_eq!(d.fixed.cull_mode, CullMode::Back);
    assert_eq!(d.fixed.blend, BlendMode::Replace);
    assert!(!d.fixed.depth_stencil);
    assert_eq!(d.fixed.sample_count, 1);
}

#[test]
fn builder_appends_in_order() {
    let mut b = PipelineBuilder::new("s.wgsl", "v", "f", 0);
    b.add_bind_group_layout(4);
    b.add_bind_group_layout(1);
    b.add_vertex_buffer_layout(Instance::desc());
    b.add_vertex_buffer_layout(Vertex::desc());
    assert_eq!(b.bind_group_layouts, vec![4, 1]);
    assert_eq!(b.vertex_buffer_layouts[0].array_stride, 64);
    assert_eq!(b.vertex_buffer_layouts[1].array_stride, 12);
}
