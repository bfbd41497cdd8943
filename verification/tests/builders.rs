use fuji_engine::bind_group::{Builder as BindGroupBuilder, BindingResource};
use fuji_engine::bind_group_layout::{BindingKind, Builder, ShaderVisibility};
use fuji_engine::pipeline::{BlendState, Builder as PipelineBuilder, Face, FrontFace, PolygonMode, PrimitiveTopology};
use fuji_engine::texture::{AddressMode, Extent3d, FilterMode, SamplerDesc, TextureViewDesc};
use fuji_engine::texture_format::{choose_format, TextureFormat};
use fuji_engine::vertex::{vertex_layout, VertexFormat, VertexStepMode};

#[test]
fn layout_builder_three_pairs_has_six_sequential_entries() {
    let mut builder = Builder::new();
    builder.add_material();
    builder.add_material();
    builder.add_material();
    let layout = builder.build("three materials");
    assert_eq!(layout.label, "three materials");
    assert_eq!(layout.entries.len(), 6);
    for (i, entry) in layout.entries.iter().enumerate() {
        assert_eq!(entry.binding as usize, i);
        assert_eq!(entry.visibility, ShaderVisibility::Fragment);
        if i % 2 == 0 {
            assert!(matches!(
                entry.ty,
                BindingKind::Texture { filterable: true, multisampled: false, .. }
            ));
        } else {
            assert!(matches!(entry.ty, BindingKind::Sampler { filtering: true }));
        }
    }
    assert_eq!(builder.entries.len(), 0, "builder is single-use: emptied by build");
}

#[test]
fn layout_builder_one_pair() {
    let mut builder = Builder::new();
    builder.add_material();
    let layout = builder.build("one material");
    assert_eq!(layout.entries.len(), 2);
    assert_eq!(layout.entries[0].binding, 0);
    assert_eq!(layout.entries[1].binding, 1);
    assert!(matches!(layout.entries[0].ty, BindingKind::Texture { .. }));
    assert!(matches!(layout.entries[1].ty, BindingKind::Sampler { .. }));
}

#[test]
fn bind_group_builder_binds_view_then_sampler() {
    let mut layout_builder = Builder::new();
    layout_builder.add_material();
    let layout = layout_builder.build("material layout");

    let view = TextureViewDesc {
        format: TextureFormat::Rgba8Unorm,
        size: Extent3d { width: 7, height: 5, depth_or_array_layers: 1 },
    };
    let sampler = SamplerDesc {
        address_mode_u: AddressMode::Repeat,
        address_mode_v: AddressMode::Repeat,
        address_mode_w: AddressMode::Repeat,
        mag_filter: FilterMode::Linear,
        min_filter: FilterMode::Nearest,
    };
    let mut builder = BindGroupBuilder::new();
    builder.set_layout(layout);
    builder.add_material(view, sampler);
    let group = builder.build("material group");
    assert_eq!(group.label, "material group");
    assert_eq!(group.entries.len(), 2);
    assert_eq!(group.entries[0].binding, 0);
    assert_eq!(group.entries[1].binding, 1);
    assert!(matches!(group.entries[0].resource, BindingResource::TextureView(v) if v == view));
    assert!(matches!(group.entries[1].resource, BindingResource::Sampler(s) if s == sampler));
    assert_eq!(group.layout.entries.len(), 2);
    assert_eq!(builder.entries.len(), 0, "bound resources are single-use");
    assert!(builder.layout.is_some(), "the layout stays set");
}

#[test]
fn pipeline_builder_fixed_state_and_reset() {
    let mut layout_builder = Builder::new();
    layout_builder.add_material();
    let bgl = layout_builder.build("material layout");

    let mut builder = PipelineBuilder::new();
    builder.add_vertex_buffer_layout(vertex_layout());
    builder.set_shader_module("shader.wgsl", "vs_main", "fs_main");
    builder.set_pixel_format(TextureFormat::Bgra8UnormSrgb);
    builder.add_bind_group_layout(bgl);
    let pipeline = builder.build_pipeline("Render pipeline");

    assert_eq!(pipeline.label, "Render pipeline");
    assert_eq!(pipeline.shader_filename, "shader.wgsl");
    assert_eq!(pipeline.vertex_entry, "vs_main");
    assert_eq!(pipeline.fragment_entry, "fs_main");
    assert_eq!(pipeline.pixel_format, TextureFormat::Bgra8UnormSrgb);
    assert_eq!(pipeline.topology, PrimitiveTopology::TriangleList);
    assert_eq!(pipeline.front_face, FrontFace::Ccw);
    assert_eq!(pipeline.cull_mode, Some(Face::Back));
    assert_eq!(pipeline.polygon_mode, PolygonMode::Fill);
    assert_eq!(pipeline.blend, BlendState::Replace);
    assert_eq!(pipeline.sample_count, 1);
    assert_eq!(pipeline.vertex_layouts.len(), 1);
    assert_eq!(pipeline.bind_group_layouts.len(), 1);

    assert_eq!(builder.vertex_buffer_layouts.len(), 0, "single-use: layouts cleared");
    assert_eq!(builder.bind_group_layouts.len(), 0);
    assert_eq!(builder.shader_filename, "shader.wgsl", "the shader reference stays");
}

#[test]
fn vertex_layout_shape() {
    let layout = vertex_layout();
    assert_eq!(layout.array_stride, 20);
    assert_eq!(layout.step_mode, VertexStepMode::Vertex);
    assert_eq!(layout.attributes.len(), 2);
    assert_eq!(layout.attributes[0].format, VertexFormat::Float32x3);
    assert_eq!(layout.attributes[0].offset, 0);
    assert_eq!(layout.attributes[0].shader_location, 0);
    assert_eq!(layout.attributes[1].format, VertexFormat::Float32x2);
    assert_eq!(layout.attributes[1].offset, 12);
    assert_eq!(layout.attributes[1].shader_location, 1);
}

#[test]
fn format_choice_prefers_first_srgb() {
    let formats = vec![
        TextureFormat::Bgra8Unorm,
        TextureFormat::Bgra8UnormSrgb,
        TextureFormat::Rgba8UnormSrgb,
    ];
    assert_eq!(choose_format(&formats), TextureFormat::Bgra8UnormSrgb);

    let with_other = vec![
        TextureFormat::Rgba8Unorm,
        TextureFormat::Other { srgb: true },
        TextureFormat::Bgra8UnormSrgb,
    ];
    assert_eq!(choose_format(&with_other), TextureFormat::Other { srgb: true });
}

#[test]
fn format_choice_falls_back_to_first() {
    let formats = vec![
        TextureFormat::Rgba8Unorm,
        TextureFormat::Bgra8Unorm,
        TextureFormat::Other { srgb: false },
    ];
    assert_eq!(choose_format(&formats), TextureFormat::Rgba8Unorm);
}
