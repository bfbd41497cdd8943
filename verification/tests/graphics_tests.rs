use fuji_engine::graphics::{
    AlphaMode, DrawItem, GraphicState, InitStage, PresentMode, RenderCommand, SurfaceCaps,
};
use fuji_engine::materials::ImageData;
use fuji_engine::texture_format::TextureFormat;

fn one_pixel_image() -> ImageData {
    ImageData { width: 1, height: 1, pixels: vec![0, 0, 0, 255] }
}

fn caps_with_srgb() -> SurfaceCaps {
    SurfaceCaps {
        formats: vec![TextureFormat::Bgra8Unorm, TextureFormat::Bgra8UnormSrgb],
        present_modes: vec![PresentMode::Fifo, PresentMode::Immediate],
        alpha_modes: vec![AlphaMode::Opaque, AlphaMode::Auto],
    }
}

fn fresh_context() -> GraphicState {
    GraphicState::new(&caps_with_srgb(), 800, 600, one_pixel_image(), one_pixel_image())
}

fn is_draw(c: &RenderCommand) -> bool {
    matches!(c, RenderCommand::DrawIndexed { .. } | RenderCommand::Draw { .. })
}

#[test]
fn end_to_end_800_by_600() {
    let ctx = fresh_context();

    // The surface configuration: the sRGB format the platform offers, the
    // window size, the first reported present and alpha modes.
    assert_eq!(ctx.config.format, TextureFormat::Bgra8UnormSrgb);
    assert_eq!(ctx.config.width, 800);
    assert_eq!(ctx.config.height, 600);
    assert_eq!(ctx.config.present_mode, PresentMode::Fifo);
    assert_eq!(ctx.config.alpha_mode, AlphaMode::Opaque);
    assert_eq!(ctx.config.desired_maximum_frame_latency, 2);
    assert!(ctx.config.usage.render_attachment);

    // One frame records exactly two draw calls: the quad's indexed draw of
    // six indices, then the triangle's non-indexed draw of three vertices.
    let cmds = ctx.render();
    let draws: Vec<&RenderCommand> = cmds.iter().filter(|c| is_draw(c)).collect();
    assert_eq!(draws.len(), 2);
    assert!(matches!(draws[0], RenderCommand::DrawIndexed { index_count: 6 }));
    assert!(matches!(draws[1], RenderCommand::Draw { vertex_count: 3 }));
}

#[test]
fn surface_format_falls_back_to_first_offered() {
    let caps = SurfaceCaps {
        formats: vec![TextureFormat::Bgra8Unorm, TextureFormat::Rgba8Unorm],
        present_modes: vec![PresentMode::Fifo],
        alpha_modes: vec![AlphaMode::Auto],
    };
    let ctx = GraphicState::new(&caps, 800, 600, one_pixel_image(), one_pixel_image());
    assert_eq!(ctx.config.format, TextureFormat::Bgra8Unorm);
}

#[test]
fn frame_protocol_order() {
    let ctx = fresh_context();
    let cmds = ctx.render();

    assert!(matches!(cmds[0], RenderCommand::BeginRenderPass { clear }
        if clear.r == 0 && clear.g == 0 && clear.b == 255 && clear.a == 255));
    assert!(matches!(cmds[1], RenderCommand::BindPipeline));

    let pipeline_binds = cmds
        .iter()
        .filter(|c| matches!(c, RenderCommand::BindPipeline))
        .count();
    assert_eq!(pipeline_binds, 1, "the pipeline is bound exactly once");
    let submits = cmds.iter().filter(|c| matches!(c, RenderCommand::Submit)).count();
    assert_eq!(submits, 1, "exactly one submission");
    let presents = cmds.iter().filter(|c| matches!(c, RenderCommand::Present)).count();
    assert_eq!(presents, 1, "exactly one presentation");

    let n = cmds.len();
    assert!(matches!(cmds[n - 3], RenderCommand::EndRenderPass));
    assert!(matches!(cmds[n - 2], RenderCommand::Submit), "submission precedes presentation");
    assert!(matches!(cmds[n - 1], RenderCommand::Present));

    // Each draw-list pair is recorded in the fixed configured order, its
    // bind group and buffers bound right before its draw call.
    let expected = vec![
        RenderCommand::BindGroup { group: 0, material: 0 },
        RenderCommand::BindVertexBuffer { slot: 0, mesh: 0 },
        RenderCommand::BindIndexBuffer { mesh: 0 },
        RenderCommand::DrawIndexed { index_count: 6 },
        RenderCommand::BindGroup { group: 0, material: 1 },
        RenderCommand::BindVertexBuffer { slot: 0, mesh: 1 },
        RenderCommand::Draw { vertex_count: 3 },
    ];
    assert_eq!(&cmds[2..n - 3], &expected[..]);
}

#[test]
fn resize_positive_applies_and_rendering_goes_on() {
    let mut ctx = fresh_context();
    let before = ctx.render();
    let applied = ctx.resize(1024, 768);
    assert!(applied, "a positive resize reconfigures the surface");
    assert_eq!(ctx.config.width, 1024);
    assert_eq!(ctx.config.height, 768);
    assert_eq!(ctx.width, 1024);
    assert_eq!(ctx.height, 768);
    let after = ctx.render();
    assert_eq!(before, after, "a resize leaves the frame protocol unchanged");
}

#[test]
fn resize_zero_dimension_is_a_no_op() {
    let mut ctx = fresh_context();
    assert!(!ctx.resize(0, 600));
    assert_eq!(ctx.config.width, 800);
    assert_eq!(ctx.config.height, 600);
    assert!(!ctx.resize(800, 0));
    assert_eq!(ctx.config.width, 800);
    assert_eq!(ctx.config.height, 600);
    assert!(!ctx.resize(0, 0));
    assert_eq!(ctx.config.width, 800);
    assert_eq!(ctx.config.height, 600);
    assert_eq!(ctx.width, 800);
    assert_eq!(ctx.height, 600);
}

#[test]
fn vertex_layout_round_trips_through_the_pipeline() {
    let ctx = fresh_context();
    assert_eq!(ctx.pipeline.vertex_layouts.len(), 1);
    let expected = &ctx.pipeline.vertex_layouts[0];
    for mesh in &ctx.meshes {
        assert_eq!(mesh.layout.array_stride, expected.array_stride);
        assert_eq!(mesh.layout.step_mode, expected.step_mode);
        assert_eq!(mesh.layout.attributes, expected.attributes);
    }
}

#[test]
fn context_owns_the_fixed_scene() {
    let ctx = fresh_context();
    assert_eq!(ctx.meshes.len(), 2);
    assert_eq!(ctx.meshes[0].vertex_count, 4);
    assert_eq!(
        ctx.meshes[0].indices.as_ref().expect("the quad is indexed"),
        &vec![0u16, 1, 2, 2, 3, 0]
    );
    assert_eq!(ctx.meshes[1].vertex_count, 3);
    assert!(ctx.meshes[1].indices.is_none());
    assert_eq!(ctx.materials.len(), 2);
    assert_eq!(
        ctx.draw_list,
        vec![DrawItem { mesh: 0, material: 0 }, DrawItem { mesh: 1, material: 1 }]
    );
    assert_eq!(ctx.material_layout.entries.len(), 2);
    assert_eq!(ctx.pipeline.pixel_format, ctx.config.format);
}

#[test]
fn load_from_missing_image_is_a_material_load_error() {
    let r = GraphicState::load(
        &caps_with_srgb(),
        800,
        600,
        "no-such-directory/quad.png",
        "no-such-directory/triangle.png",
    );
    match r {
        Ok(_) => panic!("loading from missing files must fail"),
        Err(e) => {
            assert_eq!(e.stage(), InitStage::MaterialLoad);
            assert!(!e.message().is_empty());
        }
    }
}
