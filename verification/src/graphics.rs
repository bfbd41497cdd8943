use vstd::prelude::*;
use crate::bind_group_layout::{self, bgl_eq, copy_bgl, material_slots, BindGroupLayoutDesc};
use crate::materials::{ImageData, Material};
use crate::mesh_builder::{make_quad, make_triangle, mesh_is_quad, mesh_is_triangle, Mesh};
use crate::pipeline::{self, pipeline_fixed_state, PipelineDesc};
use crate::texture::TextureUsages;
use crate::texture_format::{chosen_format, choose_format, TextureFormat};
use crate::vertex::{is_vertex_layout, layout_eq, vertex_layout};

verus! {

/// How presentation of finished frames is scheduled.
#[derive(Clone, Copy, Debug, PartialEq, Eq, Structural)]
pub enum PresentMode {
    AutoVsync,
    AutoNoVsync,
    Fifo,
    FifoRelaxed,
    Immediate,
    Mailbox,
}

/// How the surface's alpha channel is composited with the window.
#[derive(Clone, Copy, Debug, PartialEq, Eq, Structural)]
pub enum AlphaMode {
    Auto,
    Opaque,
    PreMultiplied,
    PostMultiplied,
    Inherit,
}

/// What the platform reports the surface supports, in the platform's
/// preference order. Each list is non-empty for a compatible surface.
#[derive(Debug)]
pub struct SurfaceCaps {
    pub formats: Vec<TextureFormat>,
    pub present_modes: Vec<PresentMode>,
    pub alpha_modes: Vec<AlphaMode>,
}

/// The surface configuration: chosen format, current pixel size, and the
/// fixed presentation parameters.
#[derive(Clone, Copy, Debug, PartialEq, Eq, Structural)]
pub struct SurfaceConfig {
    pub usage: TextureUsages,
    pub format: TextureFormat,
    pub width: u32,
    pub height: u32,
    pub present_mode: PresentMode,
    pub alpha_mode: AlphaMode,
    pub desired_maximum_frame_latency: u32,
}

/// The configuration a fresh context builds: render-attachment usage, the
/// chosen format, the window's pixel size, the first offered present and
/// alpha modes, and a frame latency of two.
pub open spec fn spec_surface_config(
    formats: Seq<TextureFormat>,
    present_modes: Seq<PresentMode>,
    alpha_modes: Seq<AlphaMode>,
    width: u32,
    height: u32,
) -> SurfaceConfig {
    SurfaceConfig {
        usage: TextureUsages { texture_binding: false, copy_dst: false, render_attachment: true },
        format: chosen_format(formats),
        width,
        height,
        present_mode: present_modes[0],
        alpha_mode: alpha_modes[0],
        desired_maximum_frame_latency: 2,
    }
}

/// One entry of the draw list: which mesh is drawn with which material.
#[derive(Clone, Copy, Debug, PartialEq, Eq, Structural)]
pub struct DrawItem {
    pub mesh: usize,
    pub material: usize,
}

/// The clear color of the render pass, as 8-bit channels: opaque blue.
#[derive(Clone, Copy, Debug, PartialEq, Eq, Structural)]
pub struct ClearColor {
    pub r: u8,
    pub g: u8,
    pub b: u8,
    pub a: u8,
}

pub open spec fn clear_color() -> ClearColor {
    ClearColor { r: 0, g: 0, b: 255, a: 255 }
}

/// One step of the per-frame command-recording protocol. Mesh and material
/// fields index the context's own lists.
#[derive(Clone, Copy, Debug, PartialEq, Eq, Structural)]
pub enum RenderCommand {
    BeginRenderPass { clear: ClearColor },
    BindPipeline,
    BindGroup { group: u32, material: usize },
    BindVertexBuffer { slot: u32, mesh: usize },
    BindIndexBuffer { mesh: usize },
    DrawIndexed { index_count: u32 },
    Draw { vertex_count: u32 },
    EndRenderPass,
    Submit,
    Present,
}

/// The commands recorded for one draw-list entry: bind the material's bind
/// group, bind the mesh's vertex buffer, then either bind the index buffer
/// and draw its full index count, or draw the mesh's full vertex count.
pub open spec fn item_commands(meshes: Seq<Mesh>, it: DrawItem) -> Seq<RenderCommand> {
    let m = meshes[it.mesh as int];
    match m.indices {
        Some(ix) => seq![
            RenderCommand::BindGroup { group: 0, material: it.material },
            RenderCommand::BindVertexBuffer { slot: 0, mesh: it.mesh },
            RenderCommand::BindIndexBuffer { mesh: it.mesh },
            RenderCommand::DrawIndexed { index_count: ix@.len() as u32 },
        ],
        None => seq![
            RenderCommand::BindGroup { group: 0, material: it.material },
            RenderCommand::BindVertexBuffer { slot: 0, mesh: it.mesh },
            RenderCommand::Draw { vertex_count: m.vertex_count },
        ],
    }
}

/// The commands recorded for a draw list, in list order.
pub open spec fn items_commands(meshes: Seq<Mesh>, items: Seq<DrawItem>) -> Seq<RenderCommand>
    decreases items.len(),
{
    if items.len() == 0 {
        Seq::empty()
    } else {
        items_commands(meshes, items.drop_last()) + item_commands(meshes, items.last())
    }
}

/// The draw call one draw-list entry issues.
pub open spec fn draw_of(meshes: Seq<Mesh>, it: DrawItem) -> RenderCommand {
    match meshes[it.mesh as int].indices {
        Some(ix) => RenderCommand::DrawIndexed { index_count: ix@.len() as u32 },
        None => RenderCommand::Draw { vertex_count: meshes[it.mesh as int].vertex_count },
    }
}

/// The draw calls a draw list issues, in list order.
pub open spec fn expected_draws(meshes: Seq<Mesh>, items: Seq<DrawItem>) -> Seq<RenderCommand>
    decreases items.len(),
{
    if items.len() == 0 {
        Seq::empty()
    } else {
        expected_draws(meshes, items.drop_last()) + seq![draw_of(meshes, items.last())]
    }
}

pub open spec fn is_draw(c: RenderCommand) -> bool {
    c is DrawIndexed || c is Draw
}

/// The subsequence of draw calls within a command sequence.
pub open spec fn draws_of(s: Seq<RenderCommand>) -> Seq<RenderCommand>
    decreases s.len(),
{
    if s.len() == 0 {
        Seq::empty()
    } else if is_draw(s.last()) {
        draws_of(s.drop_last()) + seq![s.last()]
    } else {
        draws_of(s.drop_last())
    }
}

/// How many pipeline binds a command sequence holds.
pub open spec fn num_pipeline_binds(s: Seq<RenderCommand>) -> nat
    decreases s.len(),
{
    if s.len() == 0 {
        0
    } else {
        num_pipeline_binds(s.drop_last()) + if s.last() is BindPipeline {
            1nat
        } else {
            0nat
        }
    }
}

/// How many submissions a command sequence holds.
pub open spec fn num_submits(s: Seq<RenderCommand>) -> nat
    decreases s.len(),
{
    if s.len() == 0 {
        0
    } else {
        num_submits(s.drop_last()) + if s.last() is Submit {
            1nat
        } else {
            0nat
        }
    }
}

/// How many presentations a command sequence holds.
pub open spec fn num_presents(s: Seq<RenderCommand>) -> nat
    decreases s.len(),
{
    if s.len() == 0 {
        0
    } else {
        num_presents(s.drop_last()) + if s.last() is Present {
            1nat
        } else {
            0nat
        }
    }
}

/// The whole frame protocol: begin one pass with the fixed clear color,
/// bind the pipeline once, record each draw-list entry in order, end the
/// pass, submit the one command buffer, present the acquired texture.
pub open spec fn frame_plan(g: GraphicState) -> Seq<RenderCommand> {
    seq![
        RenderCommand::BeginRenderPass { clear: clear_color() },
        RenderCommand::BindPipeline,
    ] + items_commands(g.meshes@, g.draw_list@) + seq![
        RenderCommand::EndRenderPass,
        RenderCommand::Submit,
        RenderCommand::Present,
    ]
}

/// The initialization step a fatal error occurred in.
#[derive(Clone, Copy, Debug, PartialEq, Eq, Structural)]
pub enum InitStage {
    AdapterRequest,
    DeviceRequest,
    SurfaceCreate,
    SurfaceConfigure,
    ShaderCompile,
    MaterialLoad,
}

/// A fatal initialization failure: the step that failed and a
/// human-readable context message. Initialization is aborted; nothing is
/// rendered without a valid context.
#[derive(Debug)]
pub struct InitError {
    pub stage: InitStage,
    pub message: String,
}

impl InitError {
    /// The step that failed.
    pub fn stage(&self) -> (s: InitStage)
        ensures
            s == self.stage,
    {
        self.stage
    }

    /// The human-readable context of the failure.
    pub fn message(&self) -> (r: &String)
        ensures
            r@ == self.message@,
    {
        &self.message
    }
}

/// The top-level rendering state: the surface configuration and window
/// size, the shared material bind-group layout, the one pipeline, and the
/// meshes, materials and draw list rendered each frame.
#[derive(Debug)]
pub struct GraphicState {
    pub config: SurfaceConfig,
    pub width: u32,
    pub height: u32,
    pub material_layout: BindGroupLayoutDesc,
    pub pipeline: PipelineDesc,
    pub meshes: Vec<Mesh>,
    pub materials: Vec<Material>,
    pub draw_list: Vec<DrawItem>,
}

impl GraphicState {
    /// The context's invariant: a positive surface size kept equal to the
    /// stored window size; a draw list indexing only owned meshes and
    /// materials; well-formed meshes and materials, every material's bind
    /// group against the shared one-material layout; and the one pipeline,
    /// in the fixed rasterizer state, targeting the surface format, built
    /// with the renderer's vertex layout and the shared layout.
    pub open spec fn wf(self) -> bool {
        &&& self.width > 0
        &&& self.height > 0
        &&& self.config.width == self.width
        &&& self.config.height == self.height
        &&& forall|i: int|
            0 <= i < self.draw_list@.len() ==> (#[trigger] self.draw_list@[i]).mesh
                < self.meshes@.len() && self.draw_list@[i].material < self.materials@.len()
        &&& forall|i: int| 0 <= i < self.meshes@.len() ==> (#[trigger] self.meshes@[i]).wf()
        &&& forall|i: int|
            0 <= i < self.materials@.len() ==> (#[trigger] self.materials@[i]).wf() && bgl_eq(
                self.materials@[i].bind_group.layout,
                self.material_layout,
            )
        &&& self.material_layout.entries@ == material_slots(1)
        &&& pipeline_fixed_state(self.pipeline)
        &&& self.pipeline.pixel_format == self.config.format
        &&& self.pipeline.vertex_layouts@.len() == 1
        &&& is_vertex_layout(self.pipeline.vertex_layouts@[0])
        &&& self.pipeline.bind_group_layouts@.len() == 1
        &&& bgl_eq(self.pipeline.bind_group_layouts@[0], self.material_layout)
    }

    /// Builds the whole rendering state from what the platform reports and
    /// the two decoded material images: chooses the surface format
    /// (preferring sRGB), configures the surface to the window size, builds
    /// the shared one-material bind-group layout, the quad and triangle
    /// meshes, one material per image, the pipeline, and the fixed draw
    /// list: the quad with the first material, then the triangle with the
    /// second.
    pub fn new(
        caps: &SurfaceCaps,
        width: u32,
        height: u32,
        quad_image: ImageData,
        triangle_image: ImageData,
    ) -> (g: GraphicState)
        requires
            caps.formats@.len() > 0,
            caps.present_modes@.len() > 0,
            caps.alpha_modes@.len() > 0,
            width > 0,
            height > 0,
            quad_image.wf(),
            triangle_image.wf(),
        ensures
            g.wf(),
            g.config == spec_surface_config(
                caps.formats@,
                caps.present_modes@,
                caps.alpha_modes@,
                width,
                height,
            ),
            g.width == width,
            g.height == height,
            g.meshes@.len() == 2,
            mesh_is_quad(g.meshes@[0]),
            mesh_is_triangle(g.meshes@[1]),
            g.materials@.len() == 2,
            g.materials@[0].image == quad_image,
            g.materials@[0].label@ == "quad material"@,
            g.materials@[1].image == triangle_image,
            g.materials@[1].label@ == "triangle material"@,
            g.draw_list@ == seq![
                DrawItem { mesh: 0, material: 0 },
                DrawItem { mesh: 1, material: 1 },
            ],
            g.pipeline.shader_filename@ == "shader.wgsl"@,
            g.pipeline.vertex_entry@ == "vs_main"@,
            g.pipeline.fragment_entry@ == "fs_main"@,
    {
        let format = choose_format(&caps.formats);
        let config = SurfaceConfig {
            usage: TextureUsages {
                texture_binding: false,
                copy_dst: false,
                render_attachment: true,
            },
            format,
            width,
            height,
            present_mode: caps.present_modes[0],
            alpha_mode: caps.alpha_modes[0],
            desired_maximum_frame_latency: 2,
        };

        let quad = make_quad();
        let triangle = make_triangle();

        let mut layout_builder = bind_group_layout::Builder::new();
        proof {
            assert(material_slots(0).len() == 0);
        }
        layout_builder.add_material();
        let material_layout = layout_builder.build("Material bind group layout");

        let mut pipeline_builder = pipeline::Builder::new();
        pipeline_builder.add_vertex_buffer_layout(vertex_layout());
        pipeline_builder.set_shader_module("shader.wgsl", "vs_main", "fs_main");
        pipeline_builder.set_pixel_format(config.format);
        pipeline_builder.add_bind_group_layout(copy_bgl(&material_layout));
        let render_pipeline = pipeline_builder.build_pipeline("Render pipeline");

        let quad_material = Material::from_rgba("quad material", quad_image, &material_layout);
        let triangle_material = Material::from_rgba(
            "triangle material",
            triangle_image,
            &material_layout,
        );

        let mut meshes: Vec<Mesh> = Vec::new();
        meshes.push(quad);
        meshes.push(triangle);
        let mut materials: Vec<Material> = Vec::new();
        materials.push(quad_material);
        materials.push(triangle_material);
        let mut draw_list: Vec<DrawItem> = Vec::new();
        draw_list.push(DrawItem { mesh: 0, material: 0 });
        draw_list.push(DrawItem { mesh: 1, material: 1 });
        proof {
            assert(draw_list@ =~= seq![
                DrawItem { mesh: 0, material: 0 },
                DrawItem { mesh: 1, material: 1 },
            ]);
        }

        GraphicState {
            config,
            width,
            height,
            material_layout,
            pipeline: render_pipeline,
            meshes,
            materials,
            draw_list,
        }
    }

    /// Builds the rendering state with the two material images read from
    /// disk. Fails with a material-load error, naming the file, when either
    /// image is missing or cannot be decoded; no state is constructed then.
    pub fn load(
        caps: &SurfaceCaps,
        width: u32,
        height: u32,
        quad_image_path: &str,
        triangle_image_path: &str,
    ) -> (r: Result<GraphicState, InitError>)
        requires
            caps.formats@.len() > 0,
            caps.present_modes@.len() > 0,
            caps.alpha_modes@.len() > 0,
            width > 0,
            height > 0,
        ensures
            r matches Ok(g) ==> g.wf() && g.config == spec_surface_config(
                caps.formats@,
                caps.present_modes@,
                caps.alpha_modes@,
                width,
                height,
            ) && g.meshes@.len() == 2 && mesh_is_quad(g.meshes@[0]) && mesh_is_triangle(
                g.meshes@[1],
            ) && g.materials@.len() == 2 && g.draw_list@ == seq![
                DrawItem { mesh: 0, material: 0 },
                DrawItem { mesh: 1, material: 1 },
            ],
            r matches Err(e) ==> e.stage == InitStage::MaterialLoad,
    {
        let quad_image = match ImageData::load(quad_image_path) {
            Ok(img) => img,
            Err(e) => {
                return Err(InitError { stage: InitStage::MaterialLoad, message: e.message });
            },
        };
        let triangle_image = match ImageData::load(triangle_image_path) {
            Ok(img) => img,
            Err(e) => {
                return Err(InitError { stage: InitStage::MaterialLoad, message: e.message });
            },
        };
        Ok(GraphicState::new(caps, width, height, quad_image, triangle_image))
    }

    /// The state after a resize is applied: the stored size and the
    /// configuration's size are the new one; everything else is unchanged.
    pub open spec fn spec_resize(self, width: u32, height: u32) -> GraphicState {
        GraphicState {
            width,
            height,
            config: SurfaceConfig { width, height, ..self.config },
            ..self
        }
    }

    /// Applies a window resize: with both dimensions strictly positive,
    /// updates the stored size and the surface configuration and reports
    /// that the surface must be reconfigured; with a zero dimension the
    /// whole state is left unchanged.
    pub fn resize(&mut self, width: u32, height: u32) -> (applied: bool)
        ensures
            applied == (width > 0 && height > 0),
            applied ==> *final(self) == old(self).spec_resize(width, height),
            !applied ==> *final(self) == *old(self),
            old(self).wf() ==> final(self).wf(),
    {
        if width > 0 && height > 0 {
            self.width = width;
            self.height = height;
            self.config.width = width;
            self.config.height = height;
            true
        } else {
            false
        }
    }

    /// Records one frame: the full command sequence of the frame protocol,
    /// in order. Total for every well-formed state: recording cannot fail.
    pub fn render(&self) -> (cmds: Vec<RenderCommand>)
        requires
            self.wf(),
        ensures
            cmds@ == frame_plan(*self),
    {
        let mut cmds: Vec<RenderCommand> = Vec::new();
        cmds.push(RenderCommand::BeginRenderPass { clear: ClearColor { r: 0, g: 0, b: 255, a: 255 } });
        cmds.push(RenderCommand::BindPipeline);
        let ghost prefix = seq![
            RenderCommand::BeginRenderPass { clear: clear_color() },
            RenderCommand::BindPipeline,
        ];
        proof {
            assert(cmds@ =~= prefix + items_commands(self.meshes@, self.draw_list@.subrange(0, 0)));
        }
        let n = self.draw_list.len();
        let mut i: usize = 0;
        while i < n
            invariant
                i <= n,
                n == self.draw_list@.len(),
                self.wf(),
                cmds@ == prefix + items_commands(
                    self.meshes@,
                    self.draw_list@.subrange(0, i as int),
                ),
            decreases n - i,
        {
            let it = self.draw_list[i];
            let m = &self.meshes[it.mesh];
            cmds.push(RenderCommand::BindGroup { group: 0, material: it.material });
            cmds.push(RenderCommand::BindVertexBuffer { slot: 0, mesh: it.mesh });
            match &m.indices {
                Some(ix) => {
                    cmds.push(RenderCommand::BindIndexBuffer { mesh: it.mesh });
                    cmds.push(RenderCommand::DrawIndexed { index_count: ix.len() as u32 });
                },
                None => {
                    cmds.push(RenderCommand::Draw { vertex_count: m.vertex_count });
                },
            }
            proof {
                let items = self.draw_list@;
                let taken = items.subrange(0, i + 1);
                assert(taken.drop_last() =~= items.subrange(0, i as int));
                assert(taken.last() == items[i as int]);
                assert(cmds@ =~= prefix + items_commands(self.meshes@, taken));
            }
            i += 1;
        }
        proof {
            assert(self.draw_list@.subrange(0, n as int) =~= self.draw_list@);
        }
        cmds.push(RenderCommand::EndRenderPass);
        cmds.push(RenderCommand::Submit);
        cmds.push(RenderCommand::Present);
        proof {
            assert(cmds@ =~= frame_plan(*self));
        }
        cmds
    }
}

/// The draw subsequence and the protocol counters distribute over
/// concatenation.
proof fn lemma_commands_concat(a: Seq<RenderCommand>, b: Seq<RenderCommand>)
    ensures
        draws_of(a + b) == draws_of(a) + draws_of(b),
        num_pipeline_binds(a + b) == num_pipeline_binds(a) + num_pipeline_binds(b),
        num_submits(a + b) == num_submits(a) + num_submits(b),
        num_presents(a + b) == num_presents(a) + num_presents(b),
    decreases b.len(),
{
    if b.len() == 0 {
        assert(a + b =~= a);
        assert(draws_of(a) + draws_of(b) =~= draws_of(a));
    } else {
        lemma_commands_concat(a, b.drop_last());
        assert((a + b).drop_last() =~= a + b.drop_last());
        assert((a + b).last() == b.last());
        if is_draw(b.last()) {
            assert(draws_of(a) + draws_of(b.drop_last()) + seq![b.last()] =~= draws_of(a) + (
            draws_of(b.drop_last()) + seq![b.last()]));
        }
    }
}

/// The commands of one draw-list entry hold exactly its one draw call and
/// no pipeline bind, submission or presentation.
proof fn lemma_item_commands_shape(meshes: Seq<Mesh>, it: DrawItem)
    ensures
        draws_of(item_commands(meshes, it)) == seq![draw_of(meshes, it)],
        num_pipeline_binds(item_commands(meshes, it)) == 0,
        num_submits(item_commands(meshes, it)) == 0,
        num_presents(item_commands(meshes, it)) == 0,
{
    reveal_with_fuel(draws_of, 6);
    reveal_with_fuel(num_pipeline_binds, 6);
    reveal_with_fuel(num_submits, 6);
    reveal_with_fuel(num_presents, 6);
    let s = item_commands(meshes, it);
    match meshes[it.mesh as int].indices {
        Some(ix) => {
            assert(s.drop_last() =~= seq![
                RenderCommand::BindGroup { group: 0, material: it.material },
                RenderCommand::BindVertexBuffer { slot: 0, mesh: it.mesh },
                RenderCommand::BindIndexBuffer { mesh: it.mesh },
            ]);
            assert(s.drop_last().drop_last() =~= seq![
                RenderCommand::BindGroup { group: 0, material: it.material },
                RenderCommand::BindVertexBuffer { slot: 0, mesh: it.mesh },
            ]);
            assert(s.drop_last().drop_last().drop_last() =~= seq![
                RenderCommand::BindGroup { group: 0, material: it.material },
            ]);
            assert(s.drop_last().drop_last().drop_last().drop_last() =~= Seq::<
                RenderCommand,
            >::empty());
            assert(draws_of(s) =~= seq![draw_of(meshes, it)]);
        },
        None => {
            assert(s.drop_last() =~= seq![
                RenderCommand::BindGroup { group: 0, material: it.material },
                RenderCommand::BindVertexBuffer { slot: 0, mesh: it.mesh },
            ]);
            assert(s.drop_last().drop_last() =~= seq![
                RenderCommand::BindGroup { group: 0, material: it.material },
            ]);
            assert(s.drop_last().drop_last().drop_last() =~= Seq::<RenderCommand>::empty());
            assert(draws_of(s) =~= seq![draw_of(meshes, it)]);
        },
    }
}

/// The commands of a whole draw list hold exactly its draw calls, in list
/// order, and no pipeline bind, submission or presentation.
proof fn lemma_items_commands_shape(meshes: Seq<Mesh>, items: Seq<DrawItem>)
    ensures
        draws_of(items_commands(meshes, items)) == expected_draws(meshes, items),
        num_pipeline_binds(items_commands(meshes, items)) == 0,
        num_submits(items_commands(meshes, items)) == 0,
        num_presents(items_commands(meshes, items)) == 0,
    decreases items.len(),
{
    if items.len() == 0 {
    } else {
        lemma_items_commands_shape(meshes, items.drop_last());
        lemma_commands_concat(
            items_commands(meshes, items.drop_last()),
            item_commands(meshes, items.last()),
        );
        lemma_item_commands_shape(meshes, items.last());
    }
}

/// A draw list of `n` entries issues exactly `n` draw calls, the `k`-th
/// being the draw call of the `k`-th entry.
pub proof fn lemma_expected_draws_index(meshes: Seq<Mesh>, items: Seq<DrawItem>)
    ensures
        expected_draws(meshes, items).len() == items.len(),
        forall|k: int|
            0 <= k < items.len() ==> expected_draws(meshes, items)[k] == draw_of(
                meshes,
                #[trigger] items[k],
            ),
    decreases items.len(),
{
    if items.len() > 0 {
        lemma_expected_draws_index(meshes, items.drop_last());
        assert forall|k: int|
            0 <= k < items.len() implies expected_draws(meshes, items)[k] == draw_of(
            meshes,
            #[trigger] items[k],
        ) by {
            if k < items.len() - 1 {
                assert(items.drop_last()[k] == items[k]);
                assert(expected_draws(meshes, items.drop_last())[k] == draw_of(
                    meshes,
                    items.drop_last()[k],
                ));
            } else {
                assert(expected_draws(meshes, items)[k] == draw_of(meshes, items.last()));
            }
        }
    }
}

/// The frame protocol: a frame's plan begins the one render pass with the
/// fixed clear color and binds the pipeline exactly once, before every draw
/// call; it issues exactly one draw call per draw-list entry, in the list's
/// order, the entry's indexed or non-indexed draw with its full count; and
/// it ends with exactly one submission followed by exactly one
/// presentation.
pub proof fn lemma_frame_protocol(g: GraphicState)
    ensures
        frame_plan(g).len() >= 5,
        frame_plan(g)[0] == (RenderCommand::BeginRenderPass { clear: clear_color() }),
        frame_plan(g)[1] == RenderCommand::BindPipeline,
        num_pipeline_binds(frame_plan(g)) == 1,
        num_submits(frame_plan(g)) == 1,
        num_presents(frame_plan(g)) == 1,
        draws_of(frame_plan(g)) == expected_draws(g.meshes@, g.draw_list@),
        expected_draws(g.meshes@, g.draw_list@).len() == g.draw_list@.len(),
        forall|k: int|
            0 <= k < g.draw_list@.len() ==> expected_draws(g.meshes@, g.draw_list@)[k] == draw_of(
                g.meshes@,
                #[trigger] g.draw_list@[k],
            ),
        frame_plan(g)[frame_plan(g).len() - 2] == RenderCommand::Submit,
        frame_plan(g)[frame_plan(g).len() - 1] == RenderCommand::Present,
{
    reveal_with_fuel(draws_of, 5);
    reveal_with_fuel(num_pipeline_binds, 5);
    reveal_with_fuel(num_submits, 5);
    reveal_with_fuel(num_presents, 5);
    let open_cmds = seq![
        RenderCommand::BeginRenderPass { clear: clear_color() },
        RenderCommand::BindPipeline,
    ];
    let close_cmds = seq![RenderCommand::EndRenderPass, RenderCommand::Submit, RenderCommand::Present];
    let mid = items_commands(g.meshes@, g.draw_list@);
    lemma_items_commands_shape(g.meshes@, g.draw_list@);
    lemma_expected_draws_index(g.meshes@, g.draw_list@);
    lemma_commands_concat(open_cmds, mid);
    lemma_commands_concat(open_cmds + mid, close_cmds);
    assert(open_cmds.drop_last() =~= seq![
        RenderCommand::BeginRenderPass { clear: clear_color() },
    ]);
    assert(open_cmds.drop_last().drop_last() =~= Seq::<RenderCommand>::empty());
    assert(close_cmds.drop_last() =~= seq![RenderCommand::EndRenderPass, RenderCommand::Submit]);
    assert(close_cmds.drop_last().drop_last() =~= seq![RenderCommand::EndRenderPass]);
    assert(close_cmds.drop_last().drop_last().drop_last() =~= Seq::<RenderCommand>::empty());
    assert(draws_of(open_cmds) =~= Seq::<RenderCommand>::empty());
    assert(draws_of(close_cmds) =~= Seq::<RenderCommand>::empty());
    assert(draws_of(frame_plan(g)) =~= expected_draws(g.meshes@, g.draw_list@));
}

/// For every positive size, a resize leaves a well-formed state whose
/// configuration carries exactly the new width and height, and recording
/// the next frame cannot fail and records the same command sequence as
/// before the resize.
pub proof fn lemma_resize_then_render(g: GraphicState, width: u32, height: u32)
    requires
        g.wf(),
        width > 0,
        height > 0,
    ensures
        g.spec_resize(width, height).wf(),
        g.spec_resize(width, height).config.width == width,
        g.spec_resize(width, height).config.height == height,
        frame_plan(g.spec_resize(width, height)) == frame_plan(g),
{
}

/// Round trip of the vertex layout: the layout every mesh declares and the
/// one attribute layout the pipeline was compiled with describe identical
/// attribute order, formats and offsets.
pub proof fn lemma_vertex_layout_round_trip(g: GraphicState)
    requires
        g.wf(),
    ensures
        g.pipeline.vertex_layouts@.len() == 1,
        is_vertex_layout(g.pipeline.vertex_layouts@[0]),
        forall|i: int|
            0 <= i < g.meshes@.len() ==> layout_eq(
                (#[trigger] g.meshes@[i]).layout,
                g.pipeline.vertex_layouts@[0],
            ),
{
}

} // verus!
