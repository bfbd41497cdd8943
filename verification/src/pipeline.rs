use vstd::prelude::*;
use vstd::string::StringExecFns;
use crate::bind_group_layout::BindGroupLayoutDesc;
use crate::texture_format::TextureFormat;
use crate::vertex::VertexBufferLayoutDesc;

verus! {

/// How vertices are assembled into primitives.
#[derive(Clone, Copy, Debug, PartialEq, Eq, Structural)]
pub enum PrimitiveTopology {
    PointList,
    LineList,
    LineStrip,
    TriangleList,
    TriangleStrip,
}

/// Winding order that counts as front-facing.
#[derive(Clone, Copy, Debug, PartialEq, Eq, Structural)]
pub enum FrontFace {
    Ccw,
    Cw,
}

/// Which side of a primitive is culled.
#[derive(Clone, Copy, Debug, PartialEq, Eq, Structural)]
pub enum Face {
    Front,
    Back,
}

/// How primitives are rasterized.
#[derive(Clone, Copy, Debug, PartialEq, Eq, Structural)]
pub enum PolygonMode {
    Fill,
    Line,
    Point,
}

/// How a fragment's color is combined with the target.
#[derive(Clone, Copy, Debug, PartialEq, Eq, Structural)]
pub enum BlendState {
    Replace,
    AlphaBlending,
}

/// Everything the device needs to compile the render pipeline: the shader
/// reference, the accumulated layouts, the target format and the fixed
/// rasterizer state.
#[derive(Debug)]
pub struct PipelineDesc {
    pub label: String,
    pub shader_filename: String,
    pub vertex_entry: String,
    pub fragment_entry: String,
    pub pixel_format: TextureFormat,
    pub vertex_layouts: Vec<VertexBufferLayoutDesc>,
    pub bind_group_layouts: Vec<BindGroupLayoutDesc>,
    pub topology: PrimitiveTopology,
    pub front_face: FrontFace,
    pub cull_mode: Option<Face>,
    pub polygon_mode: PolygonMode,
    pub blend: BlendState,
    pub sample_count: u32,
}

/// The fixed-function state every pipeline of this renderer is built with:
/// triangle-list topology, counter-clockwise front face, back-face culling,
/// fill rasterization, replace blending, a single sample.
pub open spec fn pipeline_fixed_state(p: PipelineDesc) -> bool {
    &&& p.topology == PrimitiveTopology::TriangleList
    &&& p.front_face == FrontFace::Ccw
    &&& p.cull_mode == Some(Face::Back)
    &&& p.polygon_mode == PolygonMode::Fill
    &&& p.blend == BlendState::Replace
    &&& p.sample_count == 1
}

/// Accumulates vertex-buffer layouts, bind-group layouts, a target format
/// and a shader reference; `build_pipeline` consumes the accumulated
/// layouts (single-use per pipeline).
#[derive(Debug)]
pub struct Builder {
    pub shader_filename: String,
    pub vertex_entry: String,
    pub fragment_entry: String,
    pub pixel_format: TextureFormat,
    pub vertex_buffer_layouts: Vec<VertexBufferLayoutDesc>,
    pub bind_group_layouts: Vec<BindGroupLayoutDesc>,
}

impl Builder {
    /// A builder with no layouts accumulated, no shader set, and the
    /// renderer's default pixel format.
    pub fn new() -> (b: Builder)
        ensures
            b.shader_filename@.len() == 0,
            b.vertex_entry@.len() == 0,
            b.fragment_entry@.len() == 0,
            b.pixel_format == TextureFormat::Rgba8Unorm,
            b.vertex_buffer_layouts@.len() == 0,
            b.bind_group_layouts@.len() == 0,
    {
        Builder {
            shader_filename: String::new(),
            vertex_entry: String::new(),
            fragment_entry: String::new(),
            pixel_format: TextureFormat::Rgba8Unorm,
            vertex_buffer_layouts: Vec::new(),
            bind_group_layouts: Vec::new(),
        }
    }

    /// Drops the accumulated layouts; the shader reference and pixel format
    /// stay.
    pub fn reset(&mut self)
        ensures
            final(self).vertex_buffer_layouts@.len() == 0,
            final(self).bind_group_layouts@.len() == 0,
            final(self).shader_filename == old(self).shader_filename,
            final(self).vertex_entry == old(self).vertex_entry,
            final(self).fragment_entry == old(self).fragment_entry,
            final(self).pixel_format == old(self).pixel_format,
    {
        self.vertex_buffer_layouts.clear();
        self.bind_group_layouts.clear();
    }

    /// Appends one vertex-buffer layout the pipeline will expect.
    pub fn add_vertex_buffer_layout(&mut self, layout: VertexBufferLayoutDesc)
        ensures
            final(self).vertex_buffer_layouts@ == old(self).vertex_buffer_layouts@.push(layout),
            final(self).bind_group_layouts == old(self).bind_group_layouts,
            final(self).shader_filename == old(self).shader_filename,
            final(self).vertex_entry == old(self).vertex_entry,
            final(self).fragment_entry == old(self).fragment_entry,
            final(self).pixel_format == old(self).pixel_format,
    {
        self.vertex_buffer_layouts.push(layout);
    }

    /// Appends one bind-group layout the pipeline will expect.
    pub fn add_bind_group_layout(&mut self, layout: BindGroupLayoutDesc)
        ensures
            final(self).bind_group_layouts@ == old(self).bind_group_layouts@.push(layout),
            final(self).vertex_buffer_layouts == old(self).vertex_buffer_layouts,
            final(self).shader_filename == old(self).shader_filename,
            final(self).vertex_entry == old(self).vertex_entry,
            final(self).fragment_entry == old(self).fragment_entry,
            final(self).pixel_format == old(self).pixel_format,
    {
        self.bind_group_layouts.push(layout);
    }

    /// Sets the shader source file and its vertex and fragment entry
    /// points.
    pub fn set_shader_module(&mut self, shader_filename: &str, vertex_entry: &str, fragment_entry: &str)
        ensures
            final(self).shader_filename@ == shader_filename@,
            final(self).vertex_entry@ == vertex_entry@,
            final(self).fragment_entry@ == fragment_entry@,
            final(self).pixel_format == old(self).pixel_format,
            final(self).vertex_buffer_layouts == old(self).vertex_buffer_layouts,
            final(self).bind_group_layouts == old(self).bind_group_layouts,
    {
        self.shader_filename = String::from_str(shader_filename);
        self.vertex_entry = String::from_str(vertex_entry);
        self.fragment_entry = String::from_str(fragment_entry);
    }

    /// Sets the color target's pixel format.
    pub fn set_pixel_format(&mut self, pixel_format: TextureFormat)
        ensures
            final(self).pixel_format == pixel_format,
            final(self).shader_filename == old(self).shader_filename,
            final(self).vertex_entry == old(self).vertex_entry,
            final(self).fragment_entry == old(self).fragment_entry,
            final(self).vertex_buffer_layouts == old(self).vertex_buffer_layouts,
            final(self).bind_group_layouts == old(self).bind_group_layouts,
    {
        self.pixel_format = pixel_format;
    }

    /// Produces the pipeline description under a label: the accumulated
    /// layouts, the shader reference, the target format, and the fixed
    /// rasterizer state. The accumulated layouts move into the result and
    /// the builder is reset.
    pub fn build_pipeline(&mut self, label: &str) -> (p: PipelineDesc)
        ensures
            p.label@ == label@,
            p.shader_filename@ == old(self).shader_filename@,
            p.vertex_entry@ == old(self).vertex_entry@,
            p.fragment_entry@ == old(self).fragment_entry@,
            p.pixel_format == old(self).pixel_format,
            p.vertex_layouts == old(self).vertex_buffer_layouts,
            p.bind_group_layouts == old(self).bind_group_layouts,
            pipeline_fixed_state(p),
            final(self).vertex_buffer_layouts@.len() == 0,
            final(self).bind_group_layouts@.len() == 0,
            final(self).shader_filename == old(self).shader_filename,
            final(self).vertex_entry == old(self).vertex_entry,
            final(self).fragment_entry == old(self).fragment_entry,
            final(self).pixel_format == old(self).pixel_format,
    {
        let mut vertex_layouts: Vec<VertexBufferLayoutDesc> = Vec::new();
        core::mem::swap(&mut vertex_layouts, &mut self.vertex_buffer_layouts);
        let mut bind_group_layouts: Vec<BindGroupLayoutDesc> = Vec::new();
        core::mem::swap(&mut bind_group_layouts, &mut self.bind_group_layouts);
        PipelineDesc {
            label: String::from_str(label),
            shader_filename: self.shader_filename.clone(),
            vertex_entry: self.vertex_entry.clone(),
            fragment_entry: self.fragment_entry.clone(),
            pixel_format: self.pixel_format,
            vertex_layouts,
            bind_group_layouts,
            topology: PrimitiveTopology::TriangleList,
            front_face: FrontFace::Ccw,
            cull_mode: Some(Face::Back),
            polygon_mode: PolygonMode::Fill,
            blend: BlendState::Replace,
            sample_count: 1,
        }
    }
}

} // verus!
