use vstd::prelude::*;

verus! {

/// Binary format of one vertex attribute.
#[derive(Clone, Copy, Debug, PartialEq, Eq, Structural)]
pub enum VertexFormat {
    Float32x2,
    Float32x3,
}

/// Whether a vertex buffer advances per vertex or per instance.
#[derive(Clone, Copy, Debug, PartialEq, Eq, Structural)]
pub enum VertexStepMode {
    Vertex,
    Instance,
}

/// One attribute of a vertex buffer layout: its format, its byte offset
/// within a vertex, and the shader location it feeds.
#[derive(Clone, Copy, Debug, PartialEq, Eq, Structural)]
pub struct VertexAttributeDesc {
    pub format: VertexFormat,
    pub offset: u64,
    pub shader_location: u32,
}

/// The layout of one vertex buffer: stride, step mode and attribute list.
#[derive(Debug)]
pub struct VertexBufferLayoutDesc {
    pub array_stride: u64,
    pub step_mode: VertexStepMode,
    pub attributes: Vec<VertexAttributeDesc>,
}

/// Byte size of one vertex: three position floats then two
/// texture-coordinate floats, four bytes each.
pub const VERTEX_STRIDE: u64 = 20;

/// The position attribute: three floats at offset 0, shader location 0.
pub open spec fn position_attribute() -> VertexAttributeDesc {
    VertexAttributeDesc { format: VertexFormat::Float32x3, offset: 0, shader_location: 0 }
}

/// The texture-coordinate attribute: two floats at offset 12 (after the
/// position), shader location 1.
pub open spec fn tex_coord_attribute() -> VertexAttributeDesc {
    VertexAttributeDesc { format: VertexFormat::Float32x2, offset: 12, shader_location: 1 }
}

/// Whether a layout is exactly the renderer's vertex layout: position then
/// texture coordinate, tightly packed, stepped per vertex.
pub open spec fn is_vertex_layout(l: VertexBufferLayoutDesc) -> bool {
    &&& l.array_stride == VERTEX_STRIDE
    &&& l.step_mode == VertexStepMode::Vertex
    &&& l.attributes@ == seq![position_attribute(), tex_coord_attribute()]
}

/// Two layouts describe identical attribute order, formats and offsets.
pub open spec fn layout_eq(a: VertexBufferLayoutDesc, b: VertexBufferLayoutDesc) -> bool {
    &&& a.array_stride == b.array_stride
    &&& a.step_mode == b.step_mode
    &&& a.attributes@ == b.attributes@
}

/// The vertex buffer layout every mesh of this renderer uses and the
/// pipeline must be built with.
pub fn vertex_layout() -> (l: VertexBufferLayoutDesc)
    ensures
        is_vertex_layout(l),
{
    let mut attributes: Vec<VertexAttributeDesc> = Vec::new();
    attributes.push(
        VertexAttributeDesc { format: VertexFormat::Float32x3, offset: 0, shader_location: 0 },
    );
    attributes.push(
        VertexAttributeDesc { format: VertexFormat::Float32x2, offset: 12, shader_location: 1 },
    );
    proof {
        assert(attributes@ =~= seq![position_attribute(), tex_coord_attribute()]);
    }
    VertexBufferLayoutDesc {
        array_stride: VERTEX_STRIDE,
        step_mode: VertexStepMode::Vertex,
        attributes,
    }
}

} // verus!
