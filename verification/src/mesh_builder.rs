use vstd::prelude::*;
use crate::vertex::{is_vertex_layout, vertex_layout, VertexBufferLayoutDesc};

verus! {

/// One drawable shape: how many vertices its vertex buffer holds, the
/// 16-bit index list when it is drawn indexed, and the vertex layout its
/// buffer follows. The float vertex data itself lives with the host that
/// uploads the buffers.
#[derive(Debug)]
pub struct Mesh {
    pub vertex_count: u32,
    pub indices: Option<Vec<u16>>,
    pub layout: VertexBufferLayoutDesc,
}

impl Mesh {
    /// Counts fit the draw calls and the layout is the renderer's one.
    pub open spec fn wf(self) -> bool {
        &&& is_vertex_layout(self.layout)
        &&& match self.indices {
            Some(ix) => ix@.len() <= u32::MAX,
            None => true,
        }
    }
}

/// The index list of the quad: two counter-clockwise triangles over its
/// four corners.
pub open spec fn quad_indices() -> Seq<u16> {
    seq![0u16, 1u16, 2u16, 2u16, 3u16, 0u16]
}

/// A mesh is the triangle: three vertices, drawn without indices.
pub open spec fn mesh_is_triangle(m: Mesh) -> bool {
    &&& m.vertex_count == 3
    &&& m.indices is None
    &&& is_vertex_layout(m.layout)
}

/// A mesh is the quad: four vertices, six 16-bit indices.
pub open spec fn mesh_is_quad(m: Mesh) -> bool {
    &&& m.vertex_count == 4
    &&& match m.indices {
        Some(ix) => ix@ == quad_indices(),
        None => false,
    }
    &&& is_vertex_layout(m.layout)
}

/// The static triangle: three vertices, no index buffer.
pub fn make_triangle() -> (m: Mesh)
    ensures
        mesh_is_triangle(m),
        m.wf(),
{
    Mesh { vertex_count: 3, indices: None, layout: vertex_layout() }
}

/// The static quad: four vertices and six 16-bit indices forming two
/// triangles.
pub fn make_quad() -> (m: Mesh)
    ensures
        mesh_is_quad(m),
        m.wf(),
{
    let mut indices: Vec<u16> = Vec::new();
    indices.push(0);
    indices.push(1);
    indices.push(2);
    indices.push(2);
    indices.push(3);
    indices.push(0);
    proof {
        assert(indices@ =~= quad_indices());
    }
    Mesh { vertex_count: 4, indices: Some(indices), layout: vertex_layout() }
}

} // verus!
