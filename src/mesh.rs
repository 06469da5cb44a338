use vstd::prelude::*;
use crate::layout::{StepMode, VertexAttribute, VertexFormat, VertexLayout};

verus! {

/// A corner of the mesh, in half units: the position on the GPU is half of
/// each coordinate.
#[derive(Clone, Copy, Debug, PartialEq, Eq, Structural)]
pub struct Vertex {
    pub x: i32,
    pub y: i32,
    pub z: i32,
}

/// Contents of the vertex and index buffers of one static mesh.
#[derive(Debug)]
pub struct Mesh {
    pub vertices: Vec<Vertex>,
    pub indices: Vec<u32>,
}

/// The four corners of the unit quad centred on the origin, stored once each.
pub open spec fn quad_vertices() -> Seq<Vertex> {
    seq![
        Vertex { x: -1i32, y: -1i32, z: 0i32 },
        Vertex { x: 1i32, y: -1i32, z: 0i32 },
        Vertex { x: -1i32, y: 1i32, z: 0i32 },
        Vertex { x: 1i32, y: 1i32, z: 0i32 },
    ]
}

/// Two triangles over the quad's corners.
pub open spec fn quad_indices() -> Seq<u32> {
    seq![0u32, 1, 2, 2, 1, 3]
}

/// Twice the signed area of the triangle `a b c` seen from +z: positive when
/// its corners turn counter-clockwise.
pub open spec fn turn(a: Vertex, b: Vertex, c: Vertex) -> int {
    (b.x - a.x) * (c.y - a.y) - (b.y - a.y) * (c.x - a.x)
}

/// The index list describes whole triangles over existing vertices, each of
/// them counter-clockwise.
pub open spec fn ccw_triangles(vertices: Seq<Vertex>, indices: Seq<u32>) -> bool {
    &&& indices.len() % 3 == 0
    &&& forall|i: int| 0 <= i < indices.len() ==> indices[i] < vertices.len()
    &&& forall|t: int| 0 <= t < indices.len() / 3 ==> #[trigger] triangle_turn(vertices, indices, t) > 0
}

/// `turn` of the triangle number `t` of the index list.
pub open spec fn triangle_turn(vertices: Seq<Vertex>, indices: Seq<u32>, t: int) -> int {
    turn(
        vertices[indices[3 * t] as int],
        vertices[indices[3 * t + 1] as int],
        vertices[indices[3 * t + 2] as int],
    )
}

/// The attributes of an uploaded vertex: three 32-bit floats at shader
/// location 0.
pub open spec fn vertex_attributes() -> Seq<VertexAttribute> {
    seq![VertexAttribute { format: VertexFormat::Float32x3, offset: 0, shader_location: 0 }]
}

impl Vertex {
    /// Buffer layout of a vertex as uploaded: three 32-bit floats read at
    /// shader location 0, advancing per vertex.
    pub fn desc() -> (r: VertexLayout)
        ensures
            r.array_stride == 12,
            r.step_mode == StepMode::Vertex,
            r.attributes@ == vertex_attributes(),
            r.attributes_fit(),
    {
        let attributes = vec![
            VertexAttribute { format: VertexFormat::Float32x3, offset: 0, shader_location: 0 },
        ];
        let r = VertexLayout { array_stride: 12, step_mode: StepMode::Vertex, attributes };
        assert(r.attributes@ =~= vertex_attributes());
        r
    }
}

/// Builds the quad: four shared corners and the six indices of its two
/// triangles.
pub fn make_mesh() -> (r: Mesh)
    ensures
        r.vertices@ == quad_vertices(),
        r.indices@ == quad_indices(),
{
    let vertices = vec![
        Vertex { x: -1, y: -1, z: 0 },
        Vertex { x: 1, y: -1, z: 0 },
        Vertex { x: -1, y: 1, z: 0 },
        Vertex { x: 1, y: 1, z: 0 },
    ];
    let indices: Vec<u32> = vec![0, 1, 2, 2, 1, 3];
    let r = Mesh { vertices, indices };
    assert(r.vertices@ =~= quad_vertices());
    assert(r.indices@ =~= quad_indices());
    r
}

proof fn lemma_turn_of(a: Vertex, b: Vertex, c: Vertex, bx: int, dy: int, cx: int, cy: int)
    requires
        b.x - a.x == bx,
        b.y - a.y == dy,
        c.x - a.x == cx,
        c.y - a.y == cy,
    ensures
        turn(a, b, c) == bx * cy - dy * cx,
{
}

/// The quad stores four distinct vertices and six indices, all below four,
/// that form two counter-clockwise triangles.
pub proof fn lemma_quad_shape()
    ensures
        quad_vertices().len() == 4,
        forall|i: int, j: int|
            0 <= i < j < 4 ==> quad_vertices()[i] != quad_vertices()[j],
        quad_indices().len() == 6,
        forall|i: int| 0 <= i < 6 ==> quad_indices()[i] < 4,
        ccw_triangles(quad_vertices(), quad_indices()),
{
    let v = quad_vertices();
    let ix = quad_indices();
    assert(ix[0] == 0 && ix[1] == 1 && ix[2] == 2 && ix[3] == 2 && ix[4] == 1 && ix[5] == 3);
    assert(v[0] == Vertex { x: -1i32, y: -1i32, z: 0i32 });
    assert(v[1] == Vertex { x: 1i32, y: -1i32, z: 0i32 });
    assert(v[2] == Vertex { x: -1i32, y: 1i32, z: 0i32 });
    assert(v[3] == Vertex { x: 1i32, y: 1i32, z: 0i32 });
    lemma_turn_of(v[0], v[1], v[2], 2, 0, 0, 2);
    lemma_turn_of(v[2], v[1], v[3], 2, -2, 2, 0);
    assert(triangle_turn(v, ix, 0) == 4);
    assert(triangle_turn(v, ix, 1) == 4);
    assert forall|t: int| 0 <= t < ix.len() / 3 implies #[trigger] triangle_turn(v, ix, t) > 0 by {
        assert(t == 0 || t == 1);
    }
}

} // verus!
