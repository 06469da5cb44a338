use vstd::prelude::*;
use crate::layout::{StepMode, VertexAttribute, VertexFormat, VertexLayout};

verus! {

/// One drawn copy of the mesh: its position along the x axis, counted in
/// spacing units, and its rotation about the z axis in degrees.
#[derive(Clone, Copy, Debug, PartialEq, Eq, Structural)]
pub struct Instance {
    pub x: i64,
    pub angle_degrees: u32,
}

/// Rotation step between neighbouring instances, in degrees.
pub const ANGLE_STEP: u32 = 30;

/// The instance at index `i` of `count` laid out `spacing` apart: the row is
/// centred on the origin, two spacings between neighbours.
pub open spec fn placed(count: int, spacing: int, i: int) -> Instance {
    Instance {
        x: (spacing * (2 * i - (count - 1))) as i64,
        angle_degrees: (ANGLE_STEP * i) as u32,
    }
}

/// Lays out `count` instances along the x axis, the first at
/// `-spacing * (count - 1)`, each next one `2 * spacing` further, instance
/// `i` turned by `30 * i` degrees.
pub fn layout_instances(count: u16, spacing: i32) -> (r: Vec<Instance>)
    ensures
        r@.len() == count,
        forall|i: int| 0 <= i < count ==> r@[i] == placed(count as int, spacing as int, i),
{
    let mut r: Vec<Instance> = Vec::new();
    let mut i: u16 = 0;
    while i < count
        invariant
            i <= count,
            r@.len() == i,
            forall|j: int| 0 <= j < i ==> r@[j] == placed(count as int, spacing as int, j),
        decreases count - i,
    {
        let steps: i64 = 2 * (i as i64) - (count as i64 - 1);
        assert(-65536 <= steps <= 65536);
        assert(-0x8000_0000 * 65536 <= (spacing as i64) * steps <= 0x8000_0000 * 65536)
            by (nonlinear_arith)
            requires
                -65536 <= steps <= 65536,
                -0x8000_0000 <= spacing < 0x8000_0000,
        ;
        let x: i64 = (spacing as i64) * steps;
        let angle_degrees: u32 = ANGLE_STEP * (i as u32);
        r.push(Instance { x, angle_degrees });
        i = i + 1;
    }
    r
}

/// The first instance sits at `-spacing * (count - 1)`, each next one
/// `2 * spacing` further along x, and instance `i` is turned by `30 * i`
/// degrees about the same axis.
pub proof fn lemma_instance_row(count: u16, spacing: i32)
    requires
        count > 0,
    ensures
        placed(count as int, spacing as int, 0).x == -(spacing as int) * (count - 1),
        forall|i: int|
            0 <= i < count - 1 ==> placed(count as int, spacing as int, i + 1).x
                - #[trigger] placed(count as int, spacing as int, i).x == 2 * spacing,
        forall|i: int|
            0 <= i < count ==> placed(count as int, spacing as int, i).angle_degrees == 30 * i,
{
    let n = count as int;
    let s = spacing as int;
    assert(s * (2 * 0 - (n - 1)) == -s * (n - 1)) by (nonlinear_arith);
    assert(-0x8000_0000 * 65536 <= s * (2 * 0 - (n - 1)) <= 0x8000_0000 * 65536)
        by (nonlinear_arith)
        requires
            1 <= n <= 65535,
            -0x8000_0000 <= s < 0x8000_0000,
    ;
    assert forall|i: int| 0 <= i < n - 1 implies placed(n, s, i + 1).x - #[trigger] placed(n, s, i).x == 2
        * s by {
        assert(-0x8000_0000 * 65536 <= s * (2 * i - (n - 1)) <= 0x8000_0000 * 65536)
            by (nonlinear_arith)
            requires
                0 <= i < n - 1,
                n <= 65535,
                -0x8000_0000 <= s < 0x8000_0000,
        ;
        assert(-0x8000_0000 * 65536 <= s * (2 * (i + 1) - (n - 1)) <= 0x8000_0000 * 65536)
            by (nonlinear_arith)
            requires
                0 <= i < n - 1,
                n <= 65535,
                -0x8000_0000 <= s < 0x8000_0000,
        ;
        assert(s * (2 * (i + 1) - (n - 1)) - s * (2 * i - (n - 1)) == 2 * s) by (nonlinear_arith);
    }
}

/// The attributes of an uploaded instance: the four columns of its
/// transform, each four 32-bit floats, at shader locations 5 to 8.
pub open spec fn instance_attributes() -> Seq<VertexAttribute> {
    seq![
        VertexAttribute { format: VertexFormat::Float32x4, offset: 0, shader_location: 5 },
        VertexAttribute { format: VertexFormat::Float32x4, offset: 16, shader_location: 6 },
        VertexAttribute { format: VertexFormat::Float32x4, offset: 32, shader_location: 7 },
        VertexAttribute { format: VertexFormat::Float32x4, offset: 48, shader_location: 8 },
    ]
}

impl Instance {
    /// Buffer layout of an instance as uploaded: its 4x4 transform as four
    /// columns of four 32-bit floats, at shader locations 5 to 8, advancing
    /// once per instance.
    pub fn desc() -> (r: VertexLayout)
        ensures
            r.array_stride == 64,
            r.step_mode == StepMode::Instance,
            r.attributes@ == instance_attributes(),
            r.attributes_fit(),
    {
        let attributes = vec![
            VertexAttribute { format: VertexFormat::Float32x4, offset: 0, shader_location: 5 },
            VertexAttribute { format: VertexFormat::Float32x4, offset: 16, shader_location: 6 },
            VertexAttribute { format: VertexFormat::Float32x4, offset: 32, shader_location: 7 },
            VertexAttribute { format: VertexFormat::Float32x4, offset: 48, shader_location: 8 },
        ];
        let r = VertexLayout { array_stride: 64, step_mode: StepMode::Instance, attributes };
        assert(r.attributes@ =~= instance_attributes());
        r
    }
}

} // verus!
