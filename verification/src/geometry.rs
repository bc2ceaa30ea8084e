//! Generated meshes: a triangle and a grid on the ground plane.

use vstd::prelude::*;
use crate::matrix::Mat4;
use crate::object::{valid_mesh, MeshView, Object, Object3D};
use crate::vertex::Vertex;
use crate::wire::{negate, negated, HALF, NEG_HALF, NEG_ONE, ONE, ZERO};

verus! {

/// The three vertices of the triangle: its corners at (-0.5, 0, 0),
/// (0.5, 0, 0) and (0, 1, 0), coloured red, green and blue, all with the
/// normal (0, 0, 1) of the plane that they lie in.
pub open spec fn triangle_vertices() -> Seq<Vertex> {
    seq![
        Vertex {
            position: [NEG_HALF, ZERO, ZERO],
            normal: [ZERO, ZERO, ONE],
            color: [ONE, ZERO, ZERO],
        },
        Vertex { position: [HALF, ZERO, ZERO], normal: [ZERO, ZERO, ONE], color: [ZERO, ONE, ZERO] },
        Vertex { position: [ZERO, ONE, ZERO], normal: [ZERO, ZERO, ONE], color: [ZERO, ZERO, ONE] },
    ]
}

/// The triangle as a mesh: one face, counter-clockwise.
pub open spec fn triangle_mesh(model_matrix: Mat4) -> MeshView {
    MeshView { vertices: triangle_vertices(), indices: seq![0u32, 1u32, 2u32], model_matrix }
}

/// A single triangle.
#[derive(Debug)]
pub struct Triangle {
    vertices: Vec<Vertex>,
    indices: Vec<u32>,
    model_matrix: Mat4,
}

impl Triangle {
    #[verifier::type_invariant]
    spec fn inv(&self) -> bool {
        valid_mesh(self.vertices@, self.indices@)
    }

    /// The triangle, placed in the world by `model_matrix`.
    pub fn new(model_matrix: Mat4) -> (triangle: Triangle)
        ensures
            triangle.mesh() == triangle_mesh(model_matrix),
    {
        let mut vertices: Vec<Vertex> = Vec::new();
        vertices.push(
            Vertex {
                position: [NEG_HALF, ZERO, ZERO],
                normal: [ZERO, ZERO, ONE],
                color: [ONE, ZERO, ZERO],
            },
        );
        vertices.push(
            Vertex {
                position: [HALF, ZERO, ZERO],
                normal: [ZERO, ZERO, ONE],
                color: [ZERO, ONE, ZERO],
            },
        );
        vertices.push(
            Vertex {
                position: [ZERO, ONE, ZERO],
                normal: [ZERO, ZERO, ONE],
                color: [ZERO, ZERO, ONE],
            },
        );
        let mut indices: Vec<u32> = Vec::new();
        indices.push(0);
        indices.push(1);
        indices.push(2);
        assert(vertices@ =~= triangle_vertices());
        assert(indices@ =~= seq![0u32, 1u32, 2u32]);
        Triangle { vertices, indices, model_matrix }
    }
}

impl Object for Triangle {
    closed spec fn mesh(&self) -> MeshView {
        MeshView {
            vertices: self.vertices@,
            indices: self.indices@,
            model_matrix: self.model_matrix,
        }
    }

    fn vertices(&self) -> (vertices: &[Vertex]) {
        self.vertices.as_slice()
    }

    fn indices(&self) -> (indices: &[u32]) {
        self.indices.as_slice()
    }

    fn model_matrix(&self) -> (m: Mat4) {
        self.model_matrix
    }

    fn to_object3d(self) -> (object: Object3D) {
        proof {
            use_type_invariant(&self);
        }
        Object3D::new(self.vertices, self.indices, self.model_matrix)
    }
}

/// The most lanes that a grid can have, so that its indices fit one draw
/// call.
pub const MAX_LANES: usize = 178_956_970;

/// Where one line of the grid lies across its own direction: the two edges
/// of the strip that the line covers.
#[derive(Clone, Copy, Debug, PartialEq, Eq)]
pub struct Lane {
    /// The edge with the smaller coordinate.
    pub low: u32,
    /// The edge with the larger coordinate.
    pub high: u32,
}

/// A corner of the strip of a line that runs along the x axis from `-half`
/// to `half`: corners 0 and 1 on the low edge, 2 and 3 on the high edge,
/// counter-clockwise as seen from above.
pub open spec fn x_line_corner(half: u32, lane: Lane, corner: int) -> [u32; 3] {
    if corner == 0 {
        [negated(half), ZERO, lane.low]
    } else if corner == 1 {
        [half, ZERO, lane.low]
    } else if corner == 2 {
        [half, ZERO, lane.high]
    } else {
        [negated(half), ZERO, lane.high]
    }
}

/// A corner of the strip of a line that runs along the z axis from `-half`
/// to `half`.
pub open spec fn z_line_corner(half: u32, lane: Lane, corner: int) -> [u32; 3] {
    if corner == 0 {
        [lane.low, ZERO, negated(half)]
    } else if corner == 1 {
        [lane.low, ZERO, half]
    } else if corner == 2 {
        [lane.high, ZERO, half]
    } else {
        [lane.high, ZERO, negated(half)]
    }
}

/// Vertex `k` of the grid. Each line has eight vertices: its four corners
/// with the normal upward, then the same corners with the normal downward,
/// all white. The lines along the x axis come first, one per lane, then the
/// lines along the z axis.
pub open spec fn grid_vertex(half: u32, lanes: Seq<Lane>, k: int) -> Vertex {
    let line = k / 8;
    let corner = k % 4;
    Vertex {
        position: if line < lanes.len() {
            x_line_corner(half, lanes[line], corner)
        } else {
            z_line_corner(half, lanes[line - lanes.len()], corner)
        },
        normal: if k % 8 < 4 {
            [ZERO, ONE, ZERO]
        } else {
            [ZERO, NEG_ONE, ZERO]
        },
        color: [ONE, ONE, ONE],
    }
}

/// Which of the eight vertices of a line the index at place `j` of its
/// twelve indices names: two triangles over the upward corners, then two
/// over the downward corners with the opposite winding.
pub open spec fn line_corner(j: int) -> int {
    seq![0int, 1, 2, 0, 2, 3, 4, 6, 5, 4, 7, 6][j]
}

/// Index `k` of the grid.
pub open spec fn grid_index(k: int) -> int {
    8 * (k / 12) + line_corner(k % 12)
}

/// The grid with the given lanes as a mesh.
pub open spec fn grid_mesh(half: u32, lanes: Seq<Lane>, model_matrix: Mat4) -> MeshView {
    MeshView {
        vertices: Seq::new(16 * lanes.len(), |k: int| grid_vertex(half, lanes, k)),
        indices: Seq::new(24 * lanes.len(), |k: int| grid_index(k) as u32),
        model_matrix,
    }
}

/// A square grid of lines on the ground plane, each line a thin strip that
/// is visible from above and from below.
#[derive(Debug)]
pub struct Grid {
    vertices: Vec<Vertex>,
    indices: Vec<u32>,
    model_matrix: Mat4,
}

/// Appends the eight vertices and the twelve indices of one line.
fn add_line(
    vertices: &mut Vec<Vertex>,
    indices: &mut Vec<u32>,
    corners: [[u32; 3]; 4],
    Ghost(line): Ghost<int>,
)
    requires
        0 <= line,
        8 * line + 8 <= 0x1_0000_0000,
        old(vertices)@.len() == 8 * line,
        old(indices)@.len() == 12 * line,
    ensures
        final(vertices)@.len() == 8 * line + 8,
        final(indices)@.len() == 12 * line + 12,
        forall|k: int| 0 <= k < 8 * line ==> final(vertices)@[k] == old(vertices)@[k],
        forall|k: int| 0 <= k < 12 * line ==> final(indices)@[k] == old(indices)@[k],
        forall|c: int|
            0 <= c < 8 ==> #[trigger] final(vertices)@[8 * line + c] == (Vertex {
                position: corners@[c % 4],
                normal: if c < 4 {
                    [ZERO, ONE, ZERO]
                } else {
                    [ZERO, NEG_ONE, ZERO]
                },
                color: [ONE, ONE, ONE],
            }),
        forall|j: int|
            0 <= j < 12 ==> #[trigger] final(indices)@[12 * line + j] == 8 * line + line_corner(j),
{
    let base: u32 = vertices.len() as u32;
    let white: [u32; 3] = [ONE, ONE, ONE];
    let upward: [u32; 3] = [ZERO, ONE, ZERO];
    let downward: [u32; 3] = [ZERO, NEG_ONE, ZERO];
    vertices.push(Vertex { position: corners[0], normal: upward, color: white });
    vertices.push(Vertex { position: corners[1], normal: upward, color: white });
    vertices.push(Vertex { position: corners[2], normal: upward, color: white });
    vertices.push(Vertex { position: corners[3], normal: upward, color: white });
    vertices.push(Vertex { position: corners[0], normal: downward, color: white });
    vertices.push(Vertex { position: corners[1], normal: downward, color: white });
    vertices.push(Vertex { position: corners[2], normal: downward, color: white });
    vertices.push(Vertex { position: corners[3], normal: downward, color: white });
    indices.push(base);
    indices.push(base + 1);
    indices.push(base + 2);
    indices.push(base);
    indices.push(base + 2);
    indices.push(base + 3);
    indices.push(base + 4);
    indices.push(base + 6);
    indices.push(base + 5);
    indices.push(base + 4);
    indices.push(base + 7);
    indices.push(base + 6);
}

impl Grid {
    #[verifier::type_invariant]
    spec fn inv(&self) -> bool {
        valid_mesh(self.vertices@, self.indices@)
    }

    /// The grid that reaches from `-half` to `half` along both axes, with
    /// one line along each axis per lane. `half` and the edges of the lanes
    /// are single-precision numbers, carried as words.
    pub fn new(half: u32, lanes: &[Lane], model_matrix: Mat4) -> (grid: Grid)
        requires
            lanes@.len() <= MAX_LANES,
        ensures
            grid.mesh() == grid_mesh(half, lanes@, model_matrix),
    {
        let n: usize = lanes.len();
        let low: u32 = negate(half);
        let mut vertices: Vec<Vertex> = Vec::new();
        let mut indices: Vec<u32> = Vec::new();
        let mut i: usize = 0;
        while i < n
            invariant
                i <= n,
                n == lanes@.len(),
                n <= MAX_LANES,
                low == negated(half),
                vertices@.len() == 8 * i,
                indices@.len() == 12 * i,
                forall|k: int| 0 <= k < 8 * i ==> vertices@[k] == grid_vertex(half, lanes@, k),
                forall|k: int| 0 <= k < 12 * i ==> indices@[k] == grid_index(k),
            decreases n - i,
        {
            let lane = lanes[i];
            let corners: [[u32; 3]; 4] = [
                [low, ZERO, lane.low],
                [half, ZERO, lane.low],
                [half, ZERO, lane.high],
                [low, ZERO, lane.high],
            ];
            add_line(&mut vertices, &mut indices, corners, Ghost(i as int));
            proof {
                assert forall|k: int| 0 <= k < 8 * (i + 1) implies vertices@[k] == grid_vertex(
                    half,
                    lanes@,
                    k,
                ) by {
                    if k >= 8 * i {
                        let c = k - 8 * i;
                        assert(vertices@[8 * i + c] == vertices@[k]);
                        assert(k / 8 == i && k % 8 == c && k % 4 == c % 4);
                    }
                }
                assert forall|k: int| 0 <= k < 12 * (i + 1) implies indices@[k] == grid_index(k) by {
                    if k >= 12 * i {
                        let j = k - 12 * i;
                        assert(indices@[12 * i + j] == indices@[k]);
                        assert(k / 12 == i && k % 12 == j);
                    }
                }
            }
            i += 1;
        }
        let mut i: usize = 0;
        while i < n
            invariant
                i <= n,
                n == lanes@.len(),
                n <= MAX_LANES,
                low == negated(half),
                vertices@.len() == 8 * (n + i),
                indices@.len() == 12 * (n + i),
                forall|k: int| 0 <= k < 8 * (n + i) ==> vertices@[k] == grid_vertex(half, lanes@, k),
                forall|k: int| 0 <= k < 12 * (n + i) ==> indices@[k] == grid_index(k),
            decreases n - i,
        {
            let lane = lanes[i];
            let corners: [[u32; 3]; 4] = [
                [lane.low, ZERO, low],
                [lane.low, ZERO, half],
                [lane.high, ZERO, half],
                [lane.high, ZERO, low],
            ];
            add_line(&mut vertices, &mut indices, corners, Ghost(n + i));
            proof {
                assert forall|k: int| 0 <= k < 8 * (n + i + 1) implies vertices@[k] == grid_vertex(
                    half,
                    lanes@,
                    k,
                ) by {
                    if k >= 8 * (n + i) {
                        let c = k - 8 * (n + i);
                        assert(vertices@[8 * (n + i) + c] == vertices@[k]);
                        assert(k / 8 == n + i && k % 8 == c && k % 4 == c % 4);
                    }
                }
                assert forall|k: int| 0 <= k < 12 * (n + i + 1) implies indices@[k] == grid_index(
                    k,
                ) by {
                    if k >= 12 * (n + i) {
                        let j = k - 12 * (n + i);
                        assert(indices@[12 * (n + i) + j] == indices@[k]);
                        assert(k / 12 == n + i && k % 12 == j);
                    }
                }
            }
            i += 1;
        }
        proof {
            assert(vertices@ =~= grid_mesh(half, lanes@, model_matrix).vertices);
            assert(indices@ =~= grid_mesh(half, lanes@, model_matrix).indices);
            assert forall|k: int| 0 <= k < indices@.len() implies (#[trigger] indices@[k])
                < vertices@.len() by {
                assert(indices@[k] == grid_index(k));
                assert(0 <= line_corner(k % 12) < 8);
                assert(k / 12 < 2 * n);
            }
        }
        Grid { vertices, indices, model_matrix }
    }
}

impl Object for Grid {
    closed spec fn mesh(&self) -> MeshView {
        MeshView {
            vertices: self.vertices@,
            indices: self.indices@,
            model_matrix: self.model_matrix,
        }
    }

    fn vertices(&self) -> (vertices: &[Vertex]) {
        self.vertices.as_slice()
    }

    fn indices(&self) -> (indices: &[u32]) {
        self.indices.as_slice()
    }

    fn model_matrix(&self) -> (m: Mat4) {
        self.model_matrix
    }

    fn to_object3d(self) -> (object: Object3D) {
        proof {
            use_type_invariant(&self);
        }
        Object3D::new(self.vertices, self.indices, self.model_matrix)
    }
}

} // verus!
