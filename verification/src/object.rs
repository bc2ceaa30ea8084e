//! Meshes: what a scene is made of.

use vstd::prelude::*;
use crate::matrix::Mat4;
use crate::vertex::Vertex;

verus! {

/// The largest number of indices that one draw call can cover.
pub const MAX_INDEX_COUNT: usize = 0xFFFF_FFFF;

/// What a mesh is: its vertices, the triangles over them and the transform
/// that places it in the world.
pub struct MeshView {
    /// The vertices; the place of a vertex in the sequence is its index.
    pub vertices: Seq<Vertex>,
    /// The triangle list: each three consecutive indices name the corners of
    /// one triangle, counter-clockwise as seen from the front.
    pub indices: Seq<u32>,
    /// The transform from the mesh's own space to world space.
    pub model_matrix: Mat4,
}

/// Whether `indices` is a triangle list over `vertices`: a whole number of
/// triangles, every corner an existing vertex, and no more indices than one
/// draw call can cover.
pub open spec fn valid_mesh(vertices: Seq<Vertex>, indices: Seq<u32>) -> bool {
    &&& indices.len() % 3 == 0
    &&& indices.len() <= MAX_INDEX_COUNT
    &&& forall|i: int| 0 <= i < indices.len() ==> (#[trigger] indices[i]) < vertices.len()
}

/// A renderable mesh. Every value of this type is a valid triangle list.
#[derive(Debug)]
pub struct Object3D {
    vertices: Vec<Vertex>,
    indices: Vec<u32>,
    model_matrix: Mat4,
}

impl View for Object3D {
    type V = MeshView;

    closed spec fn view(&self) -> MeshView {
        MeshView {
            vertices: self.vertices@,
            indices: self.indices@,
            model_matrix: self.model_matrix,
        }
    }
}

/// Anything that can stand in a scene: it has vertices, a triangle list and
/// a model transform, and can be turned into the one mesh representation
/// that the renderer draws.
pub trait Object: Sized {
    /// The mesh that this object stands for.
    spec fn mesh(&self) -> MeshView;

    /// The vertices in the object's own space.
    fn vertices(&self) -> (vertices: &[Vertex])
        ensures
            vertices@ == self.mesh().vertices,
    ;

    /// The triangle list.
    fn indices(&self) -> (indices: &[u32])
        ensures
            indices@ == self.mesh().indices,
    ;

    /// The transform from the object's own space to world space.
    fn model_matrix(&self) -> (m: Mat4)
        ensures
            m == self.mesh().model_matrix,
    ;

    /// Turns the object into a renderable mesh.
    fn to_object3d(self) -> (object: Object3D)
        ensures
            object@ == self.mesh(),
            object.wf(),
    ;
}

impl Object3D {
    #[verifier::type_invariant]
    spec fn inv(&self) -> bool {
        valid_mesh(self.vertices@, self.indices@)
    }

    /// The validity that every mesh has, stated over its view.
    pub open spec fn wf(&self) -> bool {
        valid_mesh(self@.vertices, self@.indices)
    }

    /// Tells whether `indices` is a triangle list over `vertices`.
    pub fn is_valid_mesh(vertices: &[Vertex], indices: &[u32]) -> (valid: bool)
        ensures
            valid == valid_mesh(vertices@, indices@),
    {
        if indices.len() % 3 != 0 || indices.len() > MAX_INDEX_COUNT {
            return false;
        }
        let mut i: usize = 0;
        while i < indices.len()
            invariant
                i <= indices@.len(),
                forall|j: int| 0 <= j < i ==> (#[trigger] indices@[j]) < vertices@.len(),
            decreases indices@.len() - i,
        {
            if indices[i] as usize >= vertices.len() {
                return false;
            }
            i += 1;
        }
        true
    }

    /// Makes a mesh of a triangle list over `vertices`.
    pub fn new(vertices: Vec<Vertex>, indices: Vec<u32>, model_matrix: Mat4) -> (object: Object3D)
        requires
            valid_mesh(vertices@, indices@),
        ensures
            object@ == (MeshView { vertices: vertices@, indices: indices@, model_matrix }),
            object.wf(),
    {
        Object3D { vertices, indices, model_matrix }
    }

    /// The vertices in the mesh's own space.
    pub fn vertices(&self) -> (vertices: &[Vertex])
        ensures
            vertices@ == self@.vertices,
            self.wf(),
    {
        proof {
            use_type_invariant(self);
        }
        self.vertices.as_slice()
    }

    /// The triangle list.
    pub fn indices(&self) -> (indices: &[u32])
        ensures
            indices@ == self@.indices,
            self.wf(),
    {
        proof {
            use_type_invariant(self);
        }
        self.indices.as_slice()
    }

    /// The transform from the mesh's own space to world space.
    pub fn model_matrix(&self) -> (m: Mat4)
        ensures
            m == self@.model_matrix,
    {
        self.model_matrix
    }

    /// Replaces the model transform; the geometry stays as it is.
    pub fn set_model_matrix(&mut self, model_matrix: Mat4)
        ensures
            final(self)@ == (MeshView { model_matrix, ..old(self)@ }),
            final(self).wf(),
    {
        proof {
            use_type_invariant(&*self);
        }
        self.model_matrix = model_matrix;
    }
}

impl Object for Object3D {
    open spec fn mesh(&self) -> MeshView {
        self@
    }

    fn vertices(&self) -> (vertices: &[Vertex]) {
        Object3D::vertices(self)
    }

    fn indices(&self) -> (indices: &[u32]) {
        Object3D::indices(self)
    }

    fn model_matrix(&self) -> (m: Mat4) {
        Object3D::model_matrix(self)
    }

    fn to_object3d(self) -> (object: Object3D) {
        proof {
            use_type_invariant(&self);
        }
        self
    }
}

} // verus!
