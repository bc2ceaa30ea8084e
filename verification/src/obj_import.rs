//! Imported meshes: from the arrays that a mesh file was read into to the
//! meshes of a scene.

use vstd::prelude::*;
use crate::matrix::Mat4;
use crate::object::{MeshView, Object3D, MAX_INDEX_COUNT};
use crate::vertex::Vertex;
use crate::wire::{abs, magnitude};

verus! {

/// One model of a mesh file, as its reader hands it over: flat arrays of
/// single-precision numbers, carried as words, and a face list that is
/// triangulated and indexes positions and normals alike.
#[derive(Debug, PartialEq, Eq)]
pub struct ObjMesh {
    /// The positions, three numbers per vertex.
    pub positions: Vec<u32>,
    /// The normals, three numbers per vertex.
    pub normals: Vec<u32>,
    /// The corners of the faces, three per face.
    pub indices: Vec<u32>,
}

/// Why a model cannot be turned into a mesh.
#[derive(Clone, Copy, Debug, PartialEq, Eq)]
pub enum LoadError {
    /// The model has fewer normals than positions.
    MissingNormals,
    /// The number of indices is not a multiple of three.
    NotTriangulated,
    /// The model has more indices than one draw call can cover.
    TooManyIndices,
    /// An index names a vertex that the model does not have.
    IndexOutOfBounds,
}

/// The number of vertices of a model: one per three whole positions.
pub open spec fn vertex_count(positions: Seq<u32>) -> nat {
    positions.len() / 3
}

/// Vertex `i` of a model: its position and its normal as the arrays give
/// them, and for its colour the absolute values of its position.
pub open spec fn imported_vertex(positions: Seq<u32>, normals: Seq<u32>, i: int) -> Vertex {
    Vertex {
        position: [positions[3 * i], positions[3 * i + 1], positions[3 * i + 2]],
        normal: [normals[3 * i], normals[3 * i + 1], normals[3 * i + 2]],
        color: [
            magnitude(positions[3 * i]),
            magnitude(positions[3 * i + 1]),
            magnitude(positions[3 * i + 2]),
        ],
    }
}

/// The vertices of a model.
pub open spec fn imported_vertices(positions: Seq<u32>, normals: Seq<u32>) -> Seq<Vertex> {
    Seq::new(
        vertex_count(positions),
        |i: int| imported_vertex(positions, normals, i),
    )
}

impl ObjMesh {
    /// What is wrong with the model, if anything; of several defects the
    /// first in the order of `LoadError`.
    pub open spec fn defect(&self) -> Option<LoadError> {
        if self.normals@.len() < 3 * vertex_count(self.positions@) {
            Some(LoadError::MissingNormals)
        } else if self.indices@.len() % 3 != 0 {
            Some(LoadError::NotTriangulated)
        } else if self.indices@.len() > MAX_INDEX_COUNT {
            Some(LoadError::TooManyIndices)
        } else if exists|k: int|
            0 <= k < self.indices@.len() && self.indices@[k] >= vertex_count(self.positions@) {
            Some(LoadError::IndexOutOfBounds)
        } else {
            None
        }
    }

    /// The mesh that the model becomes when it is placed in the world by
    /// `model_matrix`.
    pub open spec fn imported(&self, model_matrix: Mat4) -> MeshView {
        MeshView {
            vertices: imported_vertices(self.positions@, self.normals@),
            indices: self.indices@,
            model_matrix,
        }
    }

    /// Turns the model into a mesh, or tells what is wrong with it.
    pub fn to_object3d(&self, model_matrix: Mat4) -> (result: Result<Object3D, LoadError>)
        ensures
            match result {
                Ok(object) => self.defect() is None && object@ == self.imported(model_matrix),
                Err(error) => self.defect() == Some(error),
            },
    {
        let count: usize = self.positions.len() / 3;
        if self.normals.len() < 3 * count {
            return Err(LoadError::MissingNormals);
        }
        if self.indices.len() % 3 != 0 {
            return Err(LoadError::NotTriangulated);
        }
        if self.indices.len() > MAX_INDEX_COUNT {
            return Err(LoadError::TooManyIndices);
        }
        let mut indices: Vec<u32> = Vec::new();
        let mut k: usize = 0;
        while k < self.indices.len()
            invariant
                k <= self.indices@.len(),
                count == vertex_count(self.positions@),
                3 * count <= self.normals@.len(),
                self.indices@.len() % 3 == 0,
                self.indices@.len() <= MAX_INDEX_COUNT,
                indices@ == self.indices@.take(k as int),
                forall|j: int| 0 <= j < k ==> self.indices@[j] < count,
            decreases self.indices@.len() - k,
        {
            let index = self.indices[k];
            if index as usize >= count {
                assert(self.indices@[k as int] >= vertex_count(self.positions@));
                return Err(LoadError::IndexOutOfBounds);
            }
            indices.push(index);
            assert(self.indices@.take(k as int).push(index) =~= self.indices@.take(k + 1));
            k += 1;
        }
        assert(self.indices@.take(self.indices@.len() as int) =~= self.indices@);
        let mut vertices: Vec<Vertex> = Vec::new();
        let mut i: usize = 0;
        while i < count
            invariant
                i <= count,
                count == vertex_count(self.positions@),
                3 * count <= self.positions.len(),
                3 * count <= self.normals.len(),
                vertices@.len() == i,
                forall|j: int|
                    0 <= j < i ==> vertices@[j] == imported_vertex(
                        self.positions@,
                        self.normals@,
                        j,
                    ),
            decreases count - i,
        {
            let px = self.positions[3 * i];
            let py = self.positions[3 * i + 1];
            let pz = self.positions[3 * i + 2];
            let nx = self.normals[3 * i];
            let ny = self.normals[3 * i + 1];
            let nz = self.normals[3 * i + 2];
            vertices.push(
                Vertex {
                    position: [px, py, pz],
                    normal: [nx, ny, nz],
                    color: [abs(px), abs(py), abs(pz)],
                },
            );
            i += 1;
        }
        assert(vertices@ =~= imported_vertices(self.positions@, self.normals@));
        Ok(Object3D::new(vertices, indices, model_matrix))
    }
}

/// Whether model `i` is the first model that has a defect.
pub open spec fn is_first_defect(models: Seq<ObjMesh>, i: int) -> bool {
    &&& 0 <= i < models.len()
    &&& models[i].defect() is Some
    &&& forall|j: int| 0 <= j < i ==> models[j].defect() is None
}

/// Turns the models of a mesh file into meshes, all placed in the world by
/// `model_matrix`, in the order of the file. If any model has a defect,
/// there are no meshes at all, and the error is that of the first such
/// model.
pub fn load_obj(models: &[ObjMesh], model_matrix: Mat4) -> (result: Result<Vec<Object3D>, LoadError>)
    ensures
        match result {
            Ok(objects) => {
                &&& objects@.len() == models@.len()
                &&& forall|i: int| 0 <= i < models@.len() ==> models@[i].defect() is None
                &&& forall|i: int|
                    0 <= i < models@.len() ==> (#[trigger] objects@[i])@ == models@[i].imported(
                        model_matrix,
                    )
            },
            Err(error) => exists|i: int|
                is_first_defect(models@, i) && models@[i].defect() == Some(error),
        },
{
    let mut objects: Vec<Object3D> = Vec::new();
    let mut i: usize = 0;
    while i < models.len()
        invariant
            i <= models@.len(),
            objects@.len() == i,
            forall|j: int| 0 <= j < i ==> models@[j].defect() is None,
            forall|j: int|
                0 <= j < i ==> (#[trigger] objects@[j])@ == models@[j].imported(model_matrix),
        decreases models@.len() - i,
    {
        match models[i].to_object3d(model_matrix) {
            Ok(object) => {
                objects.push(object);
            },
            Err(error) => {
                assert(is_first_defect(models@, i as int));
                return Err(error);
            },
        }
        i += 1;
    }
    Ok(objects)
}

} // verus!
