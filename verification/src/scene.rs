//! The scene: the meshes to draw, in the order in which they are drawn.

use vstd::prelude::*;
use crate::object::{MeshView, Object3D};

verus! {

/// An ordered collection of meshes. Meshes are drawn in the order in which
/// they were added.
#[derive(Debug)]
pub struct Scene {
    objects: Vec<Object3D>,
}

impl View for Scene {
    type V = Seq<Object3D>;

    closed spec fn view(&self) -> Seq<Object3D> {
        self.objects@
    }
}

impl Scene {
    /// What the meshes of the scene are, first added first.
    pub open spec fn meshes(&self) -> Seq<MeshView> {
        self@.map_values(|object: Object3D| object@)
    }

    /// The empty scene.
    pub fn new() -> (scene: Scene)
        ensures
            scene@ == Seq::<Object3D>::empty(),
    {
        Scene { objects: Vec::new() }
    }

    /// Adds `obj` behind the meshes that the scene already holds.
    pub fn add_object(&mut self, obj: Object3D)
        ensures
            final(self)@ == old(self)@.push(obj),
    {
        self.objects.push(obj);
    }

    /// The meshes of the scene, first added first.
    pub fn objects(&self) -> (objects: &[Object3D])
        ensures
            objects@ == self@,
    {
        self.objects.as_slice()
    }
}

impl Default for Scene {
    fn default() -> (scene: Scene)
        ensures
            scene@ == Seq::<Object3D>::empty(),
    {
        Scene::new()
    }
}

} // verus!
