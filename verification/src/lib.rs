//! A verified core for a small real-time 3D scene viewer.
//!
//! The crate holds the decisions of the viewer: how meshes are laid out for
//! the GPU, in which order a frame is drawn, how the presentation surface is
//! configured and resized, and how input drives the fly-through camera.
//! Talking to the GPU, the window system and the file system is left to the
//! caller, which is handed plain descriptions of what to do.
//!
//! Numbers that only pass through on their way to the GPU (vertex
//! attributes, matrices) are single-precision numbers carried as the words
//! that hold their bits. Numbers that the crate computes with (angles,
//! speeds, places, time) are whole numbers of small units.

pub mod camera;
pub mod engine;
pub mod geometry;
pub mod matrix;
pub mod movement;
pub mod obj_import;
pub mod object;
pub mod renderer;
pub mod scene;
pub mod surface;
pub mod vertex;
pub mod wire;

pub use camera::Camera;
pub use engine::SchwarzEngine;
pub use geometry::{Grid, Triangle};
pub use matrix::{Mat4, Uniforms};
pub use movement::CameraMovement;
pub use obj_import::load_obj;
pub use object::{Object, Object3D};
pub use renderer::Renderer;
pub use scene::Scene;
pub use vertex::Vertex;
