//! The renderer: the surface configuration with its render targets, the
//! fixed pipeline, and the plan of a frame.
//!
//! The renderer owns no GPU object. It decides what the GPU objects must be
//! and hands out descriptions; whoever owns the device creates them.

use vstd::prelude::*;
use crate::matrix::{uniforms_bytes, Mat4, Uniforms, MATRIX_SIZE};
use crate::object::{valid_mesh, MeshView, Object3D};
use crate::scene::Scene;
use crate::surface::{
    choose_surface_format, preferred_format, PresentMode, SurfaceConfiguration, TargetFormat,
    TextureDescriptor,
};
use crate::vertex::{is_vertex_layout, vertices_bytes, Vertex, VertexBufferLayout, VERTEX_SIZE};
use crate::wire::{words_bytes, words_to_bytes, ONE};

verus! {

/// The number of samples per pixel of the colour and depth targets.
pub const SAMPLE_COUNT: u32 = 4;

/// The slot at which the uniform block of an object is bound.
pub const UNIFORM_BINDING: u32 = 0;

/// The red and the green part of the colour that a frame is cleared to:
/// `0.1` in double precision.
pub const CLEAR_RED_GREEN: u64 = 0x3FB9_9999_9999_999A;

/// The blue part of the clear colour: `0.12` in double precision.
pub const CLEAR_BLUE: u64 = 0x3FBE_B851_EB85_1EB8;

/// The alpha part of the clear colour: `1.0` in double precision.
pub const CLEAR_ALPHA: u64 = 0x3FF0_0000_0000_0000;

/// The depth that a frame is cleared to: `1.0`, the far plane.
pub const CLEAR_DEPTH: u32 = ONE;

/// What the renderer holds: the configuration of the surface and the two
/// render targets that go with it.
#[derive(Clone, Copy, Debug, PartialEq, Eq)]
pub struct RendererState {
    pub config: SurfaceConfiguration,
    /// The multisampled colour target that frames are drawn into.
    pub msaa_target: TextureDescriptor,
    /// The depth target.
    pub depth_target: TextureDescriptor,
    pub sample_count: u32,
}

/// The state of a renderer whose surface has the given format and size:
/// presentation locked to the refresh of the display, and both render
/// targets of the size of the surface with four samples per pixel.
pub open spec fn state_for(format: wgpu::TextureFormat, width: u32, height: u32) -> RendererState {
    RendererState {
        config: SurfaceConfiguration { format, width, height, present_mode: PresentMode::Fifo },
        msaa_target: TextureDescriptor {
            width,
            height,
            sample_count: SAMPLE_COUNT,
            format: TargetFormat::Color(format),
        },
        depth_target: TextureDescriptor {
            width,
            height,
            sample_count: SAMPLE_COUNT,
            format: TargetFormat::Depth32Float,
        },
        sample_count: SAMPLE_COUNT,
    }
}

/// The state after the window took the given size: an empty size changes
/// nothing, any other size reconfigures the surface and replaces both
/// render targets.
pub open spec fn resized(state: RendererState, width: u32, height: u32) -> RendererState {
    if width > 0 && height > 0 {
        state_for(state.config.format, width, height)
    } else {
        state
    }
}

/// Taking the same size twice is the same as taking it once, and a size
/// never changes the format of the surface.
pub proof fn law_resize_is_idempotent(state: RendererState, width: u32, height: u32)
    ensures
        resized(resized(state, width, height), width, height) == resized(state, width, height),
        resized(state, width, height).config.format == state.config.format,
        state.wf() ==> resized(state, width, height).wf(),
{
}

impl RendererState {
    /// The surface is not empty, and the render targets are those that go
    /// with its configuration.
    pub open spec fn wf(self) -> bool {
        &&& self.config.width > 0
        &&& self.config.height > 0
        &&& self == state_for(self.config.format, self.config.width, self.config.height)
    }
}

/// Which side of a triangle is not drawn.
#[derive(Clone, Copy, Debug, PartialEq, Eq)]
pub enum Face {
    Front,
    Back,
}

/// How the indices of a mesh form primitives.
#[derive(Clone, Copy, Debug, PartialEq, Eq)]
pub enum PrimitiveTopology {
    /// Each three consecutive indices form one triangle.
    TriangleList,
}

/// When a fragment passes the depth test.
#[derive(Clone, Copy, Debug, PartialEq, Eq)]
pub enum CompareFunction {
    /// When it is nearer than what the depth target holds.
    Less,
}

/// The stage of the pipeline that sees a binding.
#[derive(Clone, Copy, Debug, PartialEq, Eq)]
pub enum ShaderStage {
    Vertex,
    Fragment,
}

/// The one pipeline that every object is drawn with.
#[derive(Debug, PartialEq, Eq)]
pub struct PipelineDescriptor {
    /// The layout of the vertex buffer that the vertex stage reads.
    pub vertex_layout: VertexBufferLayout,
    /// The format of the colour target that the fragment stage writes.
    pub color_format: wgpu::TextureFormat,
    pub topology: PrimitiveTopology,
    pub cull_mode: Option<Face>,
    pub depth_format: TargetFormat,
    pub depth_write_enabled: bool,
    pub depth_compare: CompareFunction,
    pub sample_count: u32,
    /// The slot of the uniform block.
    pub uniform_binding: u32,
    /// The stage that reads the uniform block.
    pub uniform_visibility: ShaderStage,
}

/// Whether `pipeline` is the fixed pipeline of a renderer in `state`:
/// triangle lists of vertices, back faces culled, depth tested with
/// less-than and written, four samples per pixel, and one uniform block at
/// slot 0 that the vertex stage reads.
pub open spec fn is_pipeline_of(pipeline: PipelineDescriptor, state: RendererState) -> bool {
    &&& is_vertex_layout(pipeline.vertex_layout)
    &&& pipeline.color_format == state.config.format
    &&& pipeline.topology == PrimitiveTopology::TriangleList
    &&& pipeline.cull_mode == Some(Face::Back)
    &&& pipeline.depth_format == TargetFormat::Depth32Float
    &&& pipeline.depth_write_enabled
    &&& pipeline.depth_compare == CompareFunction::Less
    &&& pipeline.sample_count == state.sample_count
    &&& pipeline.uniform_binding == UNIFORM_BINDING
    &&& pipeline.uniform_visibility == ShaderStage::Vertex
}

/// What is uploaded and drawn for one object of the scene in one frame.
#[derive(Debug, PartialEq, Eq)]
pub struct ObjGpu {
    /// The content of the object's vertex buffer.
    pub vertex_data: Vec<u8>,
    /// The content of the object's index buffer: 32-bit indices.
    pub index_data: Vec<u8>,
    /// The content of the object's uniform buffer, bound at slot 0.
    pub uniform_data: Vec<u8>,
    /// The number of indices of the one indexed draw that covers the whole
    /// index buffer, with a single instance.
    pub index_count: u32,
}

/// Whether `gpu` holds exactly the uploads and the draw of `mesh` under the
/// combined transform `mvp`.
pub open spec fn realizes(gpu: ObjGpu, mesh: MeshView, mvp: Mat4) -> bool {
    &&& gpu.vertex_data@ == vertices_bytes(mesh.vertices)
    &&& gpu.index_data@ == words_bytes(mesh.indices)
    &&& gpu.uniform_data@ == uniforms_bytes(seq![Uniforms { mvp: mvp.cols }])
    &&& gpu.index_count == mesh.indices.len()
}

/// Whether the uploads of `gpu` have the size of the parts of `mesh`: 36
/// bytes for each vertex, four bytes for each index, 64 bytes for the
/// matrix, and indices that come in threes.
pub open spec fn has_upload_sizes(gpu: ObjGpu, mesh: MeshView) -> bool {
    &&& gpu.vertex_data@.len() == VERTEX_SIZE * mesh.vertices.len()
    &&& gpu.index_data@.len() == 4 * mesh.indices.len()
    &&& gpu.uniform_data@.len() == MATRIX_SIZE
    &&& mesh.indices.len() % 3 == 0
    &&& gpu.index_count % 3 == 0
}

/// The uploads of a valid mesh have the size of its parts.
pub proof fn law_upload_sizes(gpu: ObjGpu, mesh: MeshView, mvp: Mat4)
    requires
        valid_mesh(mesh.vertices, mesh.indices),
        realizes(gpu, mesh, mvp),
    ensures
        has_upload_sizes(gpu, mesh),
{
}

/// One frame: a single render pass that clears the targets and then draws
/// the objects in order.
#[derive(Debug, PartialEq, Eq)]
pub struct Frame {
    /// The clear colour as red, green, blue, alpha, each a double-precision
    /// number carried as its bits.
    pub clear_color: [u64; 4],
    /// The clear depth, a single-precision number carried as its word.
    pub clear_depth: u32,
    /// The objects to upload and draw, in drawing order.
    pub draws: Vec<ObjGpu>,
}

/// Whether `frame` is the frame of a scene of `meshes` under the combined
/// transforms `mvps`: cleared to dark blue-gray and to the far plane, with
/// one draw for each mesh, in the order of the meshes.
pub open spec fn is_frame_of(frame: Frame, meshes: Seq<MeshView>, mvps: Seq<Mat4>) -> bool {
    &&& frame.clear_color@ == seq![CLEAR_RED_GREEN, CLEAR_RED_GREEN, CLEAR_BLUE, CLEAR_ALPHA]
    &&& frame.clear_depth == CLEAR_DEPTH
    &&& frame.draws@.len() == meshes.len()
    &&& forall|i: int|
        0 <= i < meshes.len() ==> realizes(#[trigger] frame.draws@[i], meshes[i], mvps[i])
    &&& forall|i: int|
        0 <= i < meshes.len() ==> has_upload_sizes(#[trigger] frame.draws@[i], meshes[i])
}

/// The renderer. Its surface is never empty and its render targets always
/// have the size of the surface.
#[derive(Debug)]
pub struct Renderer {
    state: RendererState,
}

impl View for Renderer {
    type V = RendererState;

    closed spec fn view(&self) -> RendererState {
        self.state
    }
}

impl Renderer {
    #[verifier::type_invariant]
    spec fn inv(&self) -> bool {
        self.state.wf()
    }

    /// Sets up the renderer for a surface of the given size that offers
    /// `formats`, in the order in which the surface reports them.
    pub fn new(width: u32, height: u32, formats: &[wgpu::TextureFormat]) -> (renderer: Renderer)
        requires
            width > 0,
            height > 0,
            formats@.len() > 0,
        ensures
            renderer@ == state_for(preferred_format(formats@), width, height),
            renderer@.wf(),
    {
        let format = choose_surface_format(formats);
        Renderer { state: Self::configure(format, width, height) }
    }

    fn configure(format: wgpu::TextureFormat, width: u32, height: u32) -> (state: RendererState)
        ensures
            state == state_for(format, width, height),
    {
        RendererState {
            config: SurfaceConfiguration { format, width, height, present_mode: PresentMode::Fifo },
            msaa_target: TextureDescriptor {
                width,
                height,
                sample_count: SAMPLE_COUNT,
                format: TargetFormat::Color(format),
            },
            depth_target: TextureDescriptor {
                width,
                height,
                sample_count: SAMPLE_COUNT,
                format: TargetFormat::Depth32Float,
            },
            sample_count: SAMPLE_COUNT,
        }
    }

    /// Takes note of a new size of the window. An empty size is ignored.
    /// Any other size reconfigures the surface and replaces both render
    /// targets; the result tells whether that happened, so that the owner
    /// of the device can follow.
    pub fn resize(&mut self, width: u32, height: u32) -> (reconfigured: bool)
        ensures
            final(self)@ == resized(old(self)@, width, height),
            (width == 0 || height == 0) ==> final(self)@ == old(self)@,
            final(self)@.wf(),
            reconfigured == (width > 0 && height > 0),
    {
        proof {
            use_type_invariant(&*self);
        }
        if width > 0 && height > 0 {
            self.state = Self::configure(self.state.config.format, width, height);
            true
        } else {
            false
        }
    }

    /// What the renderer holds at present.
    pub fn state(&self) -> (state: RendererState)
        ensures
            state == self@,
            state.wf(),
    {
        proof {
            use_type_invariant(self);
        }
        self.state
    }

    /// The fixed pipeline.
    pub fn pipeline(&self) -> (pipeline: PipelineDescriptor)
        ensures
            is_pipeline_of(pipeline, self@),
    {
        proof {
            use_type_invariant(self);
        }
        PipelineDescriptor {
            vertex_layout: Vertex::desc(),
            color_format: self.state.config.format,
            topology: PrimitiveTopology::TriangleList,
            cull_mode: Some(Face::Back),
            depth_format: TargetFormat::Depth32Float,
            depth_write_enabled: true,
            depth_compare: CompareFunction::Less,
            sample_count: self.state.sample_count,
            uniform_binding: UNIFORM_BINDING,
            uniform_visibility: ShaderStage::Vertex,
        }
    }

    /// Plans one frame of `scene`. `mvps` holds, for each object of the
    /// scene in order, its combined model-view-projection matrix.
    ///
    /// The frame draws every object of the scene once, in the order of the
    /// scene, each with its own vertex, index and uniform data. Neither the
    /// scene nor the renderer changes.
    pub fn render(&self, scene: &Scene, mvps: &[Mat4]) -> (frame: Frame)
        requires
            mvps@.len() == scene@.len(),
        ensures
            is_frame_of(frame, scene.meshes(), mvps@),
    {
        let objects = scene.objects();
        let mut draws: Vec<ObjGpu> = Vec::new();
        let mut i: usize = 0;
        while i < objects.len()
            invariant
                i <= objects@.len(),
                objects@ == scene@,
                mvps@.len() == scene@.len(),
                draws@.len() == i,
                forall|j: int| 0 <= j < i ==> realizes(#[trigger] draws@[j], scene@[j]@, mvps@[j]),
                forall|j: int| 0 <= j < i ==> has_upload_sizes(#[trigger] draws@[j], scene@[j]@),
            decreases objects@.len() - i,
        {
            let gpu = Self::prepare(&objects[i], mvps[i]);
            draws.push(gpu);
            i += 1;
        }
        Frame {
            clear_color: [CLEAR_RED_GREEN, CLEAR_RED_GREEN, CLEAR_BLUE, CLEAR_ALPHA],
            clear_depth: CLEAR_DEPTH,
            draws,
        }
    }

    /// Lays out the uploads and the draw of one object.
    pub fn prepare(obj: &Object3D, mvp: Mat4) -> (gpu: ObjGpu)
        ensures
            realizes(gpu, obj@, mvp),
            has_upload_sizes(gpu, obj@),
    {
        let vertices = obj.vertices();
        let indices = obj.indices();
        let vertex_data = Vertex::as_byte_slice(vertices);
        let index_data = words_to_bytes(indices);
        let uniforms = [Uniforms::from_mat4(mvp)];
        let uniform_data = Uniforms::as_byte_slice(uniforms.as_slice());
        assert(uniforms@ =~= seq![Uniforms { mvp: mvp.cols }]);
        ObjGpu { vertex_data, index_data, uniform_data, index_count: indices.len() as u32 }
    }
}

} // verus!
