use schwarz_engine::geometry::Triangle;
use schwarz_engine::matrix::{Mat4, Uniforms};
use schwarz_engine::object::{Object, Object3D};
use schwarz_engine::renderer::{
    CompareFunction, Face, PrimitiveTopology, Renderer, ShaderStage, CLEAR_ALPHA, CLEAR_BLUE,
    CLEAR_DEPTH, CLEAR_RED_GREEN, SAMPLE_COUNT, UNIFORM_BINDING,
};
use schwarz_engine::scene::Scene;
use schwarz_engine::surface::{
    choose_surface_format, preferred_index, PresentMode, SurfaceConfiguration, TargetFormat,
    TextureDescriptor,
};
use schwarz_engine::vertex::Vertex;
use schwarz_engine::wire::words_to_bytes;
use wgpu::TextureFormat;

fn words(m: glam::Mat4) -> Mat4 {
    Mat4::from_cols_array(m.to_cols_array().map(f32::to_bits))
}

#[test]
fn the_first_set_flag_is_preferred() {
    assert_eq!(preferred_index(&[true]), 0);
    assert_eq!(preferred_index(&[false, true]), 1);
    assert_eq!(preferred_index(&[false, true, true]), 1);
    assert_eq!(preferred_index(&[false, false, false, true]), 3);
    assert_eq!(preferred_index(&[true, true]), 0);
}

#[test]
fn without_a_set_flag_the_first_place_is_preferred() {
    assert_eq!(preferred_index(&[]), 0);
    assert_eq!(preferred_index(&[false]), 0);
    assert_eq!(preferred_index(&[false, false, false]), 0);
}

#[test]
fn the_first_gamma_corrected_format_is_chosen() {
    assert_eq!(
        choose_surface_format(&[
            TextureFormat::Bgra8Unorm,
            TextureFormat::Rgba8UnormSrgb,
            TextureFormat::Bgra8UnormSrgb,
        ]),
        TextureFormat::Rgba8UnormSrgb
    );
    assert_eq!(
        choose_surface_format(&[TextureFormat::Bgra8UnormSrgb, TextureFormat::Bgra8Unorm]),
        TextureFormat::Bgra8UnormSrgb
    );
    assert_eq!(
        choose_surface_format(&[
            TextureFormat::Rgba16Float,
            TextureFormat::Rgba8Unorm,
            TextureFormat::Bgra8UnormSrgb,
        ]),
        TextureFormat::Bgra8UnormSrgb
    );
}

#[test]
fn without_a_gamma_corrected_format_the_first_format_is_chosen() {
    assert_eq!(
        choose_surface_format(&[TextureFormat::Bgra8Unorm, TextureFormat::Rgba8Unorm]),
        TextureFormat::Bgra8Unorm
    );
    assert_eq!(
        choose_surface_format(&[TextureFormat::Rgba16Float]),
        TextureFormat::Rgba16Float
    );
}

#[test]
fn a_new_renderer_is_configured_for_the_surface() {
    let renderer = Renderer::new(
        800,
        600,
        &[TextureFormat::Bgra8Unorm, TextureFormat::Bgra8UnormSrgb],
    );
    let state = renderer.state();
    assert_eq!(
        state.config,
        SurfaceConfiguration {
            format: TextureFormat::Bgra8UnormSrgb,
            width: 800,
            height: 600,
            present_mode: PresentMode::Fifo,
        }
    );
    assert_eq!(
        state.msaa_target,
        TextureDescriptor {
            width: 800,
            height: 600,
            sample_count: 4,
            format: TargetFormat::Color(TextureFormat::Bgra8UnormSrgb),
        }
    );
    assert_eq!(
        state.depth_target,
        TextureDescriptor {
            width: 800,
            height: 600,
            sample_count: 4,
            format: TargetFormat::Depth32Float,
        }
    );
    assert_eq!(state.sample_count, 4);
    assert_eq!(SAMPLE_COUNT, 4);
}

#[test]
fn a_resize_reconfigures_the_surface_and_replaces_the_targets() {
    let mut renderer = Renderer::new(800, 600, &[TextureFormat::Rgba8UnormSrgb]);
    assert!(renderer.resize(1024, 768));
    let state = renderer.state();
    assert_eq!((state.config.width, state.config.height), (1024, 768));
    assert_eq!(state.config.format, TextureFormat::Rgba8UnormSrgb);
    assert_eq!(state.config.present_mode, PresentMode::Fifo);
    assert_eq!((state.msaa_target.width, state.msaa_target.height), (1024, 768));
    assert_eq!((state.depth_target.width, state.depth_target.height), (1024, 768));
    assert_eq!(state.msaa_target.sample_count, 4);
    assert_eq!(state.depth_target.sample_count, 4);
    assert_eq!(state.msaa_target.format, TargetFormat::Color(TextureFormat::Rgba8UnormSrgb));
    assert_eq!(state.depth_target.format, TargetFormat::Depth32Float);
    assert!(renderer.resize(1, 1));
    assert_eq!(renderer.state().msaa_target.width, 1);
}

#[test]
fn a_resize_to_an_empty_size_changes_nothing() {
    let mut renderer = Renderer::new(800, 600, &[TextureFormat::Rgba8UnormSrgb]);
    let before = renderer.state();
    assert!(!renderer.resize(0, 600));
    assert_eq!(renderer.state(), before);
    assert!(!renderer.resize(800, 0));
    assert_eq!(renderer.state(), before);
    assert!(!renderer.resize(0, 0));
    assert_eq!(renderer.state(), before);
    assert!(renderer.resize(640, 480));
    let resized = renderer.state();
    assert!(!renderer.resize(0, 1000));
    assert_eq!(renderer.state(), resized);
}

#[test]
fn the_pipeline_is_the_fixed_one() {
    let renderer = Renderer::new(800, 600, &[TextureFormat::Bgra8Unorm]);
    let pipeline = renderer.pipeline();
    assert_eq!(pipeline.vertex_layout, Vertex::desc());
    assert_eq!(pipeline.color_format, TextureFormat::Bgra8Unorm);
    assert_eq!(pipeline.topology, PrimitiveTopology::TriangleList);
    assert_eq!(pipeline.cull_mode, Some(Face::Back));
    assert_eq!(pipeline.depth_format, TargetFormat::Depth32Float);
    assert!(pipeline.depth_write_enabled);
    assert_eq!(pipeline.depth_compare, CompareFunction::Less);
    assert_eq!(pipeline.sample_count, 4);
    assert_eq!(pipeline.uniform_binding, 0);
    assert_eq!(UNIFORM_BINDING, 0);
    assert_eq!(pipeline.uniform_visibility, ShaderStage::Vertex);
}

#[test]
fn a_frame_is_cleared_to_dark_blue_gray_and_far_depth() {
    let renderer = Renderer::new(800, 600, &[TextureFormat::Bgra8Unorm]);
    let frame = renderer.render(&Scene::new(), &[]);
    assert_eq!(frame.clear_color.map(f64::from_bits), [0.1, 0.1, 0.12, 1.0]);
    assert_eq!(f32::from_bits(frame.clear_depth), 1.0);
    assert_eq!(
        [CLEAR_RED_GREEN, CLEAR_BLUE, CLEAR_ALPHA],
        [0.1f64.to_bits(), 0.12f64.to_bits(), 1.0f64.to_bits()]
    );
    assert_eq!(CLEAR_DEPTH, 1.0f32.to_bits());
    assert!(frame.draws.is_empty());
}

#[test]
fn one_triangle_gives_one_draw_of_three_indices() {
    let mut scene = Scene::new();
    scene.add_object(Triangle::new(Mat4::identity()).to_object3d());
    let view = glam::Mat4::look_at_rh(
        glam::Vec3::new(5.0, 5.0, 2.0),
        glam::Vec3::ZERO,
        glam::Vec3::Y,
    );
    let projection = glam::Mat4::perspective_rh_gl(45.0f32.to_radians(), 16.0 / 9.0, 0.1, 100.0);
    let mvp = projection * view * glam::Mat4::IDENTITY;
    let renderer = Renderer::new(1600, 900, &[TextureFormat::Bgra8UnormSrgb]);
    let frame = renderer.render(&scene, &[words(mvp)]);
    assert_eq!(frame.draws.len(), 1);
    let draw = &frame.draws[0];
    assert_eq!(draw.index_count, 3);
    assert_eq!(draw.vertex_data.len(), 3 * 36);
    assert_eq!(draw.index_data, vec![0, 0, 0, 0, 1, 0, 0, 0, 2, 0, 0, 0]);
    assert_eq!(draw.uniform_data.len(), 64);
    let mut expected: Vec<u8> = Vec::new();
    for x in mvp.to_cols_array() {
        expected.extend_from_slice(&x.to_le_bytes());
    }
    assert_eq!(draw.uniform_data, expected);
}

#[test]
fn objects_are_drawn_in_the_order_of_the_scene_each_with_its_own_data() {
    let corner = Vertex { position: [1, 2, 3], normal: [4, 5, 6], color: [7, 8, 9] };
    let mut scene = Scene::new();
    let mut mvps: Vec<Mat4> = Vec::new();
    for n in 1..=4u32 {
        let vertices = vec![corner; n as usize];
        let indices: Vec<u32> = (0..3 * n).map(|k| k % n).collect();
        scene.add_object(Object3D::new(vertices, indices, Mat4::identity()));
        mvps.push(Mat4::from_cols_array([n; 16]));
    }
    let renderer = Renderer::new(800, 600, &[TextureFormat::Bgra8Unorm]);
    let frame = renderer.render(&scene, &mvps);
    assert_eq!(frame.draws.len(), 4);
    for (i, draw) in frame.draws.iter().enumerate() {
        let mesh = &scene.objects()[i];
        assert_eq!(draw.index_count as usize, 3 * (i + 1));
        assert_eq!(draw.index_count % 3, 0);
        assert_eq!(draw.vertex_data, Vertex::as_byte_slice(mesh.vertices()));
        assert_eq!(draw.vertex_data.len(), 36 * (i + 1));
        assert_eq!(draw.index_data, words_to_bytes(mesh.indices()));
        assert_eq!(draw.index_data.len(), 4 * mesh.indices().len());
        assert_eq!(draw.uniform_data, Uniforms::as_byte_slice(&[Uniforms::from_mat4(mvps[i])]));
    }
    // drawing changes neither the scene nor the renderer
    assert_eq!(scene.objects().len(), 4);
    assert_eq!(scene.objects()[2].indices().len(), 9);
    assert_eq!(renderer.state().config.width, 800);
}

#[test]
fn one_object_is_laid_out_by_itself() {
    let corner = Vertex { position: [1, 2, 3], normal: [4, 5, 6], color: [7, 8, 9] };
    let mesh = Object3D::new(vec![corner; 2], vec![0, 1, 1], Mat4::identity());
    let gpu = Renderer::prepare(&mesh, Mat4::from_cols_array([5; 16]));
    assert_eq!(gpu.index_count, 3);
    assert_eq!(gpu.vertex_data.len(), 72);
    assert_eq!(&gpu.vertex_data[..8], &[1, 0, 0, 0, 2, 0, 0, 0]);
    assert_eq!(gpu.index_data, vec![0, 0, 0, 0, 1, 0, 0, 0, 1, 0, 0, 0]);
    assert_eq!(gpu.uniform_data, [5u8, 0, 0, 0].repeat(16));
}
