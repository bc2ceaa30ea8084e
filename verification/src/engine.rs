//! The engine: a scene, a renderer and a camera that input events drive.
//!
//! The engine takes one event at a time and answers with what its owner
//! has to do next. It never touches the window or the GPU itself.

use vstd::prelude::*;
use crate::camera::{
    lemma_advanced_wf, lemma_target_differs_from_position, Basis, Camera, CameraState, Vector3,
    UNIT,
};
use crate::matrix::Mat4;
use crate::movement::{
    lemma_integrated_wf, lemma_mouse_moved_wf, CameraMovement, Key, MouseButton, MovementState,
    PITCH_LIMIT,
};
use crate::object::{MeshView, Object};
use crate::renderer::{is_frame_of, resized, state_for, Frame, Renderer, RendererState};
use crate::scene::Scene;
use crate::surface::preferred_format;

verus! {

/// The field of view of the camera of a new engine: the largest whole
/// number of nanoradians below 45 degrees.
pub const INITIAL_FOV: u32 = 785_398_163;

/// The near clip distance of the camera of a new engine: a tenth of a world
/// unit.
pub const INITIAL_NEAR: u64 = 100_000;

/// The far clip distance of the camera of a new engine: a hundred world
/// units.
pub const INITIAL_FAR: u64 = 100_000_000;

/// An input event.
#[derive(Clone, Copy, Debug, PartialEq, Eq)]
pub enum Event {
    /// The mouse moved by `dx` to the right and `dy` down, both in
    /// thousandths of a count.
    MouseMotion { dx: i32, dy: i32 },
    /// The user asked to close the window.
    CloseRequested,
    /// The window took a new size.
    Resized { width: u32, height: u32 },
    /// The scale of the display changed, and with it the size of the
    /// window.
    ScaleFactorChanged { width: u32, height: u32 },
    /// A mouse button went down or up.
    MouseInput { button: MouseButton, pressed: bool },
    /// A key went down or up. Where the keyboard does not say which key it
    /// was, `key` is `None`.
    KeyboardInput { key: Option<Key>, pressed: bool },
    /// The window wants a frame. `dt` is the time since the frame before,
    /// in microseconds; `basis` holds the directions that go with the yaw
    /// and the pitch of the controller.
    RedrawRequested { dt: u32, basis: Basis },
    /// All events that were waiting have been handled.
    MainEventsCleared,
    /// Anything else.
    Other,
}

/// What the owner of the engine has to do after an event.
#[derive(Clone, Copy, Debug, PartialEq, Eq)]
pub enum Action {
    /// Nothing but to wait for the next event.
    Wait,
    /// Leave the event loop.
    Exit,
    /// Configure the surface anew and replace the render targets, as the
    /// renderer now describes them.
    Reconfigure,
    /// Draw a frame of the scene as the camera now sees it.
    Draw,
    /// Ask the window for a redraw.
    RequestRedraw,
}

/// What the engine holds.
pub struct EngineState {
    /// The meshes of the scene, in drawing order.
    pub scene: Seq<MeshView>,
    pub renderer: RendererState,
    pub movement: MovementState,
    pub camera: CameraState,
}

/// The camera of a new engine: at (5, 5, 2), looking at the origin, with
/// the y axis upward.
pub open spec fn initial_camera() -> CameraState {
    CameraState {
        position: Vector3 { x: (5 * UNIT) as i64, y: (5 * UNIT) as i64, z: (2 * UNIT) as i64 },
        target: Vector3 { x: 0, y: 0, z: 0 },
        up: Vector3 { x: 0, y: UNIT, z: 0 },
        fov: INITIAL_FOV,
        near: INITIAL_NEAR,
        far: INITIAL_FAR,
    }
}

impl EngineState {
    /// Every part of the engine is valid.
    pub open spec fn wf(self) -> bool {
        &&& self.renderer.wf()
        &&& self.movement.wf()
        &&& self.camera.wf()
    }

    /// The state after `event`. Mouse and keyboard events go to the
    /// controller of the camera, changes of the window's size go to the
    /// renderer, and a redraw first lets the time go by for the controller
    /// and then for the camera. No event changes the scene.
    pub open spec fn stepped(self, event: Event) -> EngineState {
        match event {
            Event::MouseMotion { dx, dy } => EngineState {
                movement: self.movement.mouse_moved(dx as int, dy as int),
                ..self
            },
            Event::Resized { width, height } => EngineState {
                renderer: resized(self.renderer, width, height),
                ..self
            },
            Event::ScaleFactorChanged { width, height } => EngineState {
                renderer: resized(self.renderer, width, height),
                ..self
            },
            Event::MouseInput { button, pressed } => EngineState {
                movement: self.movement.mouse_button(button, pressed),
                ..self
            },
            Event::KeyboardInput { key: Some(key), pressed } => EngineState {
                movement: self.movement.key(key, pressed),
                ..self
            },
            Event::RedrawRequested { dt, basis } => {
                let movement = self.movement.integrated(dt as int);
                EngineState {
                    movement,
                    camera: self.camera.advanced(basis, movement, dt as int),
                    ..self
                }
            },
            _ => self,
        }
    }

    /// What is to do after `event`.
    pub open spec fn action(self, event: Event) -> Action {
        match event {
            Event::CloseRequested => Action::Exit,
            Event::Resized { width, height } => if width > 0 && height > 0 {
                Action::Reconfigure
            } else {
                Action::Wait
            },
            Event::ScaleFactorChanged { width, height } => if width > 0 && height > 0 {
                Action::Reconfigure
            } else {
                Action::Wait
            },
            Event::RedrawRequested { .. } => Action::Draw,
            Event::MainEventsCleared => Action::RequestRedraw,
            _ => Action::Wait,
        }
    }
}

/// Every event leaves a valid engine valid: the surface stays non-empty
/// with render targets of its size, the pitch stays within its limit, and
/// the camera keeps looking at a place other than where it stands. No
/// event changes the scene, and none but a change of the window's size
/// changes the renderer.
pub proof fn law_events_keep_the_engine_valid(state: EngineState, event: Event)
    requires
        state.wf(),
    ensures
        state.stepped(event).wf(),
        state.stepped(event).camera.target != state.stepped(event).camera.position,
        state.stepped(event).scene == state.scene,
        !(event is Resized) && !(event is ScaleFactorChanged) ==> state.stepped(event).renderer
            == state.renderer,
{
    match event {
        Event::MouseMotion { dx, dy } => {
            lemma_mouse_moved_wf(state.movement, dx as int, dy as int);
        },
        Event::RedrawRequested { dt, basis } => {
            lemma_integrated_wf(state.movement, dt as int);
            lemma_advanced_wf(state.camera, basis, state.movement.integrated(dt as int), dt as int);
        },
        _ => {},
    }
    lemma_target_differs_from_position(state.stepped(event).camera);
}

/// The state after several events, first event first.
pub open spec fn after_events(state: EngineState, events: Seq<Event>) -> EngineState
    decreases events.len(),
{
    if events.len() == 0 {
        state
    } else {
        after_events(state, events.drop_last()).stepped(events.last())
    }
}

/// Whatever events arrive, in whatever order, a valid engine stays valid:
/// the pitch is within its limit, the camera looks at a place other than
/// where it stands, the render targets have the size of the surface, and
/// the scene is the one that the engine started with.
pub proof fn law_engine_stays_valid(state: EngineState, events: Seq<Event>)
    requires
        state.wf(),
    ensures
        after_events(state, events).wf(),
        -PITCH_LIMIT <= after_events(state, events).movement.pitch <= PITCH_LIMIT,
        after_events(state, events).camera.target != after_events(state, events).camera.position,
        after_events(state, events).scene == state.scene,
    decreases events.len(),
{
    if events.len() > 0 {
        law_engine_stays_valid(state, events.drop_last());
        law_events_keep_the_engine_valid(after_events(state, events.drop_last()), events.last());
    } else {
        lemma_target_differs_from_position(state.camera);
    }
}

/// A change of the window's size to an empty size changes nothing at all
/// and asks for nothing.
pub proof fn law_empty_size_is_ignored(state: EngineState, width: u32, height: u32)
    requires
        width == 0 || height == 0,
    ensures
        state.stepped(Event::Resized { width, height }) == state,
        state.action(Event::Resized { width, height }) == Action::Wait,
        state.stepped(Event::ScaleFactorChanged { width, height }) == state,
        state.action(Event::ScaleFactorChanged { width, height }) == Action::Wait,
{
}

/// The engine.
#[derive(Debug)]
pub struct SchwarzEngine {
    scene: Scene,
    renderer: Renderer,
    camera_movement: CameraMovement,
    camera: Camera,
}

impl View for SchwarzEngine {
    type V = EngineState;

    closed spec fn view(&self) -> EngineState {
        EngineState {
            scene: self.scene.meshes(),
            renderer: self.renderer@,
            movement: self.camera_movement@,
            camera: self.camera@,
        }
    }
}

impl SchwarzEngine {
    /// An engine with an empty scene for a surface of the given size that
    /// offers `formats`. `sensitivity` is the turn of the camera per count
    /// of mouse motion, in microradians.
    pub fn new(sensitivity: u32, width: u32, height: u32, formats: &[wgpu::TextureFormat]) -> (engine:
        SchwarzEngine)
        requires
            width > 0,
            height > 0,
            formats@.len() > 0,
        ensures
            engine@ == (EngineState {
                scene: Seq::<MeshView>::empty(),
                renderer: state_for(preferred_format(formats@), width, height),
                movement: MovementState::initial(sensitivity as int),
                camera: initial_camera(),
            }),
            engine@.wf(),
    {
        let renderer = Renderer::new(width, height, formats);
        let scene = Scene::new();
        assert(1 * (UNIT as int) != 0 * 0) by (nonlinear_arith);
        let camera = Camera::new(
            Vector3 { x: 5 * UNIT, y: 5 * UNIT, z: 2 * UNIT },
            Vector3 { x: 0, y: 0, z: 0 },
            Vector3 { x: 0, y: UNIT, z: 0 },
            INITIAL_FOV,
            INITIAL_NEAR,
            INITIAL_FAR,
        );
        let engine = SchwarzEngine {
            scene,
            renderer,
            camera_movement: CameraMovement::new(sensitivity),
            camera,
        };
        assert(engine.scene.meshes() =~= Seq::<MeshView>::empty());
        engine
    }

    /// Adds an object behind those that the scene already holds.
    pub fn add_object_to_scene<O: Object>(&mut self, obj: O)
        ensures
            final(self)@ == (EngineState { scene: old(self)@.scene.push(obj.mesh()), ..old(self)@ }),
    {
        let object = obj.to_object3d();
        self.scene.add_object(object);
        assert(self.scene.meshes() =~= old(self).scene.meshes().push(obj.mesh()));
    }

    /// Handles one event and tells what is to do next.
    pub fn render(&mut self, event: Event) -> (action: Action)
        ensures
            final(self)@ == old(self)@.stepped(event),
            action == old(self)@.action(event),
    {
        match event {
            Event::MouseMotion { dx, dy } => {
                self.camera_movement.mouse_motion(dx, dy);
                Action::Wait
            },
            Event::CloseRequested => Action::Exit,
            Event::Resized { width, height } => {
                if self.renderer.resize(width, height) {
                    Action::Reconfigure
                } else {
                    Action::Wait
                }
            },
            Event::ScaleFactorChanged { width, height } => {
                if self.renderer.resize(width, height) {
                    Action::Reconfigure
                } else {
                    Action::Wait
                }
            },
            Event::MouseInput { button, pressed } => {
                self.camera_movement.mouse_input(button, pressed);
                Action::Wait
            },
            Event::KeyboardInput { key, pressed } => {
                match key {
                    Some(key) => {
                        self.camera_movement.keyboard_input(key, pressed);
                    },
                    None => {},
                }
                Action::Wait
            },
            Event::RedrawRequested { dt, basis } => {
                self.camera_movement.integrate(dt);
                let _ = self.camera.advance(&basis, &self.camera_movement, dt);
                Action::Draw
            },
            Event::MainEventsCleared => Action::RequestRedraw,
            Event::Other => Action::Wait,
        }
    }

    /// Plans the frame that `Action::Draw` asks for. `mvps` holds, for each
    /// object of the scene in order, its combined model-view-projection
    /// matrix.
    pub fn frame(&self, mvps: &[Mat4]) -> (frame: Frame)
        requires
            mvps@.len() == self@.scene.len(),
        ensures
            is_frame_of(frame, self@.scene, mvps@),
    {
        self.renderer.render(&self.scene, mvps)
    }

    /// The scene.
    pub fn scene(&self) -> (scene: &Scene)
        ensures
            scene.meshes() == self@.scene,
    {
        &self.scene
    }

    /// The renderer.
    pub fn renderer(&self) -> (renderer: &Renderer)
        ensures
            renderer@ == self@.renderer,
    {
        &self.renderer
    }

    /// The controller of the camera.
    pub fn camera_movement(&self) -> (movement: &CameraMovement)
        ensures
            movement@ == self@.movement,
    {
        &self.camera_movement
    }

    /// The camera.
    pub fn camera(&self) -> (camera: &Camera)
        ensures
            camera@ == self@.camera,
    {
        &self.camera
    }
}

} // verus!
