//! The camera: where it stands, what it looks at, and how it moves.
//!
//! Places are whole numbers of millionths of a world unit. Directions are
//! vectors whose length is about `UNIT`.

use vstd::prelude::*;
use vstd::arithmetic::div_mod::lemma_fundamental_div_mod_converse;
use crate::movement::{clamp, CameraMovement, MovementState, HALF_TURN};

verus! {

/// The length of a direction: one world unit in millionths.
pub const UNIT: i64 = 1_000_000;

/// The farthest that the camera goes along each axis; from there a step
/// along any direction still is a place.
pub const POSITION_LIMIT: i64 = 0x7FFF_FFFF_7FFF_FFFF;

/// The divisor that turns direction times speed times microseconds into a
/// distance.
pub const DISTANCE_SCALE: i128 = 1_000_000_000_000;

/// A place in the world, or a vector between two places.
#[derive(Clone, Copy, Debug, PartialEq, Eq)]
pub struct Vector3 {
    pub x: i64,
    pub y: i64,
    pub z: i64,
}

/// A direction.
#[derive(Clone, Copy, Debug, PartialEq, Eq)]
pub struct Direction {
    pub x: i32,
    pub y: i32,
    pub z: i32,
}

/// The three directions along which the camera moves.
#[derive(Clone, Copy, Debug, PartialEq, Eq)]
pub struct Basis {
    /// Along the line of sight.
    pub front: Direction,
    /// To the right of the line of sight.
    pub right: Direction,
    /// Upward, at right angles to the other two.
    pub up: Direction,
}

/// Whether two vectors are parallel, which is the case when their cross
/// product vanishes. The zero vector is parallel to every vector.
pub open spec fn parallel(ax: int, ay: int, az: int, bx: int, by: int, bz: int) -> bool {
    &&& ay * bz == az * by
    &&& az * bx == ax * bz
    &&& ax * by == ay * bx
}

/// The distance covered along one axis of the world in `dt` microseconds,
/// given the parts of the three directions along that axis and the speed
/// along each direction, rounded down.
pub open spec fn displacement(
    front: int,
    right: int,
    up: int,
    forward_speed: int,
    right_speed: int,
    up_speed: int,
    dt: int,
) -> int {
    (front * forward_speed + right * right_speed + up * up_speed) * dt / (DISTANCE_SCALE as int)
}

/// The place along one axis of the world after moving for `dt`
/// microseconds from `position` with the speeds of `movement`, given the
/// parts of the three directions along that axis. The place is held within
/// the position limit.
pub open spec fn moved_along(
    position: i64,
    front: i32,
    right: i32,
    up: i32,
    movement: MovementState,
    dt: int,
) -> int {
    clamp(
        position + displacement(
            front as int,
            right as int,
            up as int,
            movement.velocity_forward,
            movement.velocity_right,
            movement.velocity_up,
            dt,
        ),
        -POSITION_LIMIT,
        POSITION_LIMIT as int,
    )
}

/// What the camera holds.
#[derive(Clone, Copy, Debug, PartialEq, Eq)]
pub struct CameraState {
    /// Where the camera stands.
    pub position: Vector3,
    /// The place that the camera looks at.
    pub target: Vector3,
    /// The vector that the camera takes for upward.
    pub up: Vector3,
    /// The vertical field of view, in nanoradians.
    pub fov: u32,
    /// The distance of the near clip plane.
    pub near: u64,
    /// The distance of the far clip plane.
    pub far: u64,
}

impl CameraState {
    /// The camera defines a view: it does not look along its up vector, let
    /// alone at the place where it stands; the near plane lies in front of
    /// it and the far plane behind the near plane; the field of view is
    /// more than nothing and less than half a turn.
    pub open spec fn wf(self) -> bool {
        &&& !parallel(
            self.target.x - self.position.x,
            self.target.y - self.position.y,
            self.target.z - self.position.z,
            self.up.x as int,
            self.up.y as int,
            self.up.z as int,
        )
        &&& 0 < self.near < self.far
        &&& 0 < self.fov <= HALF_TURN
    }

    /// Whether the camera can look along `front`: not along its up vector.
    pub open spec fn accepts(self, front: Direction) -> bool {
        !parallel(
            front.x as int,
            front.y as int,
            front.z as int,
            self.up.x as int,
            self.up.y as int,
            self.up.z as int,
        )
    }

    /// Where the camera stands after moving for `dt` microseconds along
    /// `basis` with the speeds of `movement`.
    pub open spec fn moved(self, basis: Basis, movement: MovementState, dt: int) -> Vector3 {
        Vector3 {
            x: moved_along(
                self.position.x,
                basis.front.x,
                basis.right.x,
                basis.up.x,
                movement,
                dt,
            ) as i64,
            y: moved_along(
                self.position.y,
                basis.front.y,
                basis.right.y,
                basis.up.y,
                movement,
                dt,
            ) as i64,
            z: moved_along(
                self.position.z,
                basis.front.z,
                basis.right.z,
                basis.up.z,
                movement,
                dt,
            ) as i64,
        }
    }

    /// The camera after `dt` microseconds. Where it cannot look along the
    /// front of `basis`, it stays as it is. Else it moves along `basis`
    /// with the speeds of `movement`, and looks at the place one front
    /// vector ahead of where it then stands.
    pub open spec fn advanced(self, basis: Basis, movement: MovementState, dt: int) -> CameraState {
        if self.accepts(basis.front) {
            let position = self.moved(basis, movement, dt);
            CameraState {
                position,
                target: Vector3 {
                    x: (position.x + basis.front.x) as i64,
                    y: (position.y + basis.front.y) as i64,
                    z: (position.z + basis.front.z) as i64,
                },
                ..self
            }
        } else {
            self
        }
    }
}

/// Advancing a camera that defines a view gives a camera that defines a
/// view, whatever the directions, the speeds and the time.
pub proof fn lemma_advanced_wf(state: CameraState, basis: Basis, movement: MovementState, dt: int)
    requires
        state.wf(),
    ensures
        state.advanced(basis, movement, dt).wf(),
{
}

/// A camera that defines a view never looks at the place where it stands.
pub proof fn lemma_target_differs_from_position(state: CameraState)
    requires
        state.wf(),
    ensures
        state.target != state.position,
{
    if state.target == state.position {
        assert(0 * (state.up.z as int) == 0 * (state.up.y as int)) by (nonlinear_arith);
        assert(0 * (state.up.x as int) == 0 * (state.up.z as int)) by (nonlinear_arith);
        assert(0 * (state.up.y as int) == 0 * (state.up.x as int)) by (nonlinear_arith);
    }
}

/// After every step of the camera, the target and the position differ:
/// either the camera stayed as it was, or the target lies one front vector
/// ahead of the position, and the front vector is not zero.
pub proof fn law_advanced_target_differs_from_position(
    state: CameraState,
    basis: Basis,
    movement: MovementState,
    dt: int,
)
    requires
        state.wf(),
    ensures
        state.advanced(basis, movement, dt).target != state.advanced(basis, movement, dt).position,
        state.accepts(basis.front) ==> {
            let after = state.advanced(basis, movement, dt);
            &&& after.target.x - after.position.x == basis.front.x
            &&& after.target.y - after.position.y == basis.front.y
            &&& after.target.z - after.position.z == basis.front.z
        },
{
    lemma_advanced_wf(state, basis, movement, dt);
    lemma_target_differs_from_position(state.advanced(basis, movement, dt));
}

/// Tells whether two vectors are parallel.
fn is_parallel(ax: i128, ay: i128, az: i128, bx: i128, by: i128, bz: i128) -> (p: bool)
    requires
        -0x1_0000_0000_0000_0000 < ax < 0x1_0000_0000_0000_0000,
        -0x1_0000_0000_0000_0000 < ay < 0x1_0000_0000_0000_0000,
        -0x1_0000_0000_0000_0000 < az < 0x1_0000_0000_0000_0000,
        -0x8000_0000_0000_0000 <= bx < 0x8000_0000_0000_0000,
        -0x8000_0000_0000_0000 <= by < 0x8000_0000_0000_0000,
        -0x8000_0000_0000_0000 <= bz < 0x8000_0000_0000_0000,
    ensures
        p == parallel(ax as int, ay as int, az as int, bx as int, by as int, bz as int),
{
    proof {
        lemma_product_fits(ay as int, bz as int);
        lemma_product_fits(az as int, by as int);
        lemma_product_fits(az as int, bx as int);
        lemma_product_fits(ax as int, bz as int);
        lemma_product_fits(ax as int, by as int);
        lemma_product_fits(ay as int, bx as int);
    }
    ay * bz == az * by && az * bx == ax * bz && ax * by == ay * bx
}

/// The product of a difference of two places and a part of a vector is
/// small enough to compute with.
proof fn lemma_product_fits(a: int, b: int)
    requires
        -0x1_0000_0000_0000_0000 < a < 0x1_0000_0000_0000_0000,
        -0x8000_0000_0000_0000 <= b < 0x8000_0000_0000_0000,
    ensures
        -0x8000_0000_0000_0000_0000_0000_0000_0000 < a * b
            < 0x8000_0000_0000_0000_0000_0000_0000_0000,
{
    assert(-0x8000_0000_0000_0000_0000_0000_0000_0000 < a * b
        < 0x8000_0000_0000_0000_0000_0000_0000_0000) by (nonlinear_arith)
        requires
            -0x1_0000_0000_0000_0000 < a < 0x1_0000_0000_0000_0000,
            -0x8000_0000_0000_0000 <= b < 0x8000_0000_0000_0000,
    ;
}

/// Divides by the distance scale, rounding down.
fn scale_down(n: i128) -> (q: i128)
    requires
        -0x4000_0000_0000_0000_0000_0000_0000_0000 < n < 0x4000_0000_0000_0000_0000_0000_0000_0000,
    ensures
        q == n as int / (DISTANCE_SCALE as int),
        -0x4000_0000_0000_0000_0000_0000_0000_0000 < q < 0x4000_0000_0000_0000_0000_0000_0000_0000,
{
    if n >= 0 {
        n / DISTANCE_SCALE
    } else {
        let m: i128 = -n - 1;
        let below: i128 = m / DISTANCE_SCALE;
        proof {
            let d = DISTANCE_SCALE as int;
            let r = m as int % d;
            assert(m as int == d * (m as int / d) + r && 0 <= r < d) by {
                vstd::arithmetic::div_mod::lemma_fundamental_div_mod(m as int, d);
                vstd::arithmetic::div_mod::lemma_mod_bound(m as int, d);
            }
            assert(n as int == (-below - 1) * d + (d - r - 1)) by (nonlinear_arith)
                requires
                    n as int == -(m as int) - 1,
                    m as int == d * (below as int) + r,
            ;
            lemma_fundamental_div_mod_converse(n as int, d, -below - 1, d - r - 1);
        }
        -below - 1
    }
}

/// The place along one axis after the camera moved.
fn move_along(
    position: i64,
    front: i32,
    right: i32,
    up: i32,
    forward_speed: i64,
    right_speed: i64,
    up_speed: i64,
    dt: u32,
) -> (moved: i64)
    requires
        -0xFFFF_FFFF <= forward_speed <= 0xFFFF_FFFF,
        -0xFFFF_FFFF <= right_speed <= 0xFFFF_FFFF,
        -0xFFFF_FFFF <= up_speed <= 0xFFFF_FFFF,
    ensures
        moved == clamp(
            position + displacement(
                front as int,
                right as int,
                up as int,
                forward_speed as int,
                right_speed as int,
                up_speed as int,
                dt as int,
            ),
            -POSITION_LIMIT,
            POSITION_LIMIT as int,
        ),
        -POSITION_LIMIT <= moved <= POSITION_LIMIT,
{
    proof {
        lemma_speed_fits(front as int, forward_speed as int);
        lemma_speed_fits(right as int, right_speed as int);
        lemma_speed_fits(up as int, up_speed as int);
    }
    let speed: i128 = front as i128 * forward_speed as i128 + right as i128 * right_speed as i128
        + up as i128 * up_speed as i128;
    assert(-0x2_0000_0000_0000_0000_0000_0000 < speed * dt < 0x2_0000_0000_0000_0000_0000_0000)
        by (nonlinear_arith)
        requires
            -0x2_0000_0000_0000_0000 < speed < 0x2_0000_0000_0000_0000,
            0 <= dt < 0x1_0000_0000,
    ;
    let distance: i128 = scale_down(speed * dt as i128);
    let moved: i128 = position as i128 + distance;
    if moved < -(POSITION_LIMIT as i128) {
        -POSITION_LIMIT
    } else if moved > POSITION_LIMIT as i128 {
        POSITION_LIMIT
    } else {
        moved as i64
    }
}

/// The product of a part of a direction and a speed is small.
proof fn lemma_speed_fits(part: int, speed: int)
    requires
        -0x8000_0000 <= part < 0x8000_0000,
        -0xFFFF_FFFF <= speed <= 0xFFFF_FFFF,
    ensures
        -0x8000_0000_0000_0000 < part * speed < 0x8000_0000_0000_0000,
{
    assert(-0x8000_0000_0000_0000 < part * speed < 0x8000_0000_0000_0000) by (nonlinear_arith)
        requires
            -0x8000_0000 <= part < 0x8000_0000,
            -0xFFFF_FFFF <= speed <= 0xFFFF_FFFF,
    ;
}

/// The camera. Every camera defines a view.
#[derive(Clone, Copy, Debug, PartialEq, Eq)]
pub struct Camera {
    state: CameraState,
}

impl View for Camera {
    type V = CameraState;

    closed spec fn view(&self) -> CameraState {
        self.state
    }
}

impl Camera {
    #[verifier::type_invariant]
    spec fn inv(&self) -> bool {
        self.state.wf()
    }

    /// Tells whether a camera with these values defines a view.
    pub fn is_valid(state: &CameraState) -> (valid: bool)
        ensures
            valid == state.wf(),
    {
        let looks_along_up = is_parallel(
            state.target.x as i128 - state.position.x as i128,
            state.target.y as i128 - state.position.y as i128,
            state.target.z as i128 - state.position.z as i128,
            state.up.x as i128,
            state.up.y as i128,
            state.up.z as i128,
        );
        !looks_along_up && 0 < state.near && state.near < state.far && 0 < state.fov
            && state.fov as i64 <= HALF_TURN
    }

    /// A camera that stands at `position` and looks at `target`.
    pub fn new(position: Vector3, target: Vector3, up: Vector3, fov: u32, near: u64, far: u64) -> (camera: Camera)
        requires
            (CameraState { position, target, up, fov, near, far }).wf(),
        ensures
            camera@ == (CameraState { position, target, up, fov, near, far }),
            camera@.wf(),
    {
        Camera { state: CameraState { position, target, up, fov, near, far } }
    }

    /// What the camera holds at present.
    pub fn state(&self) -> (state: CameraState)
        ensures
            state == self@,
            state.wf(),
            state.target != state.position,
    {
        proof {
            use_type_invariant(self);
            lemma_target_differs_from_position(self.state);
        }
        self.state
    }

    /// Moves the camera for `dt` microseconds along `basis` with the speeds
    /// of `movement`, and turns it to look along the front of `basis`. The
    /// result tells whether the camera could look that way; where it could
    /// not, it stays as it is.
    pub fn advance(&mut self, basis: &Basis, movement: &CameraMovement, dt: u32) -> (moved: bool)
        ensures
            final(self)@ == old(self)@.advanced(*basis, movement@, dt as int),
            moved == old(self)@.accepts(basis.front),
            final(self)@.wf(),
            final(self)@.target != final(self)@.position,
    {
        proof {
            use_type_invariant(&*self);
            law_advanced_target_differs_from_position(self.state, *basis, movement@, dt as int);
        }
        let looks_along_up = is_parallel(
            basis.front.x as i128,
            basis.front.y as i128,
            basis.front.z as i128,
            self.state.up.x as i128,
            self.state.up.y as i128,
            self.state.up.z as i128,
        );
        if looks_along_up {
            return false;
        }
        let forward_speed = movement.velocity_forward();
        let right_speed = movement.velocity_right();
        let up_speed = movement.velocity_up();
        let x = move_along(
            self.state.position.x,
            basis.front.x,
            basis.right.x,
            basis.up.x,
            forward_speed,
            right_speed,
            up_speed,
            dt,
        );
        let y = move_along(
            self.state.position.y,
            basis.front.y,
            basis.right.y,
            basis.up.y,
            forward_speed,
            right_speed,
            up_speed,
            dt,
        );
        let z = move_along(
            self.state.position.z,
            basis.front.z,
            basis.right.z,
            basis.up.z,
            forward_speed,
            right_speed,
            up_speed,
            dt,
        );
        let state = CameraState {
            position: Vector3 { x, y, z },
            target: Vector3 {
                x: x + basis.front.x as i64,
                y: y + basis.front.y as i64,
                z: z + basis.front.z as i64,
            },
            ..self.state
        };
        self.state = state;
        true
    }
}

} // verus!
