//! The camera controller: where the camera looks and how fast it moves.
//!
//! All quantities are whole numbers of small units, so that every step is
//! exact: angles in nanoradians, time in microseconds, speed in millionths
//! of a world unit per second.

use vstd::prelude::*;
use vstd::arithmetic::div_mod::{lemma_mod_bound, lemma_mod_multiples_vanish};

verus! {

/// The steepest pitch, up or down: the largest whole number of nanoradians
/// below 89 degrees.
pub const PITCH_LIMIT: i64 = 1_553_343_034;

/// Half a turn: the largest whole number of nanoradians below π.
pub const HALF_TURN: i64 = 3_141_592_653;

/// A full turn in nanoradians. Yaw is kept in
/// `[-HALF_TURN, FULL_TURN - HALF_TURN)`.
pub const FULL_TURN: i64 = 6_283_185_307;

/// The yaw of a new controller: a quarter turn to the left.
pub const INITIAL_YAW: i64 = -1_570_796_327;

/// The top speed along each axis of a new controller: 5 world units per
/// second.
pub const MOVE_SPEED: u32 = 5_000_000;

/// The time that a new controller takes from rest to top speed, and back:
/// a quarter of a second.
pub const ACCELERATION_TIME: u32 = 250_000;

/// A key of the keyboard, as far as the controller tells keys apart.
#[derive(Clone, Copy, Debug, PartialEq, Eq)]
pub enum Key {
    /// Moves forward.
    W,
    /// Moves backward.
    S,
    /// Moves left.
    A,
    /// Moves right.
    D,
    /// Moves up.
    Space,
    /// Moves down.
    LShift,
    /// Any other key.
    Other,
}

/// A button of the mouse.
#[derive(Clone, Copy, Debug, PartialEq, Eq)]
pub enum MouseButton {
    /// The button that, while held, lets the mouse turn the camera.
    Left,
    /// Any other button.
    Other,
}

/// What the controller holds, as mathematical values.
pub struct MovementState {
    /// The heading, in nanoradians.
    pub yaw: int,
    /// The elevation of the line of sight, in nanoradians.
    pub pitch: int,
    /// The turn per count of mouse motion, in microradians.
    pub sensitivity: int,
    /// The top speed along each axis.
    pub move_speed: int,
    /// The time from rest to top speed, in microseconds.
    pub acceleration_time: int,
    /// The change of speed per microsecond.
    pub acceleration: int,
    pub velocity_forward: int,
    pub velocity_right: int,
    pub velocity_up: int,
    pub moving_forward: bool,
    pub moving_backward: bool,
    pub moving_left: bool,
    pub moving_right: bool,
    pub moving_up: bool,
    pub moving_down: bool,
    /// Whether mouse motion turns the camera.
    pub mouse_captured: bool,
}

/// The angle in `[-HALF_TURN, FULL_TURN - HALF_TURN)` that differs from
/// `angle` by whole turns.
pub open spec fn wrap_angle(angle: int) -> int {
    (angle + HALF_TURN) % (FULL_TURN as int) - HALF_TURN
}

/// `value`, held within `[low, high]`.
pub open spec fn clamp(value: int, low: int, high: int) -> int {
    if value < low {
        low
    } else if value > high {
        high
    } else {
        value
    }
}

/// The speed along one axis after a step in which the speed can change by
/// `change`: towards `top` while the key of the positive direction is held,
/// else towards `-top` while the key of the negative direction is held,
/// else towards rest, and never past the value that it heads for.
pub open spec fn axis_step(velocity: int, positive: bool, negative: bool, change: int, top: int) -> int {
    if positive {
        if velocity + change < top { velocity + change } else { top }
    } else if negative {
        if velocity - change > -top { velocity - change } else { -top }
    } else if velocity > 0 {
        if velocity - change > 0 { velocity - change } else { 0 }
    } else {
        if velocity + change < 0 { velocity + change } else { 0 }
    }
}

impl MovementState {
    /// The state is one that a controller can be in.
    pub open spec fn wf(self) -> bool {
        &&& -HALF_TURN <= self.yaw < FULL_TURN - HALF_TURN
        &&& -PITCH_LIMIT <= self.pitch <= PITCH_LIMIT
        &&& 0 <= self.sensitivity <= u32::MAX
        &&& 0 <= self.move_speed <= u32::MAX
        &&& 0 < self.acceleration_time <= u32::MAX
        &&& self.acceleration == self.move_speed / self.acceleration_time
        &&& -self.move_speed <= self.velocity_forward <= self.move_speed
        &&& -self.move_speed <= self.velocity_right <= self.move_speed
        &&& -self.move_speed <= self.velocity_up <= self.move_speed
    }

    /// The state of a new controller with the given sensitivity: looking
    /// level, a quarter turn to the left, at rest, no key held.
    pub open spec fn initial(sensitivity: int) -> MovementState {
        MovementState {
            yaw: INITIAL_YAW as int,
            pitch: 0,
            sensitivity,
            move_speed: MOVE_SPEED as int,
            acceleration_time: ACCELERATION_TIME as int,
            acceleration: MOVE_SPEED as int / ACCELERATION_TIME as int,
            velocity_forward: 0,
            velocity_right: 0,
            velocity_up: 0,
            moving_forward: false,
            moving_backward: false,
            moving_left: false,
            moving_right: false,
            moving_up: false,
            moving_down: false,
            mouse_captured: false,
        }
    }

    /// The state after the mouse moved by `dx` to the right and `dy` down,
    /// both in thousandths of a count. Unless mouse motion is captured,
    /// nothing changes. Else the yaw turns by `dx` times the sensitivity,
    /// and the pitch by `-dy` times the sensitivity, held within the pitch
    /// limit.
    pub open spec fn mouse_moved(self, dx: int, dy: int) -> MovementState {
        if self.mouse_captured {
            MovementState {
                yaw: wrap_angle(self.yaw + dx * self.sensitivity),
                pitch: clamp(self.pitch - dy * self.sensitivity, -PITCH_LIMIT, PITCH_LIMIT as int),
                ..self
            }
        } else {
            self
        }
    }

    /// The state after a mouse button went down or up: the left button
    /// captures mouse motion while it is down.
    pub open spec fn mouse_button(self, button: MouseButton, pressed: bool) -> MovementState {
        match button {
            MouseButton::Left => MovementState { mouse_captured: pressed, ..self },
            MouseButton::Other => self,
        }
    }

    /// The state after a key went down or up: each of the six movement keys
    /// moves the camera in its direction while it is down.
    pub open spec fn key(self, key: Key, pressed: bool) -> MovementState {
        match key {
            Key::W => MovementState { moving_forward: pressed, ..self },
            Key::S => MovementState { moving_backward: pressed, ..self },
            Key::A => MovementState { moving_left: pressed, ..self },
            Key::D => MovementState { moving_right: pressed, ..self },
            Key::Space => MovementState { moving_up: pressed, ..self },
            Key::LShift => MovementState { moving_down: pressed, ..self },
            Key::Other => self,
        }
    }

    /// The state after `dt` microseconds went by: the speed along each axis
    /// took one step with a change of `acceleration * dt`.
    pub open spec fn integrated(self, dt: int) -> MovementState {
        let change = self.acceleration * dt;
        MovementState {
            velocity_forward: axis_step(
                self.velocity_forward,
                self.moving_forward,
                self.moving_backward,
                change,
                self.move_speed,
            ),
            velocity_right: axis_step(
                self.velocity_right,
                self.moving_right,
                self.moving_left,
                change,
                self.move_speed,
            ),
            velocity_up: axis_step(
                self.velocity_up,
                self.moving_up,
                self.moving_down,
                change,
                self.move_speed,
            ),
            ..self
        }
    }
}

/// The state after the mouse moved several times, first motion first.
pub open spec fn after_mouse_motions(state: MovementState, motions: Seq<(int, int)>) -> MovementState
    decreases motions.len(),
{
    if motions.len() == 0 {
        state
    } else {
        after_mouse_motions(state, motions.drop_last()).mouse_moved(
            motions.last().0,
            motions.last().1,
        )
    }
}

/// The speed along one axis after several steps, first step first, while
/// the same keys stay held.
pub open spec fn axis_after(
    velocity: int,
    positive: bool,
    negative: bool,
    acceleration: int,
    top: int,
    dts: Seq<int>,
) -> int
    decreases dts.len(),
{
    if dts.len() == 0 {
        velocity
    } else {
        axis_step(
            axis_after(velocity, positive, negative, acceleration, top, dts.drop_last()),
            positive,
            negative,
            acceleration * dts.last(),
            top,
        )
    }
}

/// The state after several steps of time, first step first.
pub open spec fn after_steps(state: MovementState, dts: Seq<int>) -> MovementState
    decreases dts.len(),
{
    if dts.len() == 0 {
        state
    } else {
        after_steps(state, dts.drop_last()).integrated(dts.last())
    }
}

/// The sum of the steps.
pub open spec fn total(dts: Seq<int>) -> int
    decreases dts.len(),
{
    if dts.len() == 0 {
        0
    } else {
        total(dts.drop_last()) + dts.last()
    }
}

/// A mouse motion leaves a valid state valid, however far the mouse moved.
pub proof fn lemma_mouse_moved_wf(state: MovementState, dx: int, dy: int)
    requires
        state.wf(),
    ensures
        state.mouse_moved(dx, dy).wf(),
{
    lemma_mod_bound(state.yaw + dx * state.sensitivity + HALF_TURN, FULL_TURN as int);
}

/// A step of time leaves a valid state valid.
pub proof fn lemma_integrated_wf(state: MovementState, dt: int)
    requires
        state.wf(),
        0 <= dt,
    ensures
        state.integrated(dt).wf(),
{
    assert(0 <= state.acceleration * dt) by (nonlinear_arith)
        requires
            0 <= state.acceleration,
            0 <= dt,
    ;
}

/// The pitch stays within the limit, which is below 89 degrees, after any
/// sequence of mouse motions of any size.
pub proof fn law_pitch_stays_within_limit(state: MovementState, motions: Seq<(int, int)>)
    requires
        state.wf(),
    ensures
        after_mouse_motions(state, motions).wf(),
        -PITCH_LIMIT <= after_mouse_motions(state, motions).pitch <= PITCH_LIMIT,
    decreases motions.len(),
{
    if motions.len() > 0 {
        law_pitch_stays_within_limit(state, motions.drop_last());
        lemma_mouse_moved_wf(
            after_mouse_motions(state, motions.drop_last()),
            motions.last().0,
            motions.last().1,
        );
    }
}

/// Steps of time change nothing but the three speeds, and each speed goes
/// its own way.
pub proof fn lemma_after_steps_axes(state: MovementState, dts: Seq<int>)
    ensures
        after_steps(state, dts) == (MovementState {
            velocity_forward: axis_after(
                state.velocity_forward,
                state.moving_forward,
                state.moving_backward,
                state.acceleration,
                state.move_speed,
                dts,
            ),
            velocity_right: axis_after(
                state.velocity_right,
                state.moving_right,
                state.moving_left,
                state.acceleration,
                state.move_speed,
                dts,
            ),
            velocity_up: axis_after(
                state.velocity_up,
                state.moving_up,
                state.moving_down,
                state.acceleration,
                state.move_speed,
                dts,
            ),
            ..state
        }),
    decreases dts.len(),
{
    if dts.len() > 0 {
        lemma_after_steps_axes(state, dts.drop_last());
    }
}

/// While the key of the positive direction is held, a speed that is not
/// negative grows by the acceleration times the time that went by, up to
/// the top speed.
pub proof fn lemma_held_key_closed_form(velocity: int, negative: bool, acceleration: int, top: int, dts: Seq<int>)
    requires
        0 <= velocity <= top,
        0 <= acceleration,
        forall|i: int| 0 <= i < dts.len() ==> 0 <= dts[i],
    ensures
        0 <= total(dts),
        axis_after(velocity, true, negative, acceleration, top, dts) == if velocity + acceleration
            * total(dts) < top {
            velocity + acceleration * total(dts)
        } else {
            top
        },
    decreases dts.len(),
{
    if dts.len() > 0 {
        let before = dts.drop_last();
        lemma_held_key_closed_form(velocity, negative, acceleration, top, before);
        assert(acceleration * total(dts) == acceleration * total(before) + acceleration
            * dts.last() && 0 <= acceleration * dts.last()) by (nonlinear_arith)
            requires
                total(dts) == total(before) + dts.last(),
                0 <= acceleration,
                0 <= dts.last(),
        ;
    } else {
        assert(acceleration * 0 == 0) by (nonlinear_arith);
    }
}

/// While no key of an axis is held, a speed that is not negative shrinks by
/// the acceleration times the time that went by, down to rest.
pub proof fn lemma_released_closed_form(velocity: int, acceleration: int, top: int, dts: Seq<int>)
    requires
        0 <= velocity <= top,
        0 <= acceleration,
        forall|i: int| 0 <= i < dts.len() ==> 0 <= dts[i],
    ensures
        0 <= total(dts),
        axis_after(velocity, false, false, acceleration, top, dts) == if velocity - acceleration
            * total(dts) > 0 {
            velocity - acceleration * total(dts)
        } else {
            0
        },
    decreases dts.len(),
{
    if dts.len() > 0 {
        let before = dts.drop_last();
        lemma_released_closed_form(velocity, acceleration, top, before);
        assert(acceleration * total(dts) == acceleration * total(before) + acceleration
            * dts.last() && 0 <= acceleration * dts.last()) by (nonlinear_arith)
            requires
                total(dts) == total(before) + dts.last(),
                0 <= acceleration,
                0 <= dts.last(),
        ;
    } else {
        assert(acceleration * 0 == 0) by (nonlinear_arith);
    }
}

/// Holding the forward key for the acceleration time, in steps of any
/// length, brings the forward speed from rest, or from any forward speed,
/// to the top speed exactly, where the top speed is a whole multiple of the
/// acceleration time.
pub proof fn law_forward_key_reaches_top_speed(state: MovementState, dts: Seq<int>)
    requires
        state.wf(),
        state.acceleration * state.acceleration_time == state.move_speed,
        state.moving_forward,
        0 <= state.velocity_forward,
        forall|i: int| 0 <= i < dts.len() ==> 0 <= dts[i],
        total(dts) >= state.acceleration_time,
    ensures
        after_steps(state, dts).velocity_forward == state.move_speed,
{
    lemma_after_steps_axes(state, dts);
    lemma_held_key_closed_form(
        state.velocity_forward,
        state.moving_backward,
        state.acceleration,
        state.move_speed,
        dts,
    );
    assert(state.acceleration * total(dts) >= state.acceleration * state.acceleration_time)
        by (nonlinear_arith)
        requires
            0 <= state.acceleration,
            total(dts) >= state.acceleration_time,
    ;
}

/// Letting go of both keys of the forward axis for the acceleration time,
/// in steps of any length, brings any forward speed down to rest exactly,
/// where the top speed is a whole multiple of the acceleration time.
pub proof fn law_released_keys_decay_to_rest(state: MovementState, dts: Seq<int>)
    requires
        state.wf(),
        state.acceleration * state.acceleration_time == state.move_speed,
        !state.moving_forward,
        !state.moving_backward,
        0 <= state.velocity_forward,
        forall|i: int| 0 <= i < dts.len() ==> 0 <= dts[i],
        total(dts) >= state.acceleration_time,
    ensures
        after_steps(state, dts).velocity_forward == 0,
{
    lemma_after_steps_axes(state, dts);
    lemma_released_closed_form(state.velocity_forward, state.acceleration, state.move_speed, dts);
    assert(state.acceleration * total(dts) >= state.acceleration * state.acceleration_time)
        by (nonlinear_arith)
        requires
            0 <= state.acceleration,
            total(dts) >= state.acceleration_time,
    ;
}

/// The controller of the camera.
#[derive(Clone, Copy, Debug, PartialEq, Eq)]
pub struct CameraMovement {
    yaw: i64,
    pitch: i64,
    sensitivity: u32,
    move_speed: u32,
    acceleration_time: u32,
    acceleration: u32,
    velocity_forward: i64,
    velocity_right: i64,
    velocity_up: i64,
    moving_forward: bool,
    moving_backward: bool,
    moving_left: bool,
    moving_right: bool,
    moving_up: bool,
    moving_down: bool,
    mouse_captured: bool,
}

impl View for CameraMovement {
    type V = MovementState;

    closed spec fn view(&self) -> MovementState {
        MovementState {
            yaw: self.yaw as int,
            pitch: self.pitch as int,
            sensitivity: self.sensitivity as int,
            move_speed: self.move_speed as int,
            acceleration_time: self.acceleration_time as int,
            acceleration: self.acceleration as int,
            velocity_forward: self.velocity_forward as int,
            velocity_right: self.velocity_right as int,
            velocity_up: self.velocity_up as int,
            moving_forward: self.moving_forward,
            moving_backward: self.moving_backward,
            moving_left: self.moving_left,
            moving_right: self.moving_right,
            moving_up: self.moving_up,
            moving_down: self.moving_down,
            mouse_captured: self.mouse_captured,
        }
    }
}

/// Brings an angle into `[-HALF_TURN, FULL_TURN - HALF_TURN)`.
fn wrap(angle: i128) -> (wrapped: i64)
    requires
        -0x1_0000_0000_0000_0000 <= angle <= 0x1_0000_0000_0000_0000,
    ensures
        wrapped == wrap_angle(angle as int),
        -HALF_TURN <= wrapped < FULL_TURN - HALF_TURN,
{
    // 6_000_000_000 full turns are more than 2^64 nanoradians.
    let turns: i128 = 6_000_000_000;
    let full: i128 = FULL_TURN as i128;
    let shifted: i128 = angle + HALF_TURN as i128 + turns * full;
    let rest: i128 = shifted % full;
    proof {
        lemma_mod_multiples_vanish(turns as int, angle + HALF_TURN, full as int);
        lemma_mod_bound(angle + HALF_TURN, full as int);
        assert(full * turns + (angle + HALF_TURN) == shifted);
    }
    (rest - HALF_TURN as i128) as i64
}

/// The speed along one axis after one step.
fn step_axis(velocity: i64, positive: bool, negative: bool, change: u64, top: u32) -> (next: i64)
    requires
        -top <= velocity <= top,
    ensures
        next == axis_step(velocity as int, positive, negative, change as int, top as int),
        -top <= next <= top,
{
    let v: i128 = velocity as i128;
    let c: i128 = change as i128;
    let t: i128 = top as i128;
    let next: i128 = if positive {
        if v + c < t { v + c } else { t }
    } else if negative {
        if v - c > -t { v - c } else { -t }
    } else if v > 0 {
        if v - c > 0 { v - c } else { 0 }
    } else {
        if v + c < 0 { v + c } else { 0 }
    };
    next as i64
}

impl CameraMovement {
    #[verifier::type_invariant]
    spec fn inv(&self) -> bool {
        self@.wf()
    }

    /// A controller with the given sensitivity, in microradians per count
    /// of mouse motion: looking level, at rest, no key held.
    pub fn new(sensitivity: u32) -> (movement: CameraMovement)
        ensures
            movement@ == MovementState::initial(sensitivity as int),
            movement@.wf(),
    {
        CameraMovement {
            yaw: INITIAL_YAW,
            pitch: 0,
            sensitivity,
            move_speed: MOVE_SPEED,
            acceleration_time: ACCELERATION_TIME,
            acceleration: MOVE_SPEED / ACCELERATION_TIME,
            velocity_forward: 0,
            velocity_right: 0,
            velocity_up: 0,
            moving_forward: false,
            moving_backward: false,
            moving_left: false,
            moving_right: false,
            moving_up: false,
            moving_down: false,
            mouse_captured: false,
        }
    }

    /// The heading, in nanoradians.
    pub fn yaw(&self) -> (yaw: i64)
        ensures
            yaw == self@.yaw,
            self@.wf(),
    {
        proof {
            use_type_invariant(self);
        }
        self.yaw
    }

    /// The elevation of the line of sight, in nanoradians.
    pub fn pitch(&self) -> (pitch: i64)
        ensures
            pitch == self@.pitch,
            self@.wf(),
    {
        proof {
            use_type_invariant(self);
        }
        self.pitch
    }

    /// The speed forward, negative when moving backward.
    pub fn velocity_forward(&self) -> (velocity: i64)
        ensures
            velocity == self@.velocity_forward,
            self@.wf(),
    {
        proof {
            use_type_invariant(self);
        }
        self.velocity_forward
    }

    /// The speed to the right, negative when moving left.
    pub fn velocity_right(&self) -> (velocity: i64)
        ensures
            velocity == self@.velocity_right,
            self@.wf(),
    {
        proof {
            use_type_invariant(self);
        }
        self.velocity_right
    }

    /// The speed upward, negative when moving down.
    pub fn velocity_up(&self) -> (velocity: i64)
        ensures
            velocity == self@.velocity_up,
            self@.wf(),
    {
        proof {
            use_type_invariant(self);
        }
        self.velocity_up
    }

    /// The top speed along each axis.
    pub fn move_speed(&self) -> (speed: u32)
        ensures
            speed == self@.move_speed,
    {
        self.move_speed
    }

    /// The time from rest to top speed, in microseconds.
    pub fn acceleration_time(&self) -> (time: u32)
        ensures
            time == self@.acceleration_time,
    {
        self.acceleration_time
    }

    /// Whether mouse motion turns the camera.
    pub fn mouse_captured(&self) -> (captured: bool)
        ensures
            captured == self@.mouse_captured,
    {
        self.mouse_captured
    }

    /// The mouse moved by `dx` to the right and `dy` down, both in
    /// thousandths of a count.
    pub fn mouse_motion(&mut self, dx: i32, dy: i32)
        ensures
            final(self)@ == old(self)@.mouse_moved(dx as int, dy as int),
            -PITCH_LIMIT <= final(self)@.pitch <= PITCH_LIMIT,
            final(self)@.wf(),
    {
        proof {
            use_type_invariant(&*self);
        }
        if self.mouse_captured {
            let s: i128 = self.sensitivity as i128;
            assert(-0x8000_0000_0000_0000 <= dx * s <= 0x8000_0000_0000_0000
                && -0x8000_0000_0000_0000 <= dy * s <= 0x8000_0000_0000_0000) by (nonlinear_arith)
                requires
                    -0x8000_0000 <= dx <= 0x8000_0000,
                    -0x8000_0000 <= dy <= 0x8000_0000,
                    0 <= s <= 0x1_0000_0000,
            ;
            let turned: i128 = self.yaw as i128 + dx as i128 * s;
            let tilted: i128 = self.pitch as i128 - dy as i128 * s;
            self.yaw = wrap(turned);
            self.pitch = if tilted < -(PITCH_LIMIT as i128) {
                -PITCH_LIMIT
            } else if tilted > PITCH_LIMIT as i128 {
                PITCH_LIMIT
            } else {
                tilted as i64
            };
        }
    }

    /// A mouse button went down (`pressed`) or up.
    pub fn mouse_input(&mut self, button: MouseButton, pressed: bool)
        ensures
            final(self)@ == old(self)@.mouse_button(button, pressed),
            final(self)@.wf(),
    {
        proof {
            use_type_invariant(&*self);
        }
        match button {
            MouseButton::Left => {
                self.mouse_captured = pressed;
            },
            MouseButton::Other => {},
        }
    }

    /// A key went down (`pressed`) or up.
    pub fn keyboard_input(&mut self, key: Key, pressed: bool)
        ensures
            final(self)@ == old(self)@.key(key, pressed),
            final(self)@.wf(),
    {
        proof {
            use_type_invariant(&*self);
        }
        match key {
            Key::W => {
                self.moving_forward = pressed;
            },
            Key::S => {
                self.moving_backward = pressed;
            },
            Key::A => {
                self.moving_left = pressed;
            },
            Key::D => {
                self.moving_right = pressed;
            },
            Key::Space => {
                self.moving_up = pressed;
            },
            Key::LShift => {
                self.moving_down = pressed;
            },
            Key::Other => {},
        }
    }

    /// `dt` microseconds went by: the speeds follow the keys that are held.
    pub fn integrate(&mut self, dt: u32)
        ensures
            final(self)@ == old(self)@.integrated(dt as int),
            final(self)@.wf(),
    {
        proof {
            use_type_invariant(&*self);
        }
        assert(0 <= self.acceleration * dt <= 0xFFFF_FFFF_FFFF_FFFF) by (nonlinear_arith)
            requires
                0 <= self.acceleration <= 0xFFFF_FFFF,
                0 <= dt <= 0xFFFF_FFFF,
        ;
        let change: u64 = self.acceleration as u64 * dt as u64;
        let forward = step_axis(
            self.velocity_forward,
            self.moving_forward,
            self.moving_backward,
            change,
            self.move_speed,
        );
        let right = step_axis(
            self.velocity_right,
            self.moving_right,
            self.moving_left,
            change,
            self.move_speed,
        );
        let up = step_axis(
            self.velocity_up,
            self.moving_up,
            self.moving_down,
            change,
            self.move_speed,
        );
        self.velocity_forward = forward;
        self.velocity_right = right;
        self.velocity_up = up;
    }
}

} // verus!
