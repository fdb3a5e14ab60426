//! The ship: its configuration, its state, the input of one tick, and the
//! update that advances the state by one tick.

use crate::arith::{div_floor, lemma_div_floor_bounds};
use crate::geometry::{
    abs_within, clamp_length, clamp_length_of, wrap_coordinate, wrap_point, Arena, Vec2,
    MAGNITUDE_LIMIT, UNIT,
};
use vstd::prelude::*;

verus! {

/// Time is counted in milliseconds; rates are given per second.
pub const MILLIS_PER_SECOND: i64 = 1000;

/// How thrust moves the ship.
#[derive(Clone, Copy, Debug, PartialEq, Eq, Structural)]
pub enum Movement {
    /// While thrust is held the ship moves along its facing at `speed`
    /// length units per second; there is no velocity state.
    Direct { speed: i64 },
    /// Thrust adds the acceleration, along the facing, to a persistent
    /// velocity whose length is then clamped to `max_speed`; the ship moves
    /// by that velocity.
    Velocity { max_speed: i64 },
    /// The ship moves along its facing at its stored scalar speed, plus the
    /// acceleration while thrust is held; the stored speed never changes.
    Drift,
}

/// Fixed properties of a ship, set when it is spawned.
#[derive(Clone, Copy, Debug, PartialEq, Eq, Structural)]
pub struct ShipConfig {
    /// Turn rate, angle units per second.
    pub rotation_speed: i64,
    /// Length units per second added by thrust (per tick in velocity mode).
    pub acceleration: i64,
    pub movement: Movement,
}

impl ShipConfig {
    /// A configuration from its parts; `None` when a rate is beyond the
    /// magnitude limit or the speed ceiling is negative.
    pub fn new(rotation_speed: i64, acceleration: i64, movement: Movement) -> (r: Option<
        ShipConfig,
    >)
        ensures
            r is None <==> !(ShipConfig { rotation_speed, acceleration, movement }).wf(),
            r matches Some(c) ==> c == (ShipConfig { rotation_speed, acceleration, movement }),
    {
        let limit = MAGNITUDE_LIMIT;
        let rates = -limit <= rotation_speed && rotation_speed <= limit && -limit <= acceleration
            && acceleration <= limit;
        let mode = match movement {
            Movement::Direct { speed } => -limit <= speed && speed <= limit,
            Movement::Velocity { max_speed } => 0 <= max_speed && max_speed <= limit,
            Movement::Drift => true,
        };
        if rates && mode {
            Some(ShipConfig { rotation_speed, acceleration, movement })
        } else {
            None
        }
    }

    /// Every rate is within the magnitude limit and a speed ceiling is not
    /// negative.
    pub open spec fn wf(self) -> bool {
        &&& abs_within(self.rotation_speed as int, MAGNITUDE_LIMIT as int)
        &&& abs_within(self.acceleration as int, MAGNITUDE_LIMIT as int)
        &&& match self.movement {
            Movement::Direct { speed } => abs_within(speed as int, MAGNITUDE_LIMIT as int),
            Movement::Velocity { max_speed } => 0 <= max_speed <= MAGNITUDE_LIMIT,
            Movement::Drift => true,
        }
    }
}

/// Pose and motion of the ship.
#[derive(Clone, Copy, Debug, PartialEq, Eq, Structural)]
pub struct ShipState {
    pub position: Vec2,
    /// Counter-clockwise rotation in angle units; never reduced modulo a turn.
    pub heading: i64,
    /// Used by the velocity mode only.
    pub linear_velocity: Vec2,
    /// Used by the drift mode only.
    pub speed: i64,
}

impl ShipState {
    /// A ship at `position`, facing the reference axis, at rest.
    pub fn at_rest(position: Vec2) -> (r: ShipState)
        ensures
            r.position == position,
            r.heading == 0,
            r.linear_velocity == (Vec2 { x: 0, y: 0 }),
            r.speed == 0,
    {
        ShipState { position, heading: 0, linear_velocity: Vec2 { x: 0, y: 0 }, speed: 0 }
    }

    /// Position, velocity and speed are within the magnitude limit.
    pub open spec fn within_limits(self) -> bool {
        &&& self.position.within(MAGNITUDE_LIMIT as int)
        &&& self.linear_velocity.within(MAGNITUDE_LIMIT as int)
        &&& abs_within(self.speed as int, MAGNITUDE_LIMIT as int)
    }
}

/// The logical inputs held during one tick.
#[derive(Clone, Copy, Debug, PartialEq, Eq, Structural)]
pub struct InputSnapshot {
    pub turn_left: bool,
    pub turn_right: bool,
    pub thrust: bool,
    /// The debug trigger went from released to pressed during this tick.
    pub debug_dump: bool,
}

/// Diagnostic record emitted when the debug trigger fires.
#[derive(Clone, Copy, Debug, PartialEq, Eq, Structural)]
pub struct DebugRecord {
    pub forward: Vec2,
    pub position: Vec2,
    pub linear_velocity: Vec2,
    pub speed: i64,
    pub heading: i64,
}

/// The one condition under which a tick is refused.
#[derive(Clone, Copy, Debug, PartialEq, Eq, Structural)]
pub enum KinematicsError {
    /// The elapsed time is negative.
    InvalidInput,
}

/// +1 for turn-left, -1 for turn-right; both or neither give 0.
pub open spec fn turn_of(input: InputSnapshot) -> int {
    (if input.turn_left { 1int } else { 0int }) - (if input.turn_right { 1int } else { 0int })
}

/// 1 while thrust is held, else 0.
pub open spec fn thrust_of(input: InputSnapshot) -> int {
    if input.thrust { 1int } else { 0int }
}

/// Heading change of `turn * rotation_speed * dt`, `dt` in milliseconds,
/// rounded down.
pub open spec fn heading_change(turn: int, rotation_speed: int, dt: int) -> int {
    turn * rotation_speed * dt / (MILLIS_PER_SECOND as int)
}

/// Distance along one axis covered in `dt` milliseconds at `rate` length
/// units per second along a fixed-point direction coordinate `f`, rounded
/// down.
pub open spec fn travel(f: int, rate: int, dt: int) -> int {
    f * rate * dt / (UNIT * MILLIS_PER_SECOND)
}

/// Distance along one axis covered in `dt` milliseconds at velocity
/// coordinate `v`, rounded down.
pub open spec fn drift(v: int, dt: int) -> int {
    v * dt / (MILLIS_PER_SECOND as int)
}

/// Velocity gained along one axis from `amount` along a fixed-point
/// direction coordinate `f`, rounded down.
pub open spec fn boost(f: int, amount: int) -> int {
    f * amount / (UNIT as int)
}

/// The velocity after one tick.
pub open spec fn next_velocity(
    state: ShipState,
    config: ShipConfig,
    input: InputSnapshot,
    forward: Vec2,
) -> Vec2 {
    match config.movement {
        Movement::Velocity { max_speed } => {
            let amount = thrust_of(input) * config.acceleration;
            let v = state.linear_velocity;
            let c = clamp_length_of(
                v.x + boost(forward.x as int, amount),
                v.y + boost(forward.y as int, amount),
                max_speed as int,
            );
            Vec2 { x: c.0 as i64, y: c.1 as i64 }
        },
        _ => state.linear_velocity,
    }
}

/// The position after one tick's translation, before wraparound.
pub open spec fn translated(
    state: ShipState,
    config: ShipConfig,
    input: InputSnapshot,
    forward: Vec2,
    dt: int,
) -> (int, int) {
    let p = state.position;
    match config.movement {
        Movement::Direct { speed } => {
            let rate = thrust_of(input) * speed;
            (p.x + travel(forward.x as int, rate, dt), p.y + travel(forward.y as int, rate, dt))
        },
        Movement::Velocity { .. } => {
            let v = next_velocity(state, config, input, forward);
            (p.x + drift(v.x as int, dt), p.y + drift(v.y as int, dt))
        },
        Movement::Drift => {
            let rate = state.speed + thrust_of(input) * config.acceleration;
            (p.x + travel(forward.x as int, rate, dt), p.y + travel(forward.y as int, rate, dt))
        },
    }
}

/// The state after one tick of `dt` milliseconds, `forward` being the
/// direction the ship faced when the tick began.
pub open spec fn next_state(
    state: ShipState,
    config: ShipConfig,
    arena: Arena,
    input: InputSnapshot,
    forward: Vec2,
    dt: int,
) -> ShipState {
    let t = translated(state, config, input, forward, dt);
    ShipState {
        position: wrap_point(arena, t.0, t.1),
        heading: (state.heading + heading_change(
            turn_of(input),
            config.rotation_speed as int,
            dt,
        )) as i64,
        linear_velocity: next_velocity(state, config, input, forward),
        speed: state.speed,
    }
}

/// The record of a state and the direction it was moved along.
pub open spec fn record_of(state: ShipState, forward: Vec2) -> DebugRecord {
    DebugRecord {
        forward,
        position: state.position,
        linear_velocity: state.linear_velocity,
        speed: state.speed,
        heading: state.heading,
    }
}

/// In velocity mode the velocity is no longer than the speed ceiling.
pub open spec fn within_speed_ceiling(state: ShipState, config: ShipConfig) -> bool {
    match config.movement {
        Movement::Velocity { max_speed } => state.linear_velocity.length_sq() <= max_speed
            * max_speed,
        _ => true,
    }
}

/// The heading after a tick fits the heading's type.
pub open spec fn heading_fits(
    state: ShipState,
    config: ShipConfig,
    input: InputSnapshot,
    dt: int,
) -> bool {
    i64::MIN <= state.heading + heading_change(turn_of(input), config.rotation_speed as int, dt)
        <= i64::MAX
}

/// Rotation factor of the input: +1, -1 or 0.
pub fn rotation_factor(input: &InputSnapshot) -> (r: i64)
    ensures
        r == turn_of(*input),
        -1 <= r <= 1,
{
    let mut r: i64 = 0;
    if input.turn_left {
        r = r + 1;
    }
    if input.turn_right {
        r = r - 1;
    }
    r
}

/// Thrust factor of the input: 1 or 0.
pub fn thrust_factor(input: &InputSnapshot) -> (r: i64)
    ensures
        r == thrust_of(*input),
        0 <= r <= 1,
{
    if input.thrust {
        1
    } else {
        0
    }
}

/// Heading change of `turn * rotation_speed` over `dt` milliseconds.
fn heading_delta(turn: i64, rotation_speed: i64, dt: i64) -> (r: i128)
    requires
        -1 <= turn <= 1,
        abs_within(rotation_speed as int, MAGNITUDE_LIMIT as int),
        dt >= 0,
    ensures
        r == heading_change(turn as int, rotation_speed as int, dt as int),
        abs_within(r as int, 10000000000000000000000000000000),
{
    assert(-1000000000000 <= turn * rotation_speed <= 1000000000000) by (nonlinear_arith)
        requires
            -1 <= turn <= 1,
            -1000000000000 <= rotation_speed <= 1000000000000,
    ;
    let rate = turn as i128 * rotation_speed as i128;
    assert(-10000000000000000000000000000000 <= rate * dt <= 10000000000000000000000000000000)
        by (nonlinear_arith)
        requires
            -1000000000000 <= rate <= 1000000000000,
            0 <= dt <= 9223372036854775807,
    ;
    proof {
        lemma_div_floor_bounds(rate * dt, MILLIS_PER_SECOND as int, 10000000000000000000000000000000);
    }
    div_floor(rate * dt as i128, MILLIS_PER_SECOND as i128)
}

/// Offset along one axis after `dt` milliseconds at `rate` length units per
/// second along the fixed-point direction coordinate `f`.
fn travel_offset(f: i64, rate: i128, dt: i64) -> (r: i128)
    requires
        abs_within(f as int, UNIT as int),
        abs_within(rate as int, 2 * MAGNITUDE_LIMIT),
        dt >= 0,
    ensures
        r == travel(f as int, rate as int, dt as int),
        abs_within(r as int, 100000000000000000000000000000),
{
    assert(-2000000000000000000 <= f * rate <= 2000000000000000000) by (nonlinear_arith)
        requires
            -1000000 <= f <= 1000000,
            -2000000000000 <= rate <= 2000000000000,
    ;
    let fr = f as i128 * rate;
    assert(-100000000000000000000000000000000000000 <= fr * dt
        <= 100000000000000000000000000000000000000) by (nonlinear_arith)
        requires
            -2000000000000000000 <= fr <= 2000000000000000000,
            0 <= dt <= 9223372036854775807,
    ;
    let n = fr * dt as i128;
    assert(UNIT * MILLIS_PER_SECOND == 1000000000);
    let d: i128 = 1000000000;
    proof {
        lemma_div_floor_bounds(n as int, d as int, 100000000000000000000000000000);
    }
    div_floor(n, d)
}

/// Offset along one axis after `dt` milliseconds at velocity coordinate `v`.
fn drift_offset(v: i64, dt: i64) -> (r: i128)
    requires
        abs_within(v as int, MAGNITUDE_LIMIT as int),
        dt >= 0,
    ensures
        r == drift(v as int, dt as int),
        abs_within(r as int, 100000000000000000000000000000),
{
    assert(-10000000000000000000000000000000 <= v * dt <= 10000000000000000000000000000000)
        by (nonlinear_arith)
        requires
            -1000000000000 <= v <= 1000000000000,
            0 <= dt <= 9223372036854775807,
    ;
    let n = v as i128 * dt as i128;
    proof {
        lemma_div_floor_bounds(n as int, MILLIS_PER_SECOND as int, 100000000000000000000000000000);
    }
    div_floor(n, MILLIS_PER_SECOND as i128)
}

/// Velocity gained along one axis from `amount` along the fixed-point
/// direction coordinate `f`.
fn boost_of(f: i64, amount: i64) -> (r: i64)
    requires
        abs_within(f as int, UNIT as int),
        abs_within(amount as int, MAGNITUDE_LIMIT as int),
    ensures
        r == boost(f as int, amount as int),
        abs_within(r as int, MAGNITUDE_LIMIT as int),
{
    assert(-1000000000000000000 <= f * amount <= 1000000000000000000) by (nonlinear_arith)
        requires
            -1000000 <= f <= 1000000,
            -1000000000000 <= amount <= 1000000000000,
    ;
    let n = f as i128 * amount as i128;
    proof {
        lemma_div_floor_bounds(n as int, UNIT as int, MAGNITUDE_LIMIT as int);
    }
    div_floor(n, UNIT as i128) as i64
}

/// The velocity mode's velocity after one tick: `amount` added along
/// `forward`, then the length clamped to `max_speed`.
fn accelerated_velocity(v: Vec2, forward: Vec2, amount: i64, max_speed: i64) -> (r: Vec2)
    requires
        v.within(MAGNITUDE_LIMIT as int),
        forward.is_direction(),
        abs_within(amount as int, MAGNITUDE_LIMIT as int),
        0 <= max_speed <= MAGNITUDE_LIMIT,
    ensures
        (r.x as int, r.y as int) == clamp_length_of(
            v.x + boost(forward.x as int, amount as int),
            v.y + boost(forward.y as int, amount as int),
            max_speed as int,
        ),
        r.within(max_speed as int),
        r.length_sq() <= max_speed * max_speed,
{
    let bx = boost_of(forward.x, amount);
    let by = boost_of(forward.y, amount);
    let w = Vec2 { x: v.x + bx, y: v.y + by };
    clamp_length(w, max_speed)
}

/// Whether a tick of `dt_ms` can be taken from `state` within the machine's
/// limits: the state and `forward` are within bounds, and the heading after
/// the tick fits its type.
pub fn tick_fits(
    state: &ShipState,
    config: &ShipConfig,
    input: &InputSnapshot,
    forward: Vec2,
    dt_ms: i64,
) -> (r: bool)
    requires
        config.wf(),
    ensures
        r == (state.within_limits() && forward.is_direction() && (dt_ms >= 0 ==> heading_fits(
            *state,
            *config,
            *input,
            dt_ms as int,
        ))),
{
    let limit = MAGNITUDE_LIMIT;
    let bounded = -limit <= state.position.x && state.position.x <= limit && -limit
        <= state.position.y && state.position.y <= limit && -limit <= state.linear_velocity.x
        && state.linear_velocity.x <= limit && -limit <= state.linear_velocity.y
        && state.linear_velocity.y <= limit && -limit <= state.speed && state.speed <= limit;
    let facing = -UNIT <= forward.x && forward.x <= UNIT && -UNIT <= forward.y && forward.y <= UNIT;
    if !bounded || !facing {
        return false;
    }
    if dt_ms < 0 {
        return true;
    }
    let delta = heading_delta(rotation_factor(input), config.rotation_speed, dt_ms);
    let turned = state.heading as i128 + delta;
    i64::MIN as i128 <= turned && turned <= i64::MAX as i128
}

/// Length multiplier of the velocity line drawn for debugging.
pub const VELOCITY_LINE_SCALE: i64 = 10;

/// The debug segment of a ship: from its position along its velocity
/// scaled by `VELOCITY_LINE_SCALE`.
pub fn velocity_line(state: &ShipState) -> (r: (Vec2, Vec2))
    requires
        state.within_limits(),
    ensures
        r.0 == state.position,
        r.1.x == state.position.x + VELOCITY_LINE_SCALE * state.linear_velocity.x,
        r.1.y == state.position.y + VELOCITY_LINE_SCALE * state.linear_velocity.y,
{
    let p = state.position;
    let v = state.linear_velocity;
    (p, Vec2 { x: p.x + VELOCITY_LINE_SCALE * v.x, y: p.y + VELOCITY_LINE_SCALE * v.y })
}

/// Advances the ship by one tick of `dt_ms` milliseconds.
///
/// `forward` is the unit direction, in fixed point, that the ship faced when
/// the tick began. The heading turns, the ship moves as its movement mode
/// says, and the position is wrapped into the arena. A negative `dt_ms` is
/// refused and leaves the state as it was. When the debug trigger fired, the
/// record of the new state is returned.
pub fn advance(
    state: &mut ShipState,
    config: &ShipConfig,
    arena: &Arena,
    input: &InputSnapshot,
    forward: Vec2,
    dt_ms: i64,
) -> (r: Result<Option<DebugRecord>, KinematicsError>)
    requires
        config.wf(),
        arena.wf(),
        old(state).within_limits(),
        forward.is_direction(),
        dt_ms >= 0 ==> heading_fits(*old(state), *config, *input, dt_ms as int),
    ensures
        dt_ms < 0 ==> r == Err::<Option<DebugRecord>, KinematicsError>(
            KinematicsError::InvalidInput,
        ) && *final(state) == *old(state),
        dt_ms >= 0 ==> *final(state) == next_state(
            *old(state),
            *config,
            *arena,
            *input,
            forward,
            dt_ms as int,
        ),
        dt_ms >= 0 ==> r == Ok::<Option<DebugRecord>, KinematicsError>(
            if input.debug_dump {
                Some(record_of(*final(state), forward))
            } else {
                None
            },
        ),
        dt_ms >= 0 ==> arena.contains(final(state).position),
        final(state).within_limits(),
        dt_ms >= 0 ==> within_speed_ceiling(*final(state), *config),
{
    if dt_ms < 0 {
        return Err(KinematicsError::InvalidInput);
    }
    let turn = rotation_factor(input);
    let thrust = thrust_factor(input);
    let s = *state;
    let p = s.position;
    let moved: (i128, i128, Vec2) = match config.movement {
        Movement::Direct { speed } => {
            let rate = thrust as i128 * speed as i128;
            (
                p.x as i128 + travel_offset(forward.x, rate, dt_ms),
                p.y as i128 + travel_offset(forward.y, rate, dt_ms),
                s.linear_velocity,
            )
        },
        Movement::Velocity { max_speed } => {
            let amount = thrust * config.acceleration;
            let v = accelerated_velocity(s.linear_velocity, forward, amount, max_speed);
            (p.x as i128 + drift_offset(v.x, dt_ms), p.y as i128 + drift_offset(v.y, dt_ms), v)
        },
        Movement::Drift => {
            let rate = s.speed as i128 + thrust as i128 * config.acceleration as i128;
            (
                p.x as i128 + travel_offset(forward.x, rate, dt_ms),
                p.y as i128 + travel_offset(forward.y, rate, dt_ms),
                s.linear_velocity,
            )
        },
    };
    let heading = (s.heading as i128 + heading_delta(turn, config.rotation_speed, dt_ms)) as i64;
    let position = Vec2 {
        x: wrap_coordinate(moved.0, arena.left, arena.right),
        y: wrap_coordinate(moved.1, arena.bottom, arena.top),
    };
    *state = ShipState { position, heading, linear_velocity: moved.2, speed: s.speed };
    if input.debug_dump {
        Ok(
            Some(
                DebugRecord {
                    forward,
                    position,
                    linear_velocity: moved.2,
                    speed: s.speed,
                    heading,
                },
            ),
        )
    } else {
        Ok(None)
    }
}

} // verus!
