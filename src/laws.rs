//! Laws of the kinematics, proved over the update's specification.

use crate::geometry::{wrap_axis, wrap_point, Arena, Vec2};
use crate::ship::{
    boost, drift, heading_change, next_state, thrust_of, travel, turn_of, within_speed_ceiling,
    InputSnapshot, Movement, ShipConfig, ShipState,
};
use vstd::prelude::*;

verus! {

/// Wraparound is exact: a coordinate any distance past a wall lands exactly
/// on the opposite wall, on both axes.
pub proof fn lemma_wrap_exact(arena: Arena, eps: int, other: int)
    requires
        arena.wf(),
        eps > 0,
    ensures
        wrap_point(arena, arena.right + eps, other).x == arena.left,
        wrap_point(arena, arena.left - eps, other).x == arena.right,
        wrap_point(arena, other, arena.top + eps).y == arena.bottom,
        wrap_point(arena, other, arena.bottom - eps).y == arena.top,
{
    assert(wrap_axis(arena.right + eps, arena.left as int, arena.right as int) == arena.left);
    assert(wrap_axis(arena.left - eps, arena.left as int, arena.right as int) == arena.right);
    assert(wrap_axis(arena.top + eps, arena.bottom as int, arena.top as int) == arena.bottom);
    assert(wrap_axis(arena.bottom - eps, arena.bottom as int, arena.top as int) == arena.top);
}

/// Nothing to move by moves nothing.
proof fn lemma_zero_rates(f: int, rotation_speed: int, dt: int)
    ensures
        travel(f, 0, dt) == 0,
        drift(0, dt) == 0,
        boost(f, 0) == 0,
        heading_change(0, rotation_speed, dt) == 0,
{
    assert(f * 0 * dt == 0 && 0 * dt == 0 && f * 0 == 0 && 0 * rotation_speed * dt == 0)
        by (nonlinear_arith);
    assert(0int / 1000000000int == 0 && 0int / 1000000int == 0 && 0int / 1000int == 0);
}

/// Turning without thrust never moves a direct-mode ship, and never changes
/// a velocity-mode ship's velocity: such a ship keeps drifting by it.
pub proof fn lemma_rotation_only(
    state: ShipState,
    config: ShipConfig,
    arena: Arena,
    input: InputSnapshot,
    forward: Vec2,
    dt: int,
)
    requires
        config.wf(),
        arena.wf(),
        arena.contains(state.position),
        !input.thrust,
        dt >= 0,
        within_speed_ceiling(state, config),
    ensures
        (config.movement is Direct) ==> next_state(state, config, arena, input, forward, dt).position
            == state.position,
        (config.movement is Velocity) ==> ({
            let next = next_state(state, config, arena, input, forward, dt);
            let p = state.position;
            let v = state.linear_velocity;
            &&& next.linear_velocity == v
            &&& next.position == wrap_point(
                arena,
                p.x + drift(v.x as int, dt),
                p.y + drift(v.y as int, dt),
            )
        }),
{
    lemma_zero_rates(forward.x as int, config.rotation_speed as int, dt);
    lemma_zero_rates(forward.y as int, config.rotation_speed as int, dt);
    assert(0 * config.acceleration == 0);
    if let Movement::Direct { speed } = config.movement {
        assert(0 * speed == 0);
    }
}

/// With neither turn nor thrust the heading stays, and the position stays
/// unless the ship carries motion of its own: a velocity in velocity mode,
/// a stored speed in drift mode.
pub proof fn lemma_null_input(
    state: ShipState,
    config: ShipConfig,
    arena: Arena,
    input: InputSnapshot,
    forward: Vec2,
    dt: int,
)
    requires
        config.wf(),
        arena.wf(),
        arena.contains(state.position),
        turn_of(input) == 0,
        !input.thrust,
        dt >= 0,
        (config.movement is Velocity) ==> (state.linear_velocity == (Vec2 { x: 0, y: 0 })),
        (config.movement is Drift) ==> (state.speed == 0),
    ensures
        next_state(state, config, arena, input, forward, dt).heading == state.heading,
        next_state(state, config, arena, input, forward, dt).position == state.position,
{
    lemma_zero_rates(forward.x as int, config.rotation_speed as int, dt);
    lemma_zero_rates(forward.y as int, config.rotation_speed as int, dt);
    assert(0 * config.acceleration == 0);
    match config.movement {
        Movement::Direct { speed } => assert(0 * speed == 0),
        Movement::Velocity { max_speed } => {
            assert(max_speed * max_speed >= 0) by (nonlinear_arith);
            let amount = thrust_of(input) * config.acceleration;
            let x = state.linear_velocity.x + boost(forward.x as int, amount);
            let y = state.linear_velocity.y + boost(forward.y as int, amount);
            assert(x == 0 && y == 0);
            assert(x * x + y * y == 0) by (nonlinear_arith)
                requires
                    x == 0 && y == 0,
            ;
        },
        Movement::Drift => {},
    }
}

} // verus!
