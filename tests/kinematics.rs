use ship_kinematics::arith::{ceil_sqrt, div_floor};
use ship_kinematics::geometry::{clamp_length, wrap_coordinate, wrap_position, Arena, Vec2, UNIT};
use ship_kinematics::ship::{
    advance, rotation_factor, thrust_factor, tick_fits, velocity_line, DebugRecord, InputSnapshot,
    KinematicsError, Movement, ShipConfig, ShipState,
};

const PI_MICRORAD: i64 = 3_141_593;

fn arena() -> Arena {
    Arena::new(-400, 400, -300, 300).unwrap()
}

fn up() -> Vec2 {
    Vec2::new(0, UNIT)
}

fn input(turn_left: bool, turn_right: bool, thrust: bool) -> InputSnapshot {
    InputSnapshot { turn_left, turn_right, thrust, debug_dump: false }
}

fn velocity_config() -> ShipConfig {
    ShipConfig::new(PI_MICRORAD, 10, Movement::Velocity { max_speed: 360 }).unwrap()
}

#[test]
fn thrust_one_second_from_rest() {
    let mut state = ShipState::at_rest(Vec2::zero());
    let r = advance(&mut state, &velocity_config(), &arena(), &input(false, false, true), up(), 1000);
    assert_eq!(r, Ok(None));
    assert_eq!(state.linear_velocity, Vec2::new(0, 10));
    assert_eq!(state.position, Vec2::new(0, 10));
    assert_eq!(state.heading, 0);
}

#[test]
fn turn_left_half_second() {
    let mut state = ShipState::at_rest(Vec2::zero());
    let r = advance(&mut state, &velocity_config(), &arena(), &input(true, false, false), up(), 500);
    assert_eq!(r, Ok(None));
    assert_eq!(state.heading, PI_MICRORAD * 500 / 1000);
    assert_eq!(state.heading, 1_570_796);
    assert_eq!(state.position, Vec2::zero());
    assert_eq!(state.linear_velocity, Vec2::zero());
}

#[test]
fn past_top_wall_lands_on_bottom_wall() {
    let a = arena();
    assert_eq!(wrap_position(&a, Vec2::new(0, 305)), Vec2::new(0, -300));
    let mut state = ShipState::at_rest(Vec2::new(0, 295));
    state.linear_velocity = Vec2::new(0, 10);
    let config = ShipConfig::new(0, 0, Movement::Velocity { max_speed: 360 }).unwrap();
    advance(&mut state, &config, &a, &input(false, false, false), up(), 1000).unwrap();
    assert_eq!(state.position, Vec2::new(0, -300));
    assert_eq!(state.linear_velocity, Vec2::new(0, 10));
}

#[test]
fn wrap_is_exact_on_every_wall() {
    let a = arena();
    assert_eq!(wrap_position(&a, Vec2::new(401, 0)), Vec2::new(-400, 0));
    assert_eq!(wrap_position(&a, Vec2::new(-401, 0)), Vec2::new(400, 0));
    assert_eq!(wrap_position(&a, Vec2::new(0, 301)), Vec2::new(0, -300));
    assert_eq!(wrap_position(&a, Vec2::new(0, -301)), Vec2::new(0, 300));
    assert_eq!(wrap_position(&a, Vec2::new(400, -300)), Vec2::new(400, -300));
    assert_eq!(wrap_coordinate(1_000_000_000_000_000_000_000, -400, 400), -400);
}

#[test]
fn position_stays_in_arena_for_all_inputs() {
    let a = arena();
    let configs = [
        ShipConfig::new(PI_MICRORAD, 50, Movement::Velocity { max_speed: 360 }).unwrap(),
        ShipConfig::new(PI_MICRORAD, 50, Movement::Direct { speed: 700 }).unwrap(),
        ShipConfig::new(PI_MICRORAD, 50, Movement::Drift).unwrap(),
    ];
    let directions = [up(), Vec2::new(UNIT, 0), Vec2::new(-707_107, -707_107), Vec2::new(0, -UNIT)];
    for config in configs.iter() {
        let mut state = ShipState::at_rest(Vec2::new(390, -290));
        state.speed = 120;
        for step in 0..64u32 {
            let i = input(step % 2 == 0, step % 3 == 0, step % 5 != 0);
            let f = directions[(step % 4) as usize];
            let dt = (step as i64 % 7) * 250;
            advance(&mut state, config, &a, &i, f, dt).unwrap();
            assert!(-400 <= state.position.x && state.position.x <= 400);
            assert!(-300 <= state.position.y && state.position.y <= 300);
        }
    }
}

#[test]
fn rotation_only_keeps_direct_ship_in_place() {
    let config = ShipConfig::new(PI_MICRORAD, 10, Movement::Direct { speed: 100 }).unwrap();
    let mut state = ShipState::at_rest(Vec2::new(12, -34));
    advance(&mut state, &config, &arena(), &input(false, true, false), up(), 2000).unwrap();
    assert_eq!(state.position, Vec2::new(12, -34));
    assert_eq!(state.heading, -2 * PI_MICRORAD);
}

#[test]
fn rotation_only_keeps_velocity_and_drifts() {
    let mut state = ShipState::at_rest(Vec2::new(0, 0));
    state.linear_velocity = Vec2::new(20, -8);
    advance(&mut state, &velocity_config(), &arena(), &input(true, false, false), up(), 500).unwrap();
    assert_eq!(state.linear_velocity, Vec2::new(20, -8));
    assert_eq!(state.position, Vec2::new(10, -4));
}

#[test]
fn speed_never_exceeds_ceiling() {
    let config = ShipConfig::new(PI_MICRORAD, 100, Movement::Velocity { max_speed: 360 }).unwrap();
    let mut state = ShipState::at_rest(Vec2::zero());
    let directions = [up(), Vec2::new(600_000, 800_000), Vec2::new(UNIT, 0)];
    for step in 0..20usize {
        let f = directions[step % 3];
        advance(&mut state, &config, &arena(), &input(false, false, true), f, 16).unwrap();
        let v = state.linear_velocity;
        assert!(v.x * v.x + v.y * v.y <= 360 * 360);
    }
    assert!(state.linear_velocity != Vec2::zero());
}

#[test]
fn null_input_changes_nothing_at_rest() {
    let a = arena();
    for movement in [Movement::Direct { speed: 100 }, Movement::Velocity { max_speed: 360 }, Movement::Drift] {
        let config = ShipConfig::new(PI_MICRORAD, 10, movement).unwrap();
        let mut state = ShipState::at_rest(Vec2::new(-17, 250));
        state.heading = 777;
        for dt in [0i64, 1, 16, 1000, 60_000] {
            advance(&mut state, &config, &a, &input(false, false, false), up(), dt).unwrap();
            assert_eq!(state.position, Vec2::new(-17, 250));
            assert_eq!(state.heading, 777);
        }
        advance(&mut state, &config, &a, &input(true, true, false), up(), 1000).unwrap();
        assert_eq!(state.heading, 777);
    }
}

#[test]
fn negative_elapsed_time_is_refused() {
    let mut state = ShipState::at_rest(Vec2::new(5, 6));
    let before = state;
    let r = advance(&mut state, &velocity_config(), &arena(), &input(true, false, true), up(), -1);
    assert_eq!(r, Err(KinematicsError::InvalidInput));
    assert_eq!(state, before);
}

#[test]
fn debug_trigger_reports_new_state() {
    let mut state = ShipState::at_rest(Vec2::zero());
    let i = InputSnapshot { turn_left: false, turn_right: false, thrust: true, debug_dump: true };
    let r = advance(&mut state, &velocity_config(), &arena(), &i, up(), 1000);
    assert_eq!(
        r,
        Ok(Some(DebugRecord {
            forward: up(),
            position: Vec2::new(0, 10),
            linear_velocity: Vec2::new(0, 10),
            speed: 0,
            heading: 0,
        }))
    );
}

#[test]
fn direct_mode_moves_at_fixed_speed() {
    let config = ShipConfig::new(0, 0, Movement::Direct { speed: 100 }).unwrap();
    let mut state = ShipState::at_rest(Vec2::zero());
    advance(&mut state, &config, &arena(), &input(false, false, true), Vec2::new(600_000, -800_000), 1500)
        .unwrap();
    assert_eq!(state.position, Vec2::new(90, -120));
    assert_eq!(state.linear_velocity, Vec2::zero());
}

#[test]
fn drift_mode_adds_speed_and_acceleration() {
    let config = ShipConfig::new(0, 30, Movement::Drift).unwrap();
    let mut state = ShipState::at_rest(Vec2::zero());
    state.speed = 20;
    advance(&mut state, &config, &arena(), &input(false, false, true), Vec2::new(UNIT, 0), 2000).unwrap();
    assert_eq!(state.position, Vec2::new(100, 0));
    assert_eq!(state.speed, 20);
    advance(&mut state, &config, &arena(), &input(false, false, false), Vec2::new(UNIT, 0), 1000).unwrap();
    assert_eq!(state.position, Vec2::new(120, 0));
}

#[test]
fn clamp_scales_long_vectors() {
    assert_eq!(clamp_length(Vec2::new(3000, -4000), 50), Vec2::new(30, -40));
    assert_eq!(clamp_length(Vec2::new(30, 40), 50), Vec2::new(30, 40));
    assert_eq!(clamp_length(Vec2::new(1, 1), 1), Vec2::new(0, 0));
    assert_eq!(clamp_length(Vec2::new(7, 0), 0), Vec2::new(0, 0));
}

#[test]
fn integer_helpers() {
    assert_eq!(div_floor(7, 2), 3);
    assert_eq!(div_floor(-7, 2), -4);
    assert_eq!(div_floor(-8, 2), -4);
    assert_eq!(ceil_sqrt(1), 1);
    assert_eq!(ceil_sqrt(2), 2);
    assert_eq!(ceil_sqrt(25), 5);
    assert_eq!(ceil_sqrt(26), 6);
    assert_eq!(ceil_sqrt(1u128 << 126), 1u128 << 63);
}

#[test]
fn input_factors() {
    assert_eq!(rotation_factor(&input(true, false, false)), 1);
    assert_eq!(rotation_factor(&input(false, true, false)), -1);
    assert_eq!(rotation_factor(&input(true, true, false)), 0);
    assert_eq!(rotation_factor(&input(false, false, true)), 0);
    assert_eq!(thrust_factor(&input(false, false, true)), 1);
    assert_eq!(thrust_factor(&input(true, true, false)), 0);
}

#[test]
fn constructors_reject_bad_values() {
    assert!(Arena::new(10, -10, 0, 0).is_none());
    assert!(Arena::new(0, 0, 5, 4).is_none());
    assert!(Arena::new(-2_000_000_000_000, 0, 0, 0).is_none());
    assert!(ShipConfig::new(1, 1, Movement::Velocity { max_speed: -1 }).is_none());
    assert!(ShipConfig::new(2_000_000_000_000, 1, Movement::Drift).is_none());
    assert!(ShipConfig::new(1, 1, Movement::Direct { speed: -5 }).is_some());
}

#[test]
fn tick_fits_checks_limits() {
    let config = velocity_config();
    let state = ShipState::at_rest(Vec2::zero());
    let i = input(true, false, false);
    assert!(tick_fits(&state, &config, &i, up(), 1000));
    assert!(!tick_fits(&state, &config, &i, Vec2::new(UNIT + 1, 0), 1000));
    let mut far = state;
    far.heading = i64::MAX;
    assert!(!tick_fits(&far, &config, &i, up(), 1000));
    assert!(tick_fits(&far, &config, &i, up(), -5));
}

#[test]
fn velocity_line_extends_ten_times() {
    let mut state = ShipState::at_rest(Vec2::new(5, -5));
    state.linear_velocity = Vec2::new(3, 4);
    assert_eq!(velocity_line(&state), (Vec2::new(5, -5), Vec2::new(35, 35)));
}
