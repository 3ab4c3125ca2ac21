use racing_core::car::{
    validate_mass, acceleration_curve, car_physics_system, front_wheel_steering_system, speed_ratio,
    turn_effectiveness, wheel_rotation_system, BodyState, Car, ConfigError, ControlInput,
    Handling,
};
use racing_core::fixed::{div_away_from_zero, div_floor, sqrt_floor, Vector3};
use racing_core::movement::car_movement_system;

fn idle() -> ControlInput {
    ControlInput { accelerate: false, reverse: false, steer_left: false, steer_right: false }
}

fn throttle() -> ControlInput {
    ControlInput { accelerate: true, ..idle() }
}

fn body(v: Vector3) -> BodyState {
    BodyState {
        linear_velocity: v,
        angular_velocity: Vector3::zero(),
        forward: Vector3::new(0, 0, -1000),
        right: Vector3::new(1000, 0, 0),
    }
}

fn dot(a: Vector3, b: Vector3) -> i64 {
    a.x * b.x + a.y * b.y + a.z * b.z
}

#[test]
fn acceleration_curve_band_values() {
    assert_eq!(acceleration_curve(0), 1000);
    assert_eq!(acceleration_curve(299), 1000);
    assert_eq!(acceleration_curve(300), 800);
    assert_eq!(acceleration_curve(599), 800);
    assert_eq!(acceleration_curve(600), 500);
    assert_eq!(acceleration_curve(849), 500);
    assert_eq!(acceleration_curve(850), 200);
    assert_eq!(acceleration_curve(1000), 200);
}

#[test]
fn acceleration_curve_never_rises() {
    let mut previous = acceleration_curve(0);
    for r in 0..=1000 {
        let c = acceleration_curve(r);
        assert!(c <= previous);
        previous = c;
    }
}

#[test]
fn speed_ratio_caps_at_one() {
    assert_eq!(speed_ratio(0, 60_000), 0);
    assert_eq!(speed_ratio(30_000, 60_000), 500);
    assert_eq!(speed_ratio(90_000, 60_000), 1000);
}

#[test]
fn turn_effectiveness_falls_mildly() {
    let h = Handling::default();
    assert_eq!(turn_effectiveness(&h, 0), 1000);
    assert_eq!(turn_effectiveness(&h, 500), 900);
    assert_eq!(turn_effectiveness(&h, 1000), 800);
    let steep = Handling { turn_falloff: 1000, ..h };
    assert_eq!(turn_effectiveness(&steep, 1000), 600);
}

#[test]
fn full_throttle_from_rest_pushes_along_heading() {
    let mut car = Car::default();
    let r = car_physics_system(&mut car, &Handling::default(), throttle(), &body(Vector3::zero()));
    assert_eq!(r.force, Vector3::new(0, 0, -35_000_000));
    assert_eq!(r.torque, Vector3::zero());
    assert_eq!(r.speed, 0);
    assert_eq!(r.speed_ratio, 0);
    assert_eq!(car.speed, 0);
}

#[test]
fn coasting_at_top_speed_gets_drag_only() {
    let mut car = Car::default();
    let v = Vector3::new(0, 0, -60_000);
    let r = car_physics_system(&mut car, &Handling::default(), idle(), &body(v));
    assert_eq!(r.force.x, 0);
    assert_eq!(r.force.z, 120_000);
    // downforce at full speed: one kilonewton
    assert_eq!(r.force.y, -1_000_000);
    assert_eq!(r.speed, 60_000);
    assert_eq!(car.speed, 60_000);
}

#[test]
fn brake_pushes_against_heading() {
    let mut car = Car::default();
    let input = ControlInput { reverse: true, ..idle() };
    let r = car_physics_system(&mut car, &Handling::default(), input, &body(Vector3::zero()));
    assert_eq!(r.force, Vector3::new(0, 0, 25_000_000));
}

#[test]
fn lateral_grip_opposes_sliding() {
    let mut car = Car::default();
    let r = car_physics_system(
        &mut car,
        &Handling::default(),
        throttle(),
        &body(Vector3::new(2_000, 0, 0)),
    );
    // 2 m/s sideways times 15 N per m/s
    assert_eq!(r.force.x, -30_000);
    let small = car_physics_system(
        &mut car,
        &Handling::default(),
        throttle(),
        &body(Vector3::new(100, 0, 0)),
    );
    assert_eq!(small.force.x, 0);
}

#[test]
fn steering_torque_and_damping() {
    let mut car = Car::default();
    let input = ControlInput { steer_left: true, accelerate: true, ..idle() };
    let mut b = body(Vector3::zero());
    b.angular_velocity = Vector3::new(0, 100, 0);
    let r = car_physics_system(&mut car, &Handling::default(), input, &b);
    // 2.5 rad/s × 4000 at full effectiveness, minus 0.1 rad/s × 5
    assert_eq!(r.torque.y, 10_000_000 - 500);
    let both = ControlInput { steer_right: true, ..input };
    let r2 = car_physics_system(&mut car, &Handling::default(), both, &b);
    assert_eq!(r2.torque.y, -500);
}

#[test]
fn over_top_speed_correction_opposes_velocity() {
    let h = Handling::default();
    for v in [
        Vector3::new(0, 0, -70_000),
        Vector3::new(50_000, 0, 50_000),
        Vector3::new(-60_001, 0, 0),
        Vector3::new(1, 60_000, 1),
    ] {
        let mut car = Car::default();
        let coast = car_physics_system(&mut car, &h, idle(), &body(v));
        let no_limit = Handling { speed_limit_gain: 1, ..h };
        let weak = car_physics_system(&mut car, &no_limit, idle(), &body(v));
        assert!(dot(coast.force, v) < dot(weak.force, v));
        assert!(dot(coast.force, v) < 0);
    }
}

#[test]
fn exactly_top_speed_gets_no_correction() {
    let h = Handling::default();
    let mut car = Car::default();
    let v = Vector3::new(0, 0, -60_000);
    let a = car_physics_system(&mut car, &h, idle(), &body(v));
    let b = car_physics_system(&mut car, &Handling { speed_limit_gain: 1, ..h }, idle(), &body(v));
    assert_eq!(a.force, b.force);
}

#[test]
fn forward_speed_follows_velocity() {
    let mut car = Car::default();
    car_physics_system(&mut car, &Handling::default(), idle(), &body(Vector3::new(3_000, 0, 12_000)));
    assert_eq!(car.speed, -12_000);
}

#[test]
fn car_new_validates() {
    assert_eq!(Car::new(0, 1, 1, 1, 1), Err(ConfigError::NonPositiveMaxSpeed));
    assert_eq!(Car::new(-5, 1, 1, 1, 1), Err(ConfigError::NonPositiveMaxSpeed));
    assert_eq!(Car::new(60_000, -1, 1, 1, 1), Err(ConfigError::OutOfRange));
    assert_eq!(Car::new(2_000_000, 1, 1, 1, 1), Err(ConfigError::OutOfRange));
    let car = Car::new(60_000, 800_000, 2_500, 35_000_000, 25_000_000).unwrap();
    assert_eq!(car, Car::default());
    assert_eq!(validate_mass(500_000), Ok(500_000));
    assert_eq!(validate_mass(0), Err(ConfigError::NonPositiveMass));
    assert_eq!(validate_mass(-1), Err(ConfigError::NonPositiveMass));
}

#[test]
fn coasting_comes_to_exact_rest() {
    let mut car = Car { speed: 20_000, ..Car::default() };
    let mut previous = car.speed;
    let mut ticks = 0;
    while car.speed != 0 {
        car_movement_system(&mut car, idle(), Vector3::new(0, 0, -1000), 16_667);
        assert!(car.speed.abs() < previous.abs());
        assert!(car.speed == 0 || car.speed.abs() >= 100);
        previous = car.speed;
        ticks += 1;
        assert!(ticks < 1000);
    }
    assert_eq!(car.speed, 0);
    let mut back = Car { speed: -150, ..Car::default() };
    car_movement_system(&mut back, idle(), Vector3::new(0, 0, -1000), 16_667);
    assert_eq!(back.speed, -142);
    car_movement_system(&mut back, idle(), Vector3::new(0, 0, -1000), 16_667);
    assert_eq!(back.speed, -134);
}

#[test]
fn kinematic_acceleration_and_reverse_limits() {
    let mut car = Car { acceleration: 10_000, max_speed: 20_000, ..Car::default() };
    let step = car_movement_system(&mut car, throttle(), Vector3::new(0, 0, -1000), 100_000);
    assert_eq!(car.speed, 1_000);
    // 1 m/s for 0.1 s along -z: 100 mm
    assert_eq!(step.displacement, Vector3::new(0, 0, -100_000));
    car.speed = 19_900;
    car_movement_system(&mut car, throttle(), Vector3::new(0, 0, -1000), 100_000);
    assert_eq!(car.speed, 20_000);
    car.speed = -9_500;
    let reverse = ControlInput { reverse: true, ..idle() };
    car_movement_system(&mut car, reverse, Vector3::new(0, 0, -1000), 100_000);
    assert_eq!(car.speed, -10_000);
}

#[test]
fn kinematic_turn_needs_motion() {
    let mut car = Car { speed: 0, max_speed: 20_000, turn_speed: 2_000, ..Car::default() };
    let left = ControlInput { steer_left: true, ..idle() };
    let still = car_movement_system(&mut car, left, Vector3::new(0, 0, -1000), 100_000);
    assert_eq!(still.yaw, 0);
    let mut moving = Car { speed: 10_000, max_speed: 20_000, turn_speed: 2_000, acceleration: 0, ..Car::default() };
    let turn = car_movement_system(&mut moving, ControlInput { accelerate: true, ..left }, Vector3::new(0, 0, -1000), 100_000);
    // 2 rad/s × half speed × 0.1 s = 0.1 rad
    assert_eq!(turn.yaw, 100_000);
}

#[test]
fn wheel_spin_and_steering() {
    assert_eq!(wheel_rotation_system(0, 16_667), 0);
    // 2.199 m/s over a 2.199 m wheel: one unit per second, 0.5 in half a second
    assert_eq!(wheel_rotation_system(2_199, 500_000), -500_000);
    assert_eq!(wheel_rotation_system(-2_199, 500_000), 500_000);
    let left = ControlInput { steer_left: true, ..idle() };
    let right = ControlInput { steer_right: true, ..idle() };
    assert_eq!(front_wheel_steering_system(left), 30_000);
    assert_eq!(front_wheel_steering_system(right), -30_000);
    assert_eq!(front_wheel_steering_system(idle()), 0);
}

#[test]
fn controls_from_keys() {
    let c = ControlInput::from_keys(false, true, false, false, true, false, false, true);
    assert_eq!(
        c,
        ControlInput { accelerate: true, reverse: false, steer_left: true, steer_right: true }
    );
}

#[test]
fn fixed_point_helpers() {
    assert_eq!(div_floor(7, 2), 3);
    assert_eq!(div_floor(-7, 2), -4);
    assert_eq!(div_floor(-8, 2), -4);
    assert_eq!(div_away_from_zero(7, 2), 4);
    assert_eq!(div_away_from_zero(-7, 2), -4);
    assert_eq!(div_away_from_zero(-8, 2), -4);
    assert_eq!(sqrt_floor(0), 0);
    assert_eq!(sqrt_floor(15), 3);
    assert_eq!(sqrt_floor(16), 4);
    assert_eq!(sqrt_floor(3_600_000_000), 60_000);
    assert_eq!(Vector3::new(1, 2, 3).dot(&Vector3::new(4, 5, 6)), 32);
    assert_eq!(Vector3::new(1, 2, 3).length_squared(), 14);
}
