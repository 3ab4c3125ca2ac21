use racing_core::camera::{
    camera_follow_system, manage_camera_effects, setup_camera_state, CameraState, CameraTuning,
    DEFAULT_HOLD_THRESHOLD,
};
use racing_core::car::Car;
use racing_core::fixed::Vector3;
use racing_core::menu::GameSettings;

const TICK: u64 = 16_667;

#[test]
fn quick_toggles_never_flip_the_latch() {
    let mut state = CameraState::default();
    // reverse held and released every 0.2 s, in 20 ms ticks, for 10 s
    for tick in 0..500u64 {
        let held = (tick / 10) % 2 == 0;
        let reversing = state.update(20_000, held);
        assert!(!reversing);
        assert!(state.stable_timer <= 200_000);
    }
    assert!(!state.was_reversing);
}

#[test]
fn sustained_hold_flips_exactly_once() {
    let mut state = CameraState::default();
    let mut flips = 0;
    let mut previous = state.was_reversing;
    for _ in 0..60 {
        let now = state.update(TICK, true);
        if now != previous {
            flips += 1;
            assert_eq!(state.stable_timer, 0);
        }
        previous = now;
    }
    assert_eq!(flips, 1);
    assert!(state.was_reversing);
}

#[test]
fn latch_flips_only_past_the_threshold() {
    let mut state = CameraState::default();
    assert!(!state.update(500_000, true));
    assert_eq!(state.stable_timer, 500_000);
    assert!(state.update(1, true));
    assert_eq!(state.stable_timer, 0);
    assert!(state.update(TICK, true));
    assert_eq!(state.stable_timer, 0);
    let mut custom = CameraState::new(100_000);
    assert!(!custom.update(60_000, true));
    assert!(custom.update(60_000, true));
}

#[test]
fn releasing_resets_the_timer() {
    let mut state = CameraState::default();
    state.update(300_000, true);
    state.update(TICK, false);
    assert_eq!(state.stable_timer, 0);
    assert!(!state.update(300_000, true));
    assert!(!state.was_reversing);
}

#[test]
fn camera_behind_and_above_at_rest() {
    let mut state = CameraState::default();
    let tuning = CameraTuning::default();
    let car = Car::default();
    let frame = camera_follow_system(
        &mut state,
        &tuning,
        &car,
        Vector3::zero(),
        Vector3::new(0, 0, 1000),
        Vector3::new(0, 5500, 8000),
        false,
        TICK,
    );
    assert_eq!(frame.speed_factor, 0);
    assert_eq!(frame.distance, 8000);
    assert_eq!(frame.height, 5500);
    assert_eq!(frame.target_position, Vector3::new(0, 5500, -8000));
    assert_eq!(frame.look_target, Vector3::new(0, 1000, 0));
    // 2% of the way from z = 8 m to z = -8 m
    assert_eq!(frame.position, Vector3::new(0, 5500, 7680));
}

#[test]
fn camera_pulls_back_and_drops_at_speed() {
    let mut state = CameraState::default();
    let tuning = CameraTuning::default();
    let car = Car { speed: 60_000, ..Car::default() };
    let frame = camera_follow_system(
        &mut state,
        &tuning,
        &car,
        Vector3::new(1000, 0, 0),
        Vector3::new(0, 0, -1000),
        Vector3::new(1000, 4000, 12_000),
        false,
        TICK,
    );
    assert_eq!(frame.speed_factor, 1000);
    assert_eq!(frame.distance, 12_000);
    assert_eq!(frame.height, 4000);
    assert_eq!(frame.target_position, Vector3::new(1000, 4000, 12_000));
    assert_eq!(frame.position, Vector3::new(1000, 4000, 12_000));
    assert_eq!(frame.look_target, Vector3::new(1000, 1000, -1500));
}

#[test]
fn camera_moves_in_front_when_reversing() {
    let mut state = CameraState { was_reversing: true, ..CameraState::default() };
    let tuning = CameraTuning::default();
    let car = Car { speed: -30_000, ..Car::default() };
    let frame = camera_follow_system(
        &mut state,
        &tuning,
        &car,
        Vector3::zero(),
        Vector3::new(0, 0, 1000),
        Vector3::zero(),
        true,
        TICK,
    );
    assert_eq!(frame.speed_factor, 500);
    assert_eq!(frame.distance, 10_000);
    assert_eq!(frame.height, 4750);
    assert_eq!(frame.target_position, Vector3::new(0, 4750, 10_000));
    assert_eq!(frame.look_target, Vector3::new(0, 1000, -750));
    assert_eq!(frame.position, Vector3::new(0, 95, 200));
}

#[test]
fn camera_effects_follow_settings() {
    let on = GameSettings::default();
    let off = GameSettings {
        motion_blur_enabled: false,
        post_processing_enabled: false,
        atmospheric_fog_enabled: false,
    };
    let e = manage_camera_effects(&on);
    assert_eq!((e.fog_alpha, e.motion_blur_shutter), (400, 500));
    let e = manage_camera_effects(&off);
    assert_eq!((e.fog_alpha, e.motion_blur_shutter), (0, 0));
    let s = setup_camera_state(&on);
    assert_eq!(s.fog_alpha, 600);
    assert_eq!(s.motion_blur_shutter, 500);
    assert_eq!(s.motion_blur_samples, 4);
    assert_eq!(s.position, Vector3::new(0, 5500, 8000));
    assert_eq!(s.state.hold_threshold, DEFAULT_HOLD_THRESHOLD);
    assert!(!s.state.was_reversing);
    let s = setup_camera_state(&off);
    assert_eq!((s.fog_alpha, s.motion_blur_shutter), (0, 0));
}

#[test]
fn signals_for_cosmetics() {
    let car = Car { speed: -15_000, ..Car::default() };
    let state = CameraState { was_reversing: true, ..CameraState::default() };
    let s = racing_core::camera::publish_signals(&car, &state);
    assert_eq!(s.speed_ratio, 250);
    assert!(s.is_reversing);
    assert_eq!(s.forward_speed, -15_000);
}
