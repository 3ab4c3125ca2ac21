use racing_core::atmosphere::{
    update_sun_position, update_time_of_day, SunPhase, TimeOfDay, DAY, MOONLIGHT,
};
use racing_core::car::Car;
use racing_core::fixed::Vector3;
use racing_core::lighting::{create_headlights, setup_lighting, Rgb};
use racing_core::menu::{
    hover_color, main_menu_system, settings_menu_system, toggle_color, toggle_label,
    ButtonInteraction, GameSettings, GameState, SettingToggle, SettingsPresses,
};
use racing_core::post_processing::{
    setup_post_processing, update_post_process_settings, RacingPostProcessSettings,
};
use racing_core::world::{is_wheel_name, obstacle_radius, wheels_missing, ScatterKind};

#[test]
fn clock_runs_and_wraps() {
    let mut tod = TimeOfDay::default();
    update_time_of_day(&mut tod, false, false, 1_000_000);
    assert_eq!(tod.time, 300_694);
    let mut late = TimeOfDay { time: DAY - 10, speed: 694 };
    update_time_of_day(&mut late, true, false, 100);
    assert_eq!(late.time, 190);
    let mut early = TimeOfDay { time: 50, speed: 694 };
    update_time_of_day(&mut early, false, true, 100);
    assert_eq!(early.time, DAY - 150);
    let mut both = TimeOfDay { time: 0, speed: 694 };
    update_time_of_day(&mut both, true, true, 1_000);
    assert_eq!(both.time, 2_000);
    let mut long_rewind = TimeOfDay { time: 100, speed: 694 };
    update_time_of_day(&mut long_rewind, false, true, 1_000_000);
    assert_eq!(long_rewind.time, 100);
}

#[test]
fn sun_light_by_height() {
    let noon = update_sun_position(1_000_000, 130_000);
    assert_eq!(noon.phase, SunPhase::HighSun);
    assert_eq!(noon.illuminance, 130_000);
    assert_eq!(noon.sun_color, Rgb::new(1000, 1000, 1000));
    assert!(noon.sun_up);
    assert_eq!(noon.ambient_color, Rgb::new(900, 950, 1000));
    let low = update_sun_position(250_000, 130_000);
    assert_eq!(low.phase, SunPhase::LowSun);
    assert_eq!(low.illuminance, 65_000);
    assert_eq!(low.sun_color, Rgb::new(1000, 900, 700));
    let dusk = update_sun_position(50_000, 130_000);
    assert_eq!(dusk.phase, SunPhase::Twilight);
    assert_eq!(dusk.illuminance, 3_250);
    assert_eq!(dusk.sun_color, Rgb::new(1000, 500, 300));
    assert!(dusk.sun_up);
    assert!(!update_sun_position(0, 130_000).sun_up);
    assert_eq!(dusk.ambient_color, Rgb::new(200, 300, 800));
    let night = update_sun_position(-400_000, 130_000);
    assert_eq!(night.height, 0);
    assert_eq!(night.phase, SunPhase::Night);
    assert_eq!(night.illuminance, MOONLIGHT);
    assert_eq!(night.sun_color, Rgb::new(300, 300, 700));
}

#[test]
fn headlights_left_then_right() {
    let lights = create_headlights();
    assert_eq!(lights.len(), 2);
    assert_eq!(lights[0].position, Vector3::new(-600, 400, -1800));
    assert_eq!(lights[0].aim, Vector3::new(-600, 0, -10_000));
    assert_eq!(lights[1].position, Vector3::new(600, 400, -1800));
    assert_eq!(lights[1].intensity, 100_000);
    assert_eq!(lights[1].color, Rgb::new(1000, 1000, 900));
    assert_eq!((lights[1].inner_angle, lights[1].outer_angle), (30_000, 45_000));
    assert_eq!(lights[0].range, 50_000);
    let scene = setup_lighting();
    assert_eq!(scene.sun_illuminance, 30_000);
    assert_eq!(scene.ambient_brightness, 150);
}

#[test]
fn post_processing_grows_with_speed() {
    let on = GameSettings::default();
    let start = setup_post_processing();
    let rest = update_post_process_settings(&Car::default(), &on);
    assert_eq!(start, rest);
    let fast = update_post_process_settings(&Car { speed: -60_000, ..Car::default() }, &on);
    assert_eq!(
        fast,
        RacingPostProcessSettings {
            speed_intensity: 1_000_000,
            chromatic_aberration: 16_000,
            vignette_strength: 900_000,
            speed_lines: 700_000,
            color_saturation: 1_700_000,
            contrast: 1_500_000,
        }
    );
    let off = GameSettings { post_processing_enabled: false, ..on };
    let neutral = update_post_process_settings(&Car { speed: 30_000, ..Car::default() }, &off);
    assert_eq!(neutral.color_saturation, 1_000_000);
    assert_eq!(neutral.contrast, 1_000_000);
    assert_eq!(neutral.vignette_strength, 0);
    assert_eq!(RacingPostProcessSettings::default().contrast, 0);
}

#[test]
fn main_menu_buttons() {
    let none = main_menu_system(false, false, false);
    assert_eq!(none.next_state, None);
    assert!(!none.exit);
    assert_eq!(main_menu_system(true, false, false).next_state, Some(GameState::InGame));
    assert_eq!(main_menu_system(false, true, false).next_state, Some(GameState::Settings));
    assert_eq!(main_menu_system(true, true, false).next_state, Some(GameState::Settings));
    assert!(main_menu_system(false, false, true).exit);
    assert_eq!(GameState::default(), GameState::MainMenu);
    assert_eq!(hover_color(ButtonInteraction::Hovered), Some(Rgb::new(700, 700, 700)));
    assert_eq!(hover_color(ButtonInteraction::Idle), Some(Rgb::new(500, 500, 500)));
    assert_eq!(hover_color(ButtonInteraction::Pressed), None);
}

#[test]
fn settings_toggles_and_back() {
    let mut settings = GameSettings::default();
    let presses = SettingsPresses {
        motion_blur: true,
        post_processing: false,
        atmospheric_fog: true,
        back: false,
    };
    assert_eq!(settings_menu_system(&mut settings, presses), None);
    assert!(!settings.motion_blur_enabled);
    assert!(settings.post_processing_enabled);
    assert!(!settings.atmospheric_fog_enabled);
    assert!(!settings.is_enabled(SettingToggle::MotionBlur));
    let back = SettingsPresses { motion_blur: true, atmospheric_fog: false, back: true, ..presses };
    assert_eq!(settings_menu_system(&mut settings, back), Some(GameState::MainMenu));
    assert!(settings.motion_blur_enabled);
    assert_eq!(toggle_label(SettingToggle::MotionBlur, true), "MOTION BLUR: ON");
    assert_eq!(toggle_label(SettingToggle::PostProcessing, false), "POST PROCESSING: OFF");
    assert_eq!(toggle_label(SettingToggle::AtmosphericFog, true), "ATMOSPHERIC FOG: ON");
    assert_eq!(toggle_color(true), Rgb::new(200, 800, 200));
    assert_eq!(toggle_color(false), Rgb::new(800, 200, 200));
}

#[test]
fn world_rules() {
    assert!(is_wheel_name("wheel-front-left"));
    assert!(is_wheel_name("wheel-back-right"));
    assert!(!is_wheel_name("wheel-front"));
    assert!(!is_wheel_name("body"));
    assert!(wheels_missing(3));
    assert!(!wheels_missing(4));
    assert_eq!(obstacle_radius(0), 40_000);
    assert_eq!(obstacle_radius(4), 60_000);
    assert_eq!(obstacle_radius(5), 80_000);
    assert_eq!(ScatterKind::of_index(6), ScatterKind::YellowCylinder);
    assert_eq!(ScatterKind::of_index(6).rest_height(), 750);
    assert_eq!(ScatterKind::of_index(5).mass(), 30);
    assert_eq!(ScatterKind::of_index(7).rest_height(), 1000);
}
