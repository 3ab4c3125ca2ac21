use vstd::prelude::*;
use crate::car::{Car, ratio_spec, speed_ratio};
use crate::camera::abs_spec;
use crate::menu::GameSettings;

verus! {

/// Strength of the speed-dependent screen effects, in millionths.
#[derive(Clone, Copy, Debug, PartialEq, Eq, Structural)]
pub struct RacingPostProcessSettings {
    pub speed_intensity: i64,
    pub chromatic_aberration: i64,
    pub vignette_strength: i64,
    pub speed_lines: i64,
    pub color_saturation: i64,
    pub contrast: i64,
}

impl Default for RacingPostProcessSettings {
    /// Every effect at zero.
    fn default() -> (r: RacingPostProcessSettings)
        ensures
            r == (RacingPostProcessSettings {
                speed_intensity: 0,
                chromatic_aberration: 0,
                vignette_strength: 0,
                speed_lines: 0,
                color_saturation: 0,
                contrast: 0,
            }),
    {
        RacingPostProcessSettings {
            speed_intensity: 0,
            chromatic_aberration: 0,
            vignette_strength: 0,
            speed_lines: 0,
            color_saturation: 0,
            contrast: 0,
        }
    }
}

/// The effects for a speed factor `sf` (thousandths of top speed) while
/// post-processing is on: every effect grows linearly with speed.
pub open spec fn effects_at(sf: int) -> RacingPostProcessSettings {
    RacingPostProcessSettings {
        speed_intensity: (sf * 1000) as i64,
        chromatic_aberration: (4000 + sf * 12) as i64,
        vignette_strength: (400_000 + sf * 500) as i64,
        speed_lines: (sf * 700) as i64,
        color_saturation: (1_300_000 + sf * 400) as i64,
        contrast: (1_200_000 + sf * 300) as i64,
    }
}

/// The effects while post-processing is off: neutral colour, nothing else.
pub open spec fn effects_off() -> RacingPostProcessSettings {
    RacingPostProcessSettings {
        speed_intensity: 0,
        chromatic_aberration: 0,
        vignette_strength: 0,
        speed_lines: 0,
        color_saturation: 1_000_000,
        contrast: 1_000_000,
    }
}

/// The effects put on the game camera when a race starts (those of a car at rest).
pub fn setup_post_processing() -> (r: RacingPostProcessSettings)
    ensures
        r == effects_at(0),
{
    RacingPostProcessSettings {
        speed_intensity: 0,
        chromatic_aberration: 4000,
        vignette_strength: 400_000,
        speed_lines: 0,
        color_saturation: 1_300_000,
        contrast: 1_200_000,
    }
}

/// The effects for the car's current forward speed, or neutral ones when
/// post-processing is switched off.
pub fn update_post_process_settings(car: &Car, settings: &GameSettings) -> (r:
    RacingPostProcessSettings)
    requires
        car.wf(),
    ensures
        settings.post_processing_enabled ==> r == effects_at(
            ratio_spec(abs_spec(car.speed as int), car.max_speed as int),
        ),
        !settings.post_processing_enabled ==> r == effects_off(),
{
    if settings.post_processing_enabled {
        let magnitude = if car.speed < 0 {
            -car.speed
        } else {
            car.speed
        };
        let sf = speed_ratio(magnitude, car.max_speed);
        RacingPostProcessSettings {
            speed_intensity: sf * 1000,
            chromatic_aberration: 4000 + sf * 12,
            vignette_strength: 400_000 + sf * 500,
            speed_lines: sf * 700,
            color_saturation: 1_300_000 + sf * 400,
            contrast: 1_200_000 + sf * 300,
        }
    } else {
        RacingPostProcessSettings {
            speed_intensity: 0,
            chromatic_aberration: 0,
            vignette_strength: 0,
            speed_lines: 0,
            color_saturation: 1_000_000,
            contrast: 1_000_000,
        }
    }
}

/// Bare marker for the post-processing stage of the game.
#[derive(Clone, Copy, Debug, PartialEq, Eq, Structural)]
pub struct PostProcessingPlugin;

} // verus!
