use vstd::prelude::*;
use crate::fixed::Vector3;

verus! {

/// A colour, each channel in thousandths.
#[derive(Clone, Copy, Debug, PartialEq, Eq, Structural)]
pub struct Rgb {
    pub r: u16,
    pub g: u16,
    pub b: u16,
}

impl Rgb {
    pub fn new(r: u16, g: u16, b: u16) -> (c: Rgb)
        ensures
            c == (Rgb { r, g, b }),
    {
        Rgb { r, g, b }
    }
}

/// A headlight of the car: a spotlight with a small glowing bulb. Positions
/// in mm relative to the car (negative z is forward); intensity in lumens;
/// cone angles in thousandths of a degree.
#[derive(Clone, Copy, Debug, PartialEq, Eq, Structural)]
pub struct Headlight {
    pub position: Vector3,
    pub aim: Vector3,
    pub intensity: i64,
    pub color: Rgb,
    pub shadows: bool,
    pub inner_angle: i64,
    pub outer_angle: i64,
    pub range: i64,
    pub bulb_radius: i64,
}

/// The headlight on side `x` (mm; negative is left).
pub open spec fn headlight_at(x: i64) -> Headlight {
    Headlight {
        position: Vector3 { x, y: 400, z: -1800i64 },
        aim: Vector3 { x, y: 0, z: -10_000i64 },
        intensity: 100_000,
        color: Rgb { r: 1000, g: 1000, b: 900 },
        shadows: true,
        inner_angle: 30_000,
        outer_angle: 45_000,
        range: 50_000,
        bulb_radius: 100,
    }
}

fn headlight(x: i64) -> (r: Headlight)
    ensures
        r == headlight_at(x),
{
    Headlight {
        position: Vector3::new(x, 400, -1800),
        aim: Vector3::new(x, 0, -10_000),
        intensity: 100_000,
        color: Rgb::new(1000, 1000, 900),
        shadows: true,
        inner_angle: 30_000,
        outer_angle: 45_000,
        range: 50_000,
        bulb_radius: 100,
    }
}

/// The car's two headlights, left then right, 0.6 m either side of centre at
/// the front, pointing straight ahead in warm white with a 30° inner and 45°
/// outer cone.
pub fn create_headlights() -> (r: Vec<Headlight>)
    ensures
        r@ == seq![headlight_at(-600i64), headlight_at(600i64)],
{
    let mut lights: Vec<Headlight> = Vec::new();
    lights.push(headlight(-600));
    lights.push(headlight(600));
    lights
}

/// The scene's fixed lighting: a shadow-casting sun, its shadow cascades (mm)
/// and a bright ambient light.
#[derive(Clone, Copy, Debug, PartialEq, Eq, Structural)]
pub struct LightingSetup {
    pub sun_illuminance: i64,
    pub sun_position: Vector3,
    pub first_cascade_far_bound: i64,
    pub shadow_max_distance: i64,
    pub ambient_brightness: i64,
    pub ambient_color: Rgb,
}

pub fn setup_lighting() -> (r: LightingSetup)
    ensures
        r == (LightingSetup {
            sun_illuminance: 30_000,
            sun_position: Vector3 { x: 10_000, y: 20_000, z: 10_000 },
            first_cascade_far_bound: 10_000,
            shadow_max_distance: 50_000,
            ambient_brightness: 150,
            ambient_color: Rgb { r: 900, g: 950, b: 1000 },
        }),
{
    LightingSetup {
        sun_illuminance: 30_000,
        sun_position: Vector3::new(10_000, 20_000, 10_000),
        first_cascade_far_bound: 10_000,
        shadow_max_distance: 50_000,
        ambient_brightness: 150,
        ambient_color: Rgb::new(900, 950, 1000),
    }
}

/// Bare marker for the lighting stage of the game.
#[derive(Clone, Copy, Debug, PartialEq, Eq, Structural)]
pub struct LightingPlugin;

} // verus!
