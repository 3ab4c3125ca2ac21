use vstd::prelude::*;
use crate::fixed::{sqrt_floor, lemma_mul_bounded};
use crate::car::{MAX_TICK, is_floor_sqrt};
use crate::lighting::Rgb;

verus! {

/// One day, in millionths of a day.
pub const DAY: u64 = 1_000_000;

/// Largest clock rate accepted, in millionths of a day per second (a
/// thousand days per second).
pub const MAX_DAY_RATE: u64 = 1_000_000_000;

/// The game's clock: `time` is the fraction of the day gone, in millionths
/// (0 is midnight, half a million is noon); `speed` is how fast it runs, in
/// millionths of a day per second.
#[derive(Clone, Copy, Debug, PartialEq, Eq, Structural)]
pub struct TimeOfDay {
    pub time: u64,
    pub speed: u64,
}

impl TimeOfDay {
    pub open spec fn wf(self) -> bool {
        self.time < DAY && self.speed <= MAX_DAY_RATE
    }
}

impl Default for TimeOfDay {
    /// Morning, with a full day every 24 minutes.
    fn default() -> (r: TimeOfDay)
        ensures
            r == (TimeOfDay { time: 300_000, speed: 694 }),
            r.wf(),
    {
        TimeOfDay { time: 300_000, speed: 694 }
    }
}

/// How far the clock moves in a tick of `dt` microseconds: two days per
/// second forward or backward while fast-forward or rewind is held
/// (fast-forward wins), else at the clock's own rate.
pub open spec fn clock_delta(tod: TimeOfDay, fast_forward: bool, rewind: bool, dt: int) -> int {
    if fast_forward {
        2 * dt
    } else if rewind {
        -2 * dt
    } else {
        tod.speed * dt / 1_000_000
    }
}

/// Advances the clock by one tick, wrapping around midnight both ways.
pub fn update_time_of_day(tod: &mut TimeOfDay, fast_forward: bool, rewind: bool, dt: u64)
    requires
        old(tod).wf(),
        dt <= MAX_TICK,
    ensures
        final(tod).wf(),
        final(tod).speed == old(tod).speed,
        final(tod).time as int == (old(tod).time + clock_delta(
            *old(tod),
            fast_forward,
            rewind,
            dt as int,
        )) % (DAY as int),
{
    if fast_forward {
        tod.time = (tod.time + 2 * dt) % DAY;
    } else if rewind {
        let back = (2 * dt) % DAY;
        let t = (tod.time + DAY - back) % DAY;
        proof {
            let d = DAY as int;
            let b = 2 * dt as int;
            vstd::arithmetic::div_mod::lemma_fundamental_div_mod(b, d);
            let q = b / d;
            let t0 = old(tod).time as int;
            let bk = back as int;
            assert(t0 + d - bk == (t0 - b) + d * (q + 1)) by (nonlinear_arith)
                requires
                    d * q + bk == b,
            ;
            vstd::arithmetic::div_mod::lemma_mod_multiples_vanish(q + 1, t0 - b, d);
        }
        tod.time = t;
    } else {
        proof {
            lemma_mul_bounded(tod.speed as int, dt as int, MAX_DAY_RATE as int, MAX_TICK as int);
        }
        let step = tod.speed * dt / 1_000_000;
        tod.time = (tod.time + step) % DAY;
    }
}

/// Where the sun stands, by its height above the horizon.
#[derive(Clone, Copy, Debug, PartialEq, Eq, Structural)]
pub enum SunPhase {
    /// Above half height.
    HighSun,
    /// Above a tenth.
    LowSun,
    /// Just above the horizon.
    Twilight,
    /// At or below the horizon.
    Night,
}

/// The light of the sun and sky for a sun height, in millionths of the
/// sun's direction (zero or less at night).
#[derive(Clone, Copy, Debug, PartialEq, Eq, Structural)]
pub struct SunLighting {
    /// The height used, below-horizon values raised to zero.
    pub height: i64,
    pub phase: SunPhase,
    /// In lux.
    pub illuminance: i64,
    pub sun_color: Rgb,
    pub ambient_color: Rgb,
    /// Whether the sun is above the horizon: the ambient brightness then
    /// follows the sun's height, else it is `NIGHT_AMBIENT`.
    pub sun_up: bool,
}

pub open spec fn sun_phase_spec(h: int) -> SunPhase {
    if h > 500_000 {
        SunPhase::HighSun
    } else if h > 100_000 {
        SunPhase::LowSun
    } else if h > 0 {
        SunPhase::Twilight
    } else {
        SunPhase::Night
    }
}

pub open spec fn sun_color_spec(p: SunPhase) -> Rgb {
    match p {
        SunPhase::HighSun => Rgb { r: 1000, g: 1000, b: 1000 },
        SunPhase::LowSun => Rgb { r: 1000, g: 900, b: 700 },
        SunPhase::Twilight => Rgb { r: 1000, g: 500, b: 300 },
        SunPhase::Night => Rgb { r: 300, g: 300, b: 700 },
    }
}

/// Brightness of moonlight at night, in lux.
pub const MOONLIGHT: i64 = 100;

/// Largest full-sun illuminance accepted, in lux.
pub const MAX_SUNLIGHT: i64 = 1_000_000;

/// The sun's light, its colour and the sky's colour for a sun height `sine`
/// (millionths). By day the illuminance is full sunlight times the square
/// root of the height; in twilight it fades with the square of the height,
/// from a tenth of full sunlight at a height of a tenth; at night it is
/// moonlight.
pub fn update_sun_position(sine: i64, raw_sunlight: i64) -> (r: SunLighting)
    requires
        -1_000_000 <= sine <= 1_000_000,
        0 <= raw_sunlight <= MAX_SUNLIGHT,
    ensures
        r.height == (if sine > 0 {
            sine as int
        } else {
            0
        }),
        r.phase == sun_phase_spec(r.height as int),
        r.sun_color == sun_color_spec(r.phase),
        r.height > 100_000 ==> exists|s: int|
            #[trigger] is_floor_sqrt(s, r.height as int) && r.illuminance == raw_sunlight * s / 1000,
        0 < r.height <= 100_000 ==> r.illuminance == raw_sunlight * r.height * r.height
            / 100_000_000_000,
        r.height == 0 ==> r.illuminance == MOONLIGHT,
        r.sun_up == (r.height > 0),
        r.ambient_color == (if r.height > 100_000 {
            Rgb { r: 900, g: 950, b: 1000 }
        } else {
            Rgb { r: 200, g: 300, b: 800 }
        }),
{
    let h: i64 = if sine > 0 {
        sine
    } else {
        0
    };
    let phase = if h > 500_000 {
        SunPhase::HighSun
    } else if h > 100_000 {
        SunPhase::LowSun
    } else if h > 0 {
        SunPhase::Twilight
    } else {
        SunPhase::Night
    };
    let sun_color = match phase {
        SunPhase::HighSun => Rgb::new(1000, 1000, 1000),
        SunPhase::LowSun => Rgb::new(1000, 900, 700),
        SunPhase::Twilight => Rgb::new(1000, 500, 300),
        SunPhase::Night => Rgb::new(300, 300, 700),
    };
    let illuminance = if h > 100_000 {
        let s = sqrt_floor(h as u64);
        assert(s <= 1000) by (nonlinear_arith)
            requires
                s * s <= h,
                h <= 1_000_000,
        ;
        proof {
            lemma_mul_bounded(raw_sunlight as int, s as int, MAX_SUNLIGHT as int, 1000);
        }
        let lux = raw_sunlight * (s as i64) / 1000;
        assert(is_floor_sqrt(s as int, h as int) && lux == raw_sunlight * s / 1000);
        lux
    } else if h > 0 {
        proof {
            lemma_mul_bounded(raw_sunlight as int, h as int, MAX_SUNLIGHT as int, 100_000);
            lemma_mul_bounded(raw_sunlight * h, h as int, MAX_SUNLIGHT * 100_000, 100_000);
        }
        raw_sunlight * h * h / 100_000_000_000
    } else {
        MOONLIGHT
    };
    let day = h > 100_000;
    let sun_up = h > 0;
    SunLighting {
        height: h,
        phase,
        illuminance,
        sun_color,
        ambient_color: if day {
            Rgb::new(900, 950, 1000)
        } else {
            Rgb::new(200, 300, 800)
        },
        sun_up,
    }
}

/// Brightness of the night sky's ambient light.
pub const NIGHT_AMBIENT: i64 = 150;

/// Bare marker for the sun's light in the scene.
#[derive(Clone, Copy, Debug, PartialEq, Eq, Structural)]
pub struct Sun;

/// Bare marker for the day-night stage of the game.
#[derive(Clone, Copy, Debug, PartialEq, Eq, Structural)]
pub struct AtmospherePlugin;

} // verus!
