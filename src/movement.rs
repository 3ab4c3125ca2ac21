use vstd::prelude::*;
use crate::fixed::{
    Vector3, bounded, floor_div, div_floor, lemma_mul_bounded, lemma_floor_div_bounded, SCALE,
    MAX_COMPONENT,
};
use crate::car::{Car, ControlInput, MAX_TICK};

verus! {

/// Speed below which a coasting car stops, in mm/s.
pub const STOP_SPEED: i64 = 100;

/// Share of speed kept by each coasting tick, in hundredths.
pub const COAST_KEEP: i64 = 95;

/// Division that rounds toward zero, by a positive divisor.
pub open spec fn trunc_div(a: int, d: int) -> int {
    if a >= 0 {
        a / d
    } else {
        -((-a) / d)
    }
}

/// Speed after one coasting tick: 95% of it, rounded toward zero, and zero
/// once below `STOP_SPEED`.
pub open spec fn coast_speed(s: int) -> int {
    let d = trunc_div(s * COAST_KEEP, 100);
    if -STOP_SPEED < d < STOP_SPEED {
        0
    } else {
        d
    }
}

/// Speed after `k` coasting ticks.
pub open spec fn coast_ticks(s: int, k: nat) -> int
    decreases k,
{
    if k == 0 {
        s
    } else {
        coast_ticks(coast_speed(s), (k - 1) as nat)
    }
}

/// Speed after one tick of the kinematic model (accelerate, reverse or coast).
pub open spec fn next_speed_spec(car: Car, input: ControlInput, dt: int) -> int {
    let dv = car.acceleration * dt / 1_000_000;
    if input.accelerate {
        if car.speed + dv > car.max_speed {
            car.max_speed as int
        } else {
            car.speed + dv
        }
    } else if input.reverse {
        if car.speed - dv < -(car.max_speed / 2) {
            -(car.max_speed / 2)
        } else {
            car.speed - dv
        }
    } else {
        coast_speed(car.speed as int)
    }
}

/// Turn of one tick, in microradians (positive to the left); the car only
/// turns while moving, and turns the other way in reverse.
pub open spec fn yaw_spec(car: Car, input: ControlInput, speed: int, dt: int) -> int {
    if speed > STOP_SPEED || speed < -STOP_SPEED {
        let factor = floor_div(speed * 1000, car.max_speed as int);
        let rate = floor_div(car.turn_speed * factor, 1000);
        let step = floor_div(rate * dt, 1000);
        (if input.steer_left {
            step
        } else {
            0
        }) + (if input.steer_right {
            -step
        } else {
            0
        })
    } else {
        0
    }
}

/// How the car moves in one tick of the kinematic model: its turn in
/// microradians and its displacement in micrometres.
#[derive(Clone, Copy, Debug, PartialEq, Eq, Structural)]
pub struct MovementStep {
    pub yaw: i64,
    pub displacement: Vector3,
}

fn coast(s: i64) -> (r: i64)
    requires
        -3 * MAX_COMPONENT <= s <= 3 * MAX_COMPONENT,
    ensures
        r == coast_speed(s as int),
        -3 * MAX_COMPONENT <= r <= 3 * MAX_COMPONENT,
{
    proof {
        lemma_coast_shrinks(s as int);
    }
    let d: i64 = if s >= 0 {
        s * COAST_KEEP / 100
    } else {
        -((-s) * COAST_KEEP / 100)
    };
    if -STOP_SPEED < d && d < STOP_SPEED {
        0
    } else {
        d
    }
}

/// One tick of the kinematic car model, where the car is moved directly
/// rather than through forces: holding accelerate raises the speed up to the
/// top speed, holding reverse lowers it down to minus half the top speed, and
/// coasting keeps 95% of it each tick until it snaps to zero. The car turns
/// in proportion to its speed and moves along its heading. `forward` is the
/// heading in thousandths; `dt` is the tick in microseconds.
pub fn car_movement_system(car: &mut Car, input: ControlInput, forward: Vector3, dt: u64) -> (r:
    MovementStep)
    requires
        old(car).wf(),
        bounded(forward, SCALE as int),
        dt <= MAX_TICK,
    ensures
        final(car).wf(),
        *final(car) == old(car).with_speed(next_speed_spec(*old(car), input, dt as int)),
        r.yaw == yaw_spec(*old(car), input, final(car).speed as int, dt as int),
        r.displacement.x == floor_div(forward.x * final(car).speed * dt, 1_000_000),
        r.displacement.y == floor_div(forward.y * final(car).speed * dt, 1_000_000),
        r.displacement.z == floor_div(forward.z * final(car).speed * dt, 1_000_000),
{
    let dti = dt as i64;
    proof {
        lemma_mul_bounded(car.acceleration as int, dt as int, MAX_COMPONENT as int, MAX_TICK as int);
        lemma_floor_div_bounded(car.acceleration * dt, 1_000_000, MAX_COMPONENT as int);
    }
    let dv = car.acceleration * dti / 1_000_000;
    let speed = if input.accelerate {
        if car.speed + dv > car.max_speed {
            car.max_speed
        } else {
            car.speed + dv
        }
    } else if input.reverse {
        if car.speed - dv < -(car.max_speed / 2) {
            -(car.max_speed / 2)
        } else {
            car.speed - dv
        }
    } else {
        coast(car.speed)
    };
    car.speed = speed;

    let mut yaw: i64 = 0;
    if speed > STOP_SPEED || speed < -STOP_SPEED {
        proof {
            lemma_mul_bounded(speed as int, 1000, 3 * MAX_COMPONENT, 1000);
            lemma_floor_div_bounded(speed * 1000, car.max_speed as int, 3 * MAX_COMPONENT * 1000);
        }
        let factor = div_floor(speed * 1000, car.max_speed);
        proof {
            lemma_mul_bounded(
                car.turn_speed as int,
                factor as int,
                MAX_COMPONENT as int,
                3 * MAX_COMPONENT * 1000,
            );
            lemma_floor_div_bounded(
                car.turn_speed * factor,
                1000,
                3 * MAX_COMPONENT * MAX_COMPONENT,
            );
        }
        let rate = div_floor(car.turn_speed * factor, 1000);
        proof {
            lemma_mul_bounded(rate as int, dt as int, 3 * MAX_COMPONENT * MAX_COMPONENT, MAX_TICK as int);
            lemma_floor_div_bounded(rate * dt, 1000, 3 * MAX_COMPONENT * MAX_COMPONENT * 1000);
        }
        let step = div_floor(rate * dti, 1000);
        if input.steer_left {
            yaw = yaw + step;
        }
        if input.steer_right {
            yaw = yaw - step;
        }
    }
    proof {
        lemma_mul_bounded(forward.x as int, speed as int, 1000, 3 * MAX_COMPONENT);
        lemma_mul_bounded(forward.y as int, speed as int, 1000, 3 * MAX_COMPONENT);
        lemma_mul_bounded(forward.z as int, speed as int, 1000, 3 * MAX_COMPONENT);
        lemma_mul_bounded(forward.x * speed, dt as int, 3000 * MAX_COMPONENT, MAX_TICK as int);
        lemma_mul_bounded(forward.y * speed, dt as int, 3000 * MAX_COMPONENT, MAX_TICK as int);
        lemma_mul_bounded(forward.z * speed, dt as int, 3000 * MAX_COMPONENT, MAX_TICK as int);
    }
    let displacement = Vector3 {
        x: div_floor(forward.x * speed * dti, 1_000_000),
        y: div_floor(forward.y * speed * dti, 1_000_000),
        z: div_floor(forward.z * speed * dti, 1_000_000),
    };
    MovementStep { yaw, displacement }
}

/// A coasting tick never raises the magnitude of the speed, lowers it
/// whenever it is not zero, and leaves either zero or at least `STOP_SPEED`.
proof fn lemma_coast_shrinks(s: int)
    ensures
        s >= 0 ==> 0 <= coast_speed(s) <= s,
        s <= 0 ==> s <= coast_speed(s) <= 0,
        s != 0 ==> (coast_speed(s) < s || coast_speed(s) > s),
        s > 0 ==> coast_speed(s) < s,
        s < 0 ==> coast_speed(s) > s,
        coast_speed(s) == 0 || coast_speed(s) >= STOP_SPEED || coast_speed(s) <= -STOP_SPEED,
{
    if s > 0 {
        vstd::arithmetic::div_mod::lemma_fundamental_div_mod(s * 95, 100);
        let q = (s * 95) / 100;
        let r = (s * 95) % 100;
        assert(0 <= q < s) by (nonlinear_arith)
            requires
                100 * q + r == s * 95,
                0 <= r < 100,
                s > 0,
        ;
    } else if s < 0 {
        vstd::arithmetic::div_mod::lemma_fundamental_div_mod((-s) * 95, 100);
        let q = ((-s) * 95) / 100;
        let r = ((-s) * 95) % 100;
        assert(0 <= q < -s) by (nonlinear_arith)
            requires
                100 * q + r == (-s) * 95,
                0 <= r < 100,
                s < 0,
        ;
    }
}

/// Coasting from any speed, each tick strictly lowers the magnitude of the
/// speed while it is not zero, a speed below 0.1 m/s never survives a tick,
/// and after as many ticks as the speed counts mm/s the car is exactly at rest.
pub proof fn coasting_comes_to_rest(s: int, k: nat)
    requires
        k >= s && k >= -s,
    ensures
        s > 0 ==> 0 <= coast_speed(s) < s,
        s < 0 ==> s < coast_speed(s) <= 0,
        coast_speed(s) == 0 || coast_speed(s) >= STOP_SPEED || coast_speed(s) <= -STOP_SPEED,
        coast_ticks(s, k) == 0,
    decreases k,
{
    lemma_coast_shrinks(s);
    if k > 0 {
        let next = coast_speed(s);
        lemma_coast_shrinks(next);
        coasting_comes_to_rest(next, (k - 1) as nat);
    } else {
        assert(s == 0);
    }
}

} // verus!
