use vstd::prelude::*;
use crate::fixed::{
    Vector3, bounded, dot_spec, floor_div, div_away, div_floor, div_away_from_zero, sqrt_floor,
    lemma_mul_bounded, lemma_floor_div_bounded, SCALE, MAX_COMPONENT,
};

verus! {

/// Largest force setting accepted, in millinewtons (a million newtons).
pub const MAX_FORCE: i64 = 1_000_000_000;

/// Largest coefficient accepted for a `Handling` gain.
pub const MAX_GAIN: i64 = 10_000;

/// Full scale of a ratio, in thousandths.
pub const PERMILLE: i64 = 1000;

/// The simulated car.
///
/// Units: speeds in mm/s, acceleration in mm/s², `turn_speed` in mrad/s,
/// forces in mN.
#[derive(Clone, Copy, Debug, PartialEq, Eq, Structural)]
pub struct Car {
    /// Signed speed along the heading; derived from the physics body each tick.
    pub speed: i64,
    pub max_speed: i64,
    pub acceleration: i64,
    pub turn_speed: i64,
    pub motor_force: i64,
    pub brake_force: i64,
}

/// Why a car configuration was rejected.
#[derive(Clone, Copy, Debug, PartialEq, Eq, Structural)]
pub enum ConfigError {
    /// The top speed is zero or negative.
    NonPositiveMaxSpeed,
    /// A setting is negative or beyond the supported range.
    OutOfRange,
    /// The body's mass is zero or negative.
    NonPositiveMass,
}

/// Accepts the mass of a car's body, in grams, for the physics engine; a
/// zero or negative mass is a configuration error.
pub fn validate_mass(mass: i64) -> (r: Result<i64, ConfigError>)
    ensures
        mass <= 0 ==> r == Err::<i64, ConfigError>(ConfigError::NonPositiveMass),
        mass > 0 ==> r == Ok::<i64, ConfigError>(mass),
{
    if mass <= 0 {
        Err(ConfigError::NonPositiveMass)
    } else {
        Ok(mass)
    }
}

impl Car {
    /// The configuration is usable: a positive top speed and every setting in range.
    pub open spec fn wf(self) -> bool {
        &&& 0 < self.max_speed <= MAX_COMPONENT
        &&& 0 <= self.acceleration <= MAX_COMPONENT
        &&& 0 <= self.turn_speed <= MAX_COMPONENT
        &&& 0 <= self.motor_force <= MAX_FORCE
        &&& 0 <= self.brake_force <= MAX_FORCE
        &&& -3 * MAX_COMPONENT <= self.speed <= 3 * MAX_COMPONENT
    }

    /// The same car with another forward speed.
    pub open spec fn with_speed(self, speed: int) -> Car {
        Car {
            speed: speed as i64,
            max_speed: self.max_speed,
            acceleration: self.acceleration,
            turn_speed: self.turn_speed,
            motor_force: self.motor_force,
            brake_force: self.brake_force,
        }
    }

    /// Settings that `new` accepts (the speed starts at zero).
    pub open spec fn settings_in_range(
        acceleration: i64,
        turn_speed: i64,
        motor_force: i64,
        brake_force: i64,
    ) -> bool {
        &&& 0 <= acceleration <= MAX_COMPONENT
        &&& 0 <= turn_speed <= MAX_COMPONENT
        &&& 0 <= motor_force <= MAX_FORCE
        &&& 0 <= brake_force <= MAX_FORCE
    }

    /// Builds a car at rest, rejecting a configuration that the dynamics cannot use.
    pub fn new(
        max_speed: i64,
        acceleration: i64,
        turn_speed: i64,
        motor_force: i64,
        brake_force: i64,
    ) -> (r: Result<Car, ConfigError>)
        ensures
            max_speed <= 0 ==> r == Err::<Car, ConfigError>(ConfigError::NonPositiveMaxSpeed),
            max_speed > 0 && (max_speed > MAX_COMPONENT || !Self::settings_in_range(
                acceleration,
                turn_speed,
                motor_force,
                brake_force,
            )) ==> r == Err::<Car, ConfigError>(ConfigError::OutOfRange),
            0 < max_speed <= MAX_COMPONENT && Self::settings_in_range(
                acceleration,
                turn_speed,
                motor_force,
                brake_force,
            ) ==> r == Ok::<Car, ConfigError>(
                Car { speed: 0, max_speed, acceleration, turn_speed, motor_force, brake_force },
            ),
            r is Ok ==> r->Ok_0.wf(),
    {
        if max_speed <= 0 {
            return Err(ConfigError::NonPositiveMaxSpeed);
        }
        if max_speed > MAX_COMPONENT || acceleration < 0 || acceleration > MAX_COMPONENT
            || turn_speed < 0 || turn_speed > MAX_COMPONENT || motor_force < 0 || motor_force
            > MAX_FORCE || brake_force < 0 || brake_force > MAX_FORCE {
            return Err(ConfigError::OutOfRange);
        }
        Ok(Car { speed: 0, max_speed, acceleration, turn_speed, motor_force, brake_force })
    }
}

impl Default for Car {
    /// A performance sedan: 60 m/s top speed, 35 kN motor, 25 kN brakes.
    fn default() -> (r: Car)
        ensures
            r == (Car {
                speed: 0,
                max_speed: 60_000,
                acceleration: 800_000,
                turn_speed: 2_500,
                motor_force: 35_000_000,
                brake_force: 25_000_000,
            }),
            r.wf(),
    {
        Car {
            speed: 0,
            max_speed: 60_000,
            acceleration: 800_000,
            turn_speed: 2_500,
            motor_force: 35_000_000,
            brake_force: 25_000_000,
        }
    }
}

/// The tuning of the dynamics beyond the car's own settings.
///
/// Units: `lateral_grip`, `coast_drag` and `speed_limit_gain` in N per m/s;
/// `lateral_deadband` in mm/s; `turn_torque_factor` in N·m per rad/s of
/// `turn_speed`; `turn_falloff`, `min_turn_effectiveness` and
/// `downforce_threshold` in thousandths; `angular_damping` in N·m per rad/s;
/// `downforce` in N at full speed.
#[derive(Clone, Copy, Debug, PartialEq, Eq, Structural)]
pub struct Handling {
    pub lateral_grip: i64,
    pub lateral_deadband: i64,
    pub coast_drag: i64,
    pub turn_torque_factor: i64,
    pub turn_falloff: i64,
    pub min_turn_effectiveness: i64,
    pub angular_damping: i64,
    pub downforce: i64,
    pub downforce_threshold: i64,
    pub speed_limit_gain: i64,
}

impl Handling {
    /// Every coefficient in its range; the speed limit always pushes back.
    pub open spec fn wf(self) -> bool {
        &&& 0 <= self.lateral_grip <= MAX_GAIN
        &&& 0 <= self.lateral_deadband <= MAX_COMPONENT
        &&& 0 <= self.coast_drag <= MAX_GAIN
        &&& 0 <= self.turn_torque_factor <= MAX_GAIN
        &&& 0 <= self.turn_falloff <= PERMILLE
        &&& 0 <= self.min_turn_effectiveness <= PERMILLE
        &&& 0 <= self.angular_damping <= MAX_GAIN
        &&& 0 <= self.downforce <= MAX_COMPONENT
        &&& 0 <= self.downforce_threshold <= PERMILLE
        &&& 0 < self.speed_limit_gain <= MAX_GAIN
    }
}

impl Default for Handling {
    fn default() -> (r: Handling)
        ensures
            r == (Handling {
                lateral_grip: 15,
                lateral_deadband: 100,
                coast_drag: 2,
                turn_torque_factor: 4000,
                turn_falloff: 200,
                min_turn_effectiveness: 600,
                angular_damping: 5,
                downforce: 1000,
                downforce_threshold: 200,
                speed_limit_gain: 800,
            }),
            r.wf(),
    {
        Handling {
            lateral_grip: 15,
            lateral_deadband: 100,
            coast_drag: 2,
            turn_torque_factor: 4000,
            turn_falloff: 200,
            min_turn_effectiveness: 600,
            angular_damping: 5,
            downforce: 1000,
            downforce_threshold: 200,
            speed_limit_gain: 800,
        }
    }
}

/// The player's controls for one tick. Pressing both pedals, or both
/// directions, applies both.
#[derive(Clone, Copy, Debug, PartialEq, Eq, Structural)]
pub struct ControlInput {
    pub accelerate: bool,
    pub reverse: bool,
    pub steer_left: bool,
    pub steer_right: bool,
}

impl ControlInput {
    /// Each action is bound to an arrow key and a letter key; either one holds it.
    pub fn from_keys(
        arrow_up: bool,
        key_w: bool,
        arrow_down: bool,
        key_s: bool,
        arrow_left: bool,
        key_a: bool,
        arrow_right: bool,
        key_d: bool,
    ) -> (r: ControlInput)
        ensures
            r == (ControlInput {
                accelerate: arrow_up || key_w,
                reverse: arrow_down || key_s,
                steer_left: arrow_left || key_a,
                steer_right: arrow_right || key_d,
            }),
    {
        ControlInput {
            accelerate: arrow_up || key_w,
            reverse: arrow_down || key_s,
            steer_left: arrow_left || key_a,
            steer_right: arrow_right || key_d,
        }
    }

    /// No pedal is held.
    pub open spec fn coasting(self) -> bool {
        !self.accelerate && !self.reverse
    }
}

/// What the physics engine reports of the car's body before integration,
/// and its orientation. Velocities in mm/s and mrad/s; `forward` and `right`
/// are directions in thousandths (a unit vector has length `SCALE`).
#[derive(Clone, Copy, Debug, PartialEq, Eq, Structural)]
pub struct BodyState {
    pub linear_velocity: Vector3,
    pub angular_velocity: Vector3,
    pub forward: Vector3,
    pub right: Vector3,
}

impl BodyState {
    pub open spec fn wf(self) -> bool {
        &&& bounded(self.linear_velocity, MAX_COMPONENT as int)
        &&& bounded(self.angular_velocity, MAX_COMPONENT as int)
        &&& bounded(self.forward, SCALE as int)
        &&& bounded(self.right, SCALE as int)
    }
}

/// The force (mN) and torque (mN·m) for one tick, with the measured speed
/// (|linear velocity| rounded down, mm/s) and speed ratio (thousandths).
#[derive(Clone, Copy, Debug, PartialEq, Eq, Structural)]
pub struct CarForces {
    pub force: Vector3,
    pub torque: Vector3,
    pub speed: i64,
    pub speed_ratio: i64,
}

/// `s` is the square root of `n` rounded down.
pub open spec fn is_floor_sqrt(s: int, n: int) -> bool {
    s >= 0 && s * s <= n < (s + 1) * (s + 1)
}

/// The square root of `n` rounded up, from the one rounded down.
pub open spec fn ceil_from_floor(s: int, n: int) -> int {
    if s * s == n {
        s
    } else {
        s + 1
    }
}

/// Speed over top speed, in thousandths, capped at one.
pub open spec fn ratio_spec(speed: int, max_speed: int) -> int {
    let q = speed * 1000 / max_speed;
    if q > 1000 {
        1000
    } else {
        q
    }
}

/// Share of motor force available at a speed ratio, in thousandths: full
/// power below 30% of top speed, 80% up to 60%, 50% up to 85%, 20% above.
pub open spec fn acceleration_curve_spec(r: int) -> int {
    if r < 300 {
        1000
    } else if r < 600 {
        800
    } else if r < 850 {
        500
    } else {
        200
    }
}

/// Share of steering torque kept at a speed ratio, in thousandths.
pub open spec fn turn_effectiveness_spec(h: Handling, r: int) -> int {
    let e = 1000 - r * h.turn_falloff / 1000;
    if e < h.min_turn_effectiveness {
        h.min_turn_effectiveness as int
    } else {
        e
    }
}

/// Motor push along one component `c` of the heading.
pub open spec fn motor_term(car: Car, input: ControlInput, curve: int, c: int) -> int {
    if input.accelerate {
        floor_div(c * car.motor_force * curve, 1_000_000)
    } else {
        0
    }
}

/// Brake (or reverse) push against one component `c` of the heading.
pub open spec fn brake_term(car: Car, input: ControlInput, c: int) -> int {
    if input.reverse {
        floor_div(-(c * car.brake_force), SCALE as int)
    } else {
        0
    }
}

/// Sideways speed in mm/s, from the velocity and the right direction.
pub open spec fn lateral_speed_spec(body: BodyState) -> int {
    floor_div(dot_spec(body.linear_velocity, body.right), SCALE as int)
}

/// Grip against sideways sliding along one component `c` of the right direction.
pub open spec fn grip_term(h: Handling, lateral: int, c: int) -> int {
    if lateral > h.lateral_deadband || lateral < -h.lateral_deadband {
        floor_div(-(c * lateral * h.lateral_grip), SCALE as int)
    } else {
        0
    }
}

/// Drag while coasting, along one velocity component `v`.
pub open spec fn drag_term(h: Handling, input: ControlInput, v: int) -> int {
    if input.coasting() {
        -(v * h.coast_drag)
    } else {
        0
    }
}

/// Downward force at speed (vertical component only).
pub open spec fn downforce_term(h: Handling, ratio: int) -> int {
    if ratio > h.downforce_threshold {
        -(ratio * h.downforce)
    } else {
        0
    }
}

/// Correction against one velocity component `v` while the speed `|v|`
/// (squared: `n`; rounded up: `c`) exceeds the top speed.
pub open spec fn limit_term(car: Car, h: Handling, n: int, c: int, v: int) -> int {
    if n > car.max_speed * car.max_speed {
        -div_away(v * (c - car.max_speed) * h.speed_limit_gain, c)
    } else {
        0
    }
}

/// Steering torque about the vertical axis.
pub open spec fn steer_term(car: Car, h: Handling, input: ControlInput, ratio: int) -> int {
    let base = floor_div(
        car.turn_speed * h.turn_torque_factor * turn_effectiveness_spec(h, ratio),
        1000,
    );
    (if input.steer_left {
        base
    } else {
        0
    }) + (if input.steer_right {
        -base
    } else {
        0
    })
}

/// The force of one tick, component by component: motor, brake, grip, drag,
/// downforce and speed-limit correction.
pub open spec fn force_spec(
    car: Car,
    h: Handling,
    input: ControlInput,
    body: BodyState,
    speed: int,
    ratio: int,
) -> (int, int, int) {
    let curve = acceleration_curve_spec(ratio);
    let lat = lateral_speed_spec(body);
    let n = dot_spec(body.linear_velocity, body.linear_velocity);
    let c = ceil_from_floor(speed, n);
    let f = body.forward;
    let r = body.right;
    let v = body.linear_velocity;
    (
        motor_term(car, input, curve, f.x as int) + brake_term(car, input, f.x as int) + grip_term(
            h,
            lat,
            r.x as int,
        ) + drag_term(h, input, v.x as int) + limit_term(car, h, n, c, v.x as int),
        motor_term(car, input, curve, f.y as int) + brake_term(car, input, f.y as int) + grip_term(
            h,
            lat,
            r.y as int,
        ) + drag_term(h, input, v.y as int) + downforce_term(h, ratio) + limit_term(
            car,
            h,
            n,
            c,
            v.y as int,
        ),
        motor_term(car, input, curve, f.z as int) + brake_term(car, input, f.z as int) + grip_term(
            h,
            lat,
            r.z as int,
        ) + drag_term(h, input, v.z as int) + limit_term(car, h, n, c, v.z as int),
    )
}

/// The torque of one tick: steering about the vertical axis, and angular damping.
pub open spec fn torque_spec(
    car: Car,
    h: Handling,
    input: ControlInput,
    body: BodyState,
    ratio: int,
) -> (int, int, int) {
    let w = body.angular_velocity;
    (
        -(w.x * h.angular_damping),
        steer_term(car, h, input, ratio) - w.y * h.angular_damping,
        -(w.z * h.angular_damping),
    )
}

/// Speed over top speed, in thousandths, capped at one.
pub fn speed_ratio(speed: i64, max_speed: i64) -> (r: i64)
    requires
        0 <= speed <= 4 * MAX_COMPONENT,
        0 < max_speed,
    ensures
        r == ratio_spec(speed as int, max_speed as int),
        0 <= r <= PERMILLE,
{
    let q = speed * PERMILLE / max_speed;
    if q > PERMILLE {
        PERMILLE
    } else {
        q
    }
}

/// Share of motor force available at a speed ratio, in thousandths.
pub fn acceleration_curve(speed_ratio: i64) -> (r: i64)
    ensures
        r == acceleration_curve_spec(speed_ratio as int),
{
    if speed_ratio < 300 {
        1000
    } else if speed_ratio < 600 {
        800
    } else if speed_ratio < 850 {
        500
    } else {
        200
    }
}

/// Share of steering torque kept at a speed ratio, in thousandths.
pub fn turn_effectiveness(h: &Handling, speed_ratio: i64) -> (r: i64)
    requires
        h.wf(),
        0 <= speed_ratio <= PERMILLE,
    ensures
        r == turn_effectiveness_spec(*h, speed_ratio as int),
        0 <= r <= PERMILLE,
{
    proof {
        lemma_mul_bounded(speed_ratio as int, h.turn_falloff as int, 1000, 1000);
    }
    let loss = speed_ratio * h.turn_falloff / PERMILLE;
    let e = PERMILLE - loss;
    if e < h.min_turn_effectiveness {
        h.min_turn_effectiveness
    } else {
        e
    }
}

fn motor_component(car: &Car, input: ControlInput, curve: i64, c: i64) -> (r: i64)
    requires
        car.wf(),
        0 <= curve <= PERMILLE,
        -SCALE <= c <= SCALE,
    ensures
        r == motor_term(*car, input, curve as int, c as int),
        -MAX_FORCE <= r <= MAX_FORCE,
{
    if input.accelerate {
        proof {
            lemma_mul_bounded(c as int, car.motor_force as int, 1000, MAX_FORCE as int);
            lemma_mul_bounded(
                c * car.motor_force,
                curve as int,
                1000 * MAX_FORCE,
                1000,
            );
            lemma_floor_div_bounded(c * car.motor_force * curve, 1_000_000, MAX_FORCE as int);
        }
        div_floor(c * car.motor_force * curve, 1_000_000)
    } else {
        0
    }
}

fn brake_component(car: &Car, input: ControlInput, c: i64) -> (r: i64)
    requires
        car.wf(),
        -SCALE <= c <= SCALE,
    ensures
        r == brake_term(*car, input, c as int),
        -MAX_FORCE <= r <= MAX_FORCE,
{
    if input.reverse {
        proof {
            lemma_mul_bounded(c as int, car.brake_force as int, 1000, MAX_FORCE as int);
            lemma_floor_div_bounded(-(c * car.brake_force), 1000, MAX_FORCE as int);
        }
        div_floor(-(c * car.brake_force), SCALE)
    } else {
        0
    }
}

/// Bound on the sideways speed: a velocity component times a direction
/// component, three times, over `SCALE`.
pub const MAX_LATERAL: i64 = 3 * MAX_COMPONENT;

fn grip_component(h: &Handling, lateral: i64, c: i64) -> (r: i64)
    requires
        h.wf(),
        -MAX_LATERAL <= lateral <= MAX_LATERAL,
        -SCALE <= c <= SCALE,
    ensures
        r == grip_term(*h, lateral as int, c as int),
        -MAX_LATERAL * MAX_GAIN <= r <= MAX_LATERAL * MAX_GAIN,
{
    if lateral > h.lateral_deadband || lateral < -h.lateral_deadband {
        proof {
            lemma_mul_bounded(c as int, lateral as int, 1000, MAX_LATERAL as int);
            lemma_mul_bounded(
                c * lateral,
                h.lateral_grip as int,
                1000 * MAX_LATERAL,
                MAX_GAIN as int,
            );
            lemma_floor_div_bounded(
                -(c * lateral * h.lateral_grip),
                1000,
                MAX_LATERAL * MAX_GAIN,
            );
        }
        div_floor(-(c * lateral * h.lateral_grip), SCALE)
    } else {
        0
    }
}

fn drag_component(h: &Handling, input: ControlInput, v: i64) -> (r: i64)
    requires
        h.wf(),
        -MAX_COMPONENT <= v <= MAX_COMPONENT,
    ensures
        r == drag_term(*h, input, v as int),
        -MAX_COMPONENT * MAX_GAIN <= r <= MAX_COMPONENT * MAX_GAIN,
{
    if !input.accelerate && !input.reverse {
        proof {
            lemma_mul_bounded(v as int, h.coast_drag as int, MAX_COMPONENT as int, MAX_GAIN as int);
        }
        -(v * h.coast_drag)
    } else {
        0
    }
}

/// Bound on one component of the speed-limit correction.
pub const MAX_LIMIT_FORCE: i64 = 2_000_002 * MAX_COMPONENT * MAX_GAIN;

fn limit_component(car: &Car, h: &Handling, n: u64, c: u64, v: i64) -> (r: i64)
    requires
        car.wf(),
        h.wf(),
        -MAX_COMPONENT <= v <= MAX_COMPONENT,
        c <= 2_000_001,
        c * c >= n,
        n > car.max_speed * car.max_speed ==> c > car.max_speed,
    ensures
        r == limit_term(*car, *h, n as int, c as int, v as int),
        -MAX_LIMIT_FORCE <= r <= MAX_LIMIT_FORCE,
{
    proof {
        lemma_mul_bounded(car.max_speed as int, car.max_speed as int, MAX_COMPONENT as int, MAX_COMPONENT as int);
    }
    if n > (car.max_speed * car.max_speed) as u64 {
        let k = c as i64 - car.max_speed;
        proof {
            lemma_mul_bounded(v as int, k as int, MAX_COMPONENT as int, 2_000_001);
            lemma_mul_bounded(
                v * k,
                h.speed_limit_gain as int,
                2_000_001 * MAX_COMPONENT,
                MAX_GAIN as int,
            );
        }
        let a = v * k * h.speed_limit_gain;
        let q = div_away_from_zero(a, c as i64);
        proof {
            lemma_div_away_bounded(a as int, c as int, 2_000_001 * MAX_COMPONENT * MAX_GAIN);
        }
        -q
    } else {
        0
    }
}

/// Rounding away from zero by a positive divisor stays within one more than
/// the dividend's bound.
proof fn lemma_div_away_bounded(a: int, d: int, m: int)
    requires
        d > 0,
        -m <= a <= m,
    ensures
        -(m + 1) <= div_away(a, d) <= m + 1,
{
    if a >= 0 {
        assert(a + d - 1 <= (m + 1) * d) by (nonlinear_arith)
            requires
                a <= m,
                d > 0,
                m >= 0,
        ;
        assert(-(m + 1) * d <= a + d - 1) by (nonlinear_arith)
            requires
                a >= 0,
                d > 0,
                m >= 0,
        ;
        lemma_floor_div_bounded(a + d - 1, d, m + 1);
    } else {
        assert(-a + d - 1 <= (m + 1) * d) by (nonlinear_arith)
            requires
                -a <= m,
                d > 0,
                m >= 0,
        ;
        assert(-(m + 1) * d <= -a + d - 1) by (nonlinear_arith)
            requires
                a < 0,
                d > 0,
                m >= 0,
        ;
        lemma_floor_div_bounded(-a + d - 1, d, m + 1);
    }
}

/// One tick of the vehicle dynamics.
///
/// Recomputes the car's forward speed from the body's velocity and returns
/// the force and torque to hand to the physics engine: motor push scaled by
/// the acceleration curve, brake, lateral grip, coasting drag, steering
/// torque scaled by turn effectiveness, angular damping, downforce at speed
/// and a correction against the excess over top speed. Nothing carries over
/// from one tick to the next but the car's speed.
pub fn car_physics_system(
    car: &mut Car,
    handling: &Handling,
    input: ControlInput,
    body: &BodyState,
) -> (r: CarForces)
    requires
        old(car).wf(),
        handling.wf(),
        body.wf(),
    ensures
        final(car).wf(),
        *final(car) == old(car).with_speed(
            floor_div(dot_spec(body.linear_velocity, body.forward), SCALE as int),
        ),
        is_floor_sqrt(r.speed as int, dot_spec(body.linear_velocity, body.linear_velocity)),
        r.speed_ratio as int == ratio_spec(r.speed as int, old(car).max_speed as int),
        (r.force.x as int, r.force.y as int, r.force.z as int) == force_spec(
            *old(car),
            *handling,
            input,
            *body,
            r.speed as int,
            r.speed_ratio as int,
        ),
        (r.torque.x as int, r.torque.y as int, r.torque.z as int) == torque_spec(
            *old(car),
            *handling,
            input,
            *body,
            r.speed_ratio as int,
        ),
{
    let v = body.linear_velocity;
    let f = body.forward;
    let rt = body.right;
    let h = handling;

    let along = v.dot(&f);
    proof {
        lemma_dot_bounded(v, f);
        lemma_floor_div_bounded(along as int, 1000, 3 * MAX_COMPONENT);
    }
    let forward_speed = div_floor(along, SCALE);
    car.speed = forward_speed;

    let n = v.length_squared();
    let speed_u = sqrt_floor(n);
    let speed = speed_u as i64;
    let ratio = speed_ratio(speed, car.max_speed);
    let curve = acceleration_curve(ratio);

    let side = v.dot(&rt);
    proof {
        lemma_dot_bounded(v, rt);
        lemma_floor_div_bounded(side as int, 1000, MAX_LATERAL as int);
    }
    let lateral = div_floor(side, SCALE);

    let c: u64 = if speed_u * speed_u == n {
        speed_u
    } else {
        speed_u + 1
    };
    proof {
        let m = car.max_speed as int;
        if n > m * m && c <= m {
            assert(c * c <= m * m) by (nonlinear_arith)
                requires
                    c <= m,
                    c >= 0,
            ;
        }
        assert(c * c >= n) by (nonlinear_arith)
            requires
                speed_u * speed_u <= n < (speed_u + 1) * (speed_u + 1),
                c == (if speed_u * speed_u == n {
                    speed_u as int
                } else {
                    speed_u + 1
                }),
        ;
    }

    let down = if ratio > h.downforce_threshold {
        proof {
            lemma_mul_bounded(ratio as int, h.downforce as int, 1000, MAX_COMPONENT as int);
        }
        -(ratio * h.downforce)
    } else {
        0
    };

    let fx = motor_component(car, input, curve, f.x) + brake_component(car, input, f.x)
        + grip_component(h, lateral, rt.x) + drag_component(h, input, v.x) + limit_component(
        car,
        h,
        n,
        c,
        v.x,
    );
    let fy = motor_component(car, input, curve, f.y) + brake_component(car, input, f.y)
        + grip_component(h, lateral, rt.y) + drag_component(h, input, v.y) + down
        + limit_component(car, h, n, c, v.y);
    let fz = motor_component(car, input, curve, f.z) + brake_component(car, input, f.z)
        + grip_component(h, lateral, rt.z) + drag_component(h, input, v.z) + limit_component(
        car,
        h,
        n,
        c,
        v.z,
    );

    let eff = turn_effectiveness(h, ratio);
    proof {
        lemma_mul_bounded(
            car.turn_speed as int,
            h.turn_torque_factor as int,
            MAX_COMPONENT as int,
            MAX_GAIN as int,
        );
        lemma_mul_bounded(
            car.turn_speed * h.turn_torque_factor,
            eff as int,
            MAX_COMPONENT * MAX_GAIN,
            1000,
        );
        lemma_floor_div_bounded(
            car.turn_speed * h.turn_torque_factor * eff,
            1000,
            MAX_COMPONENT * MAX_GAIN,
        );
    }
    let base = div_floor(car.turn_speed * h.turn_torque_factor * eff, PERMILLE);
    let mut steer: i64 = 0;
    if input.steer_left {
        steer = steer + base;
    }
    if input.steer_right {
        steer = steer - base;
    }
    let w = body.angular_velocity;
    proof {
        lemma_mul_bounded(w.x as int, h.angular_damping as int, MAX_COMPONENT as int, MAX_GAIN as int);
        lemma_mul_bounded(w.y as int, h.angular_damping as int, MAX_COMPONENT as int, MAX_GAIN as int);
        lemma_mul_bounded(w.z as int, h.angular_damping as int, MAX_COMPONENT as int, MAX_GAIN as int);
    }
    let torque = Vector3 {
        x: -(w.x * h.angular_damping),
        y: steer - w.y * h.angular_damping,
        z: -(w.z * h.angular_damping),
    };
    CarForces { force: Vector3 { x: fx, y: fy, z: fz }, torque, speed, speed_ratio: ratio }
}

/// A dot product of bounded vectors is bounded.
proof fn lemma_dot_bounded(v: Vector3, d: Vector3)
    requires
        bounded(v, MAX_COMPONENT as int),
        bounded(d, SCALE as int),
    ensures
        -3 * MAX_COMPONENT * SCALE <= dot_spec(v, d) <= 3 * MAX_COMPONENT * SCALE,
{
    lemma_mul_bounded(v.x as int, d.x as int, MAX_COMPONENT as int, SCALE as int);
    lemma_mul_bounded(v.y as int, d.y as int, MAX_COMPONENT as int, SCALE as int);
    lemma_mul_bounded(v.z as int, d.z as int, MAX_COMPONENT as int, SCALE as int);
}

/// The acceleration curve never rises with speed, and takes the value one
/// below 0.3 of top speed, 0.8 below 0.6, 0.5 below 0.85 and 0.2 from there on.
pub proof fn acceleration_curve_steps_down(r1: int, r2: int)
    requires
        0 <= r1 <= r2 <= PERMILLE,
    ensures
        acceleration_curve_spec(r1) >= acceleration_curve_spec(r2),
        r1 < 300 ==> acceleration_curve_spec(r1) == 1000,
        300 <= r1 < 600 ==> acceleration_curve_spec(r1) == 800,
        600 <= r1 < 850 ==> acceleration_curve_spec(r1) == 500,
        850 <= r1 ==> acceleration_curve_spec(r1) == 200,
{
}

/// One component of the speed-limit correction, multiplied by the velocity
/// component it acts on, is never positive, and is negative when that
/// component is not zero.
proof fn lemma_limit_component_opposes(car: Car, h: Handling, n: int, c: int, v: int)
    requires
        car.wf(),
        h.wf(),
        n > car.max_speed * car.max_speed,
        c > car.max_speed,
    ensures
        v * limit_term(car, h, n, c, v) <= 0,
        v != 0 ==> v * limit_term(car, h, n, c, v) < 0,
{
    let k = c - car.max_speed;
    let g = h.speed_limit_gain as int;
    let a = v * k * g;
    if v > 0 {
        assert(a >= 1) by (nonlinear_arith)
            requires
                v >= 1,
                k >= 1,
                g >= 1,
                a == v * k * g,
        ;
        lemma_quotient_at_least_one(a + c - 1, c);
        assert(v * limit_term(car, h, n, c, v) < 0) by (nonlinear_arith)
            requires
                v >= 1,
                limit_term(car, h, n, c, v) == -((a + c - 1) / c),
                (a + c - 1) / c >= 1,
        ;
    } else if v < 0 {
        assert(a <= -1) by (nonlinear_arith)
            requires
                v <= -1,
                k >= 1,
                g >= 1,
                a == v * k * g,
        ;
        lemma_quotient_at_least_one(-a + c - 1, c);
        assert(v * limit_term(car, h, n, c, v) < 0) by (nonlinear_arith)
            requires
                v <= -1,
                limit_term(car, h, n, c, v) == (-a + c - 1) / c,
                (-a + c - 1) / c >= 1,
        ;
    }
}

/// A dividend at least as large as the positive divisor gives a quotient of at least one.
proof fn lemma_quotient_at_least_one(a: int, d: int)
    requires
        d > 0,
        a >= d,
    ensures
        a / d >= 1,
{
    vstd::arithmetic::div_mod::lemma_fundamental_div_mod(a, d);
    let q = a / d;
    let r = a % d;
    assert(q >= 1) by (nonlinear_arith)
        requires
            d * q + r == a,
            0 <= r < d,
            a >= d,
    ;
}

/// Above top speed the speed-limit correction is never zero and pushes
/// against the velocity, hence against the excess velocity, which points the
/// same way: its dot product with the velocity is negative.
pub proof fn speed_limit_opposes_excess(car: Car, h: Handling, v: Vector3, speed: int)
    requires
        car.wf(),
        h.wf(),
        is_floor_sqrt(speed, dot_spec(v, v)),
        dot_spec(v, v) > car.max_speed * car.max_speed,
    ensures
        ({
            let n = dot_spec(v, v);
            let c = ceil_from_floor(speed, n);
            v.x * limit_term(car, h, n, c, v.x as int) + v.y * limit_term(car, h, n, c, v.y as int)
                + v.z * limit_term(car, h, n, c, v.z as int) < 0
        }),
{
    let n = dot_spec(v, v);
    let c = ceil_from_floor(speed, n);
    let m = car.max_speed as int;
    assert(c * c >= n) by (nonlinear_arith)
        requires
            speed * speed <= n < (speed + 1) * (speed + 1),
            c == (if speed * speed == n {
                speed
            } else {
                speed + 1
            }),
    ;
    if c <= m {
        assert(c * c <= m * m) by (nonlinear_arith)
            requires
                c <= m,
                c >= 0,
        ;
    }
    lemma_limit_component_opposes(car, h, n, c, v.x as int);
    lemma_limit_component_opposes(car, h, n, c, v.y as int);
    lemma_limit_component_opposes(car, h, n, c, v.z as int);
    if v.x == 0 && v.y == 0 && v.z == 0 {
        assert(n == 0);
    }
}

/// Coasting drag pushes against any non-zero velocity.
pub proof fn coasting_drag_opposes_velocity(h: Handling, input: ControlInput, v: Vector3)
    requires
        h.wf(),
        h.coast_drag > 0,
        input.coasting(),
        v != Vector3::zero_spec(),
    ensures
        v.x * drag_term(h, input, v.x as int) + v.y * drag_term(h, input, v.y as int) + v.z
            * drag_term(h, input, v.z as int) < 0,
{
    let d = h.coast_drag as int;
    lemma_drag_component(v.x as int, d);
    lemma_drag_component(v.y as int, d);
    lemma_drag_component(v.z as int, d);
}

/// One component of the coasting drag, times its velocity component.
proof fn lemma_drag_component(x: int, d: int)
    requires
        d > 0,
    ensures
        x * -(x * d) <= 0,
        x != 0 ==> x * -(x * d) < 0,
{
    assert(x * -(x * d) == -(d * (x * x))) by (nonlinear_arith);
    assert(x * x >= 0) by (nonlinear_arith);
    if x != 0 {
        assert(x * x > 0) by (nonlinear_arith)
            requires
                x != 0,
        ;
        assert(d * (x * x) > 0) by (nonlinear_arith)
            requires
                d > 0,
                x * x > 0,
        ;
    } else {
        assert(d * (x * x) == 0) by (nonlinear_arith)
            requires
                x == 0,
        ;
    }
    assert(d * (x * x) >= 0) by (nonlinear_arith)
        requires
            d > 0,
            x * x >= 0,
    ;
}

/// Wheel circumference in mm (2π times a 350 mm radius, rounded).
pub const WHEEL_CIRCUMFERENCE: i64 = 2199;

/// Largest tick accepted, in microseconds (one second).
pub const MAX_TICK: u64 = 1_000_000;

/// How far the wheels roll about their axle during one tick, in millionths:
/// the car's speed over the wheel circumference, times the tick, negated so
/// that driving forward rolls them forward.
pub fn wheel_rotation_system(speed: i64, dt: u64) -> (r: i64)
    requires
        -3 * MAX_COMPONENT <= speed <= 3 * MAX_COMPONENT,
        dt <= MAX_TICK,
    ensures
        r == -floor_div(speed * dt, WHEEL_CIRCUMFERENCE as int),
{
    proof {
        lemma_mul_bounded(speed as int, dt as int, 3 * MAX_COMPONENT, MAX_TICK as int);
        lemma_floor_div_bounded(speed * dt, WHEEL_CIRCUMFERENCE as int, 3 * MAX_COMPONENT * MAX_TICK);
    }
    -div_floor(speed * (dt as i64), WHEEL_CIRCUMFERENCE)
}

/// Largest steering angle of the front wheels, in thousandths of a degree.
pub const MAX_STEERING_ANGLE: i64 = 30_000;

/// Steering angle of the front wheels, in thousandths of a degree: full lock
/// to the left (positive) or right (negative); left wins when both are held.
pub fn front_wheel_steering_system(input: ControlInput) -> (r: i64)
    ensures
        input.steer_left ==> r == MAX_STEERING_ANGLE,
        !input.steer_left && input.steer_right ==> r == -MAX_STEERING_ANGLE,
        !input.steer_left && !input.steer_right ==> r == 0,
{
    if input.steer_left {
        MAX_STEERING_ANGLE
    } else if input.steer_right {
        -MAX_STEERING_ANGLE
    } else {
        0
    }
}

/// Bare tag of the car that the camera follows.
#[derive(Clone, Copy, Debug, PartialEq, Eq, Structural)]
pub struct CameraTarget;

/// Bare tag of a wheel of the car.
#[derive(Clone, Copy, Debug, PartialEq, Eq, Structural)]
pub struct Wheel;

/// Bare tag of a front (steering) wheel.
#[derive(Clone, Copy, Debug, PartialEq, Eq, Structural)]
pub struct FrontWheel;

/// Bare marker for the car stage of the game.
#[derive(Clone, Copy, Debug, PartialEq, Eq, Structural)]
pub struct CarPlugin;

} // verus!
