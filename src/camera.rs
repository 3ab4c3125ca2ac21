use vstd::prelude::*;
use crate::fixed::{Vector3, bounded, floor_div, div_floor, lemma_mul_bounded, lemma_floor_div_bounded, SCALE};
use crate::car::{Car, ratio_spec, speed_ratio, MAX_TICK, PERMILLE};
use crate::menu::GameSettings;

verus! {

/// How long the reverse control must be held, or released, before the camera
/// swaps sides, in microseconds.
pub const DEFAULT_HOLD_THRESHOLD: u64 = 500_000;

/// Largest hold threshold accepted, in microseconds (an hour).
pub const MAX_HOLD_THRESHOLD: u64 = 3_600_000_000;

/// The camera's reversing latch: which side of the car the camera keeps, and
/// how long the reverse control has disagreed with it (microseconds).
#[derive(Clone, Copy, Debug, PartialEq, Eq, Structural)]
pub struct CameraState {
    pub was_reversing: bool,
    pub stable_timer: u64,
    pub hold_threshold: u64,
}

/// One tick of the latch: while the control disagrees with the latch the
/// timer runs, and once it exceeds the threshold the latch follows the
/// control and the timer restarts; while they agree the timer stays at zero.
pub open spec fn latch_step(s: CameraState, dt: u64, reversing_held: bool) -> CameraState {
    if s.was_reversing != reversing_held {
        let t = s.stable_timer + dt;
        if t > s.hold_threshold {
            CameraState { was_reversing: reversing_held, stable_timer: 0, ..s }
        } else {
            CameraState { stable_timer: t as u64, ..s }
        }
    } else {
        CameraState { stable_timer: 0, ..s }
    }
}

/// The states after each step of a sequence of (tick, reverse held) inputs.
pub open spec fn latch_trace(s: CameraState, steps: Seq<(u64, bool)>) -> Seq<CameraState>
    decreases steps.len(),
{
    if steps.len() == 0 {
        Seq::empty()
    } else {
        let next = latch_step(s, steps[0].0, steps[0].1);
        seq![next].add(latch_trace(next, steps.drop_first()))
    }
}

/// Every tick is at most `MAX_TICK`.
pub open spec fn ticks_in_range(steps: Seq<(u64, bool)>) -> bool {
    forall|i: int| 0 <= i < steps.len() ==> #[trigger] steps[i].0 <= MAX_TICK
}

/// Each stretch of input that disagrees with `latched`, timed from `timer`
/// for the first and from zero for the others, lasts at most `threshold`.
pub open spec fn runs_within(timer: int, latched: bool, threshold: int, steps: Seq<(u64, bool)>) -> bool
    decreases steps.len(),
{
    if steps.len() == 0 {
        true
    } else if steps[0].1 == latched {
        runs_within(0, latched, threshold, steps.drop_first())
    } else {
        timer + steps[0].0 <= threshold && runs_within(
            timer + steps[0].0,
            latched,
            threshold,
            steps.drop_first(),
        )
    }
}

/// Total time of a sequence of steps.
pub open spec fn total_time(steps: Seq<(u64, bool)>) -> int
    decreases steps.len(),
{
    if steps.len() == 0 {
        0
    } else {
        steps[0].0 + total_time(steps.drop_first())
    }
}

impl CameraState {
    /// The timer never exceeds the threshold: it restarts when it would.
    pub open spec fn wf(self) -> bool {
        self.stable_timer <= self.hold_threshold && self.hold_threshold <= MAX_HOLD_THRESHOLD
    }

    /// A latch facing forward, with the given threshold in microseconds.
    pub fn new(hold_threshold: u64) -> (r: CameraState)
        requires
            hold_threshold <= MAX_HOLD_THRESHOLD,
        ensures
            r == (CameraState { was_reversing: false, stable_timer: 0, hold_threshold }),
            r.wf(),
    {
        CameraState { was_reversing: false, stable_timer: 0, hold_threshold }
    }

    /// Advances the latch by a tick of `dt` microseconds with the reverse
    /// control held or not, and returns whether the camera now faces a
    /// reversing car.
    pub fn update(&mut self, dt: u64, reversing_held: bool) -> (r: bool)
        requires
            old(self).wf(),
            dt <= MAX_TICK,
        ensures
            *final(self) == latch_step(*old(self), dt, reversing_held),
            final(self).wf(),
            r == final(self).was_reversing,
    {
        if self.was_reversing != reversing_held {
            self.stable_timer = self.stable_timer + dt;
            if self.stable_timer > self.hold_threshold {
                self.was_reversing = reversing_held;
                self.stable_timer = 0;
            }
        } else {
            self.stable_timer = 0;
        }
        self.was_reversing
    }
}

impl Default for CameraState {
    fn default() -> (r: CameraState)
        ensures
            r == (CameraState {
                was_reversing: false,
                stable_timer: 0,
                hold_threshold: DEFAULT_HOLD_THRESHOLD,
            }),
            r.wf(),
    {
        CameraState { was_reversing: false, stable_timer: 0, hold_threshold: DEFAULT_HOLD_THRESHOLD }
    }
}

/// When no stretch of input that disagrees with the latch outlasts the
/// threshold (the reverse control toggled faster than the threshold), the
/// latch keeps its value through the whole sequence.
pub proof fn short_toggles_keep_latch(s: CameraState, steps: Seq<(u64, bool)>)
    requires
        s.wf(),
        ticks_in_range(steps),
        runs_within(s.stable_timer as int, s.was_reversing, s.hold_threshold as int, steps),
    ensures
        latch_trace(s, steps).len() == steps.len(),
        forall|i: int|
            0 <= i < steps.len() ==> (#[trigger] latch_trace(s, steps)[i]).was_reversing
                == s.was_reversing,
    decreases steps.len(),
{
    if steps.len() > 0 {
        let next = latch_step(s, steps[0].0, steps[0].1);
        let rest = steps.drop_first();
        assert(steps[0].0 <= MAX_TICK);
        assert forall|i: int| 0 <= i < rest.len() implies #[trigger] rest[i].0 <= MAX_TICK by {
            assert(rest[i] == steps[i + 1]);
        }
        short_toggles_keep_latch(next, rest);
        let tr = latch_trace(s, steps);
        assert(tr == seq![next].add(latch_trace(next, rest)));
        assert forall|i: int| 0 <= i < steps.len() implies (#[trigger] tr[i]).was_reversing
            == s.was_reversing by {
            if i > 0 {
                assert(tr[i] == latch_trace(next, rest)[i - 1]);
            }
        }
    }
}

/// While the input agrees with the latch, the latch keeps its value and the
/// timer stays at zero.
proof fn lemma_steady_latch(s: CameraState, steps: Seq<(u64, bool)>)
    requires
        s.wf(),
        forall|i: int| 0 <= i < steps.len() ==> (#[trigger] steps[i]).1 == s.was_reversing,
    ensures
        latch_trace(s, steps).len() == steps.len(),
        forall|i: int|
            0 <= i < steps.len() ==> (#[trigger] latch_trace(s, steps)[i]).was_reversing
                == s.was_reversing && latch_trace(s, steps)[i].stable_timer == 0,
    decreases steps.len(),
{
    if steps.len() > 0 {
        let next = latch_step(s, steps[0].0, steps[0].1);
        let rest = steps.drop_first();
        assert(steps[0].1 == s.was_reversing);
        assert forall|i: int| 0 <= i < rest.len() implies (#[trigger] rest[i]).1
            == next.was_reversing by {
            assert(rest[i] == steps[i + 1]);
        }
        lemma_steady_latch(next, rest);
        let tr = latch_trace(s, steps);
        assert(tr == seq![next].add(latch_trace(next, rest)));
        assert forall|i: int| 0 <= i < steps.len() implies (#[trigger] tr[i]).was_reversing
            == s.was_reversing && tr[i].stable_timer == 0 by {
            if i > 0 {
                assert(tr[i] == latch_trace(next, rest)[i - 1]);
            }
        }
    }
}

/// Holding the reverse control against the latch for longer than the
/// threshold flips the latch exactly once: at one step the latch takes the
/// held value and its timer restarts at zero; before that step it keeps the
/// old value, and after it the new one.
pub proof fn sustained_hold_flips_once(s: CameraState, steps: Seq<(u64, bool)>)
    requires
        s.wf(),
        ticks_in_range(steps),
        forall|i: int| 0 <= i < steps.len() ==> (#[trigger] steps[i]).1 != s.was_reversing,
        s.stable_timer + total_time(steps) > s.hold_threshold,
    ensures
        latch_trace(s, steps).len() == steps.len(),
        exists|k: int|
            0 <= k < steps.len() && (#[trigger] latch_trace(s, steps)[k]).was_reversing
                != s.was_reversing && latch_trace(s, steps)[k].stable_timer == 0 && (forall|i: int|
                0 <= i < k ==> (#[trigger] latch_trace(s, steps)[i]).was_reversing
                    == s.was_reversing) && (forall|i: int|
                k <= i < steps.len() ==> (#[trigger] latch_trace(s, steps)[i]).was_reversing
                    != s.was_reversing),
    decreases steps.len(),
{
    lemma_trace_len(s, steps);
    if steps.len() == 0 {
        assert(total_time(steps) == 0);
    } else {
        let next = latch_step(s, steps[0].0, steps[0].1);
        let rest = steps.drop_first();
        let tr = latch_trace(s, steps);
        assert(tr == seq![next].add(latch_trace(next, rest)));
        assert(steps[0].0 <= MAX_TICK);
        assert forall|i: int| 0 <= i < rest.len() implies #[trigger] rest[i].0 <= MAX_TICK by {
            assert(rest[i] == steps[i + 1]);
        }
        if s.stable_timer + steps[0].0 > s.hold_threshold {
            assert forall|i: int| 0 <= i < rest.len() implies (#[trigger] rest[i]).1
                == next.was_reversing by {
                assert(rest[i] == steps[i + 1]);
            }
            lemma_steady_latch(next, rest);
            assert(tr[0] == next);
            assert forall|i: int| 0 <= i < steps.len() implies (#[trigger] tr[i]).was_reversing
                != s.was_reversing by {
                if i > 0 {
                    assert(tr[i] == latch_trace(next, rest)[i - 1]);
                }
            }
            assert(tr[0].was_reversing != s.was_reversing && tr[0].stable_timer == 0);
        } else {
            assert forall|i: int| 0 <= i < rest.len() implies (#[trigger] rest[i]).1
                != next.was_reversing by {
                assert(rest[i] == steps[i + 1]);
            }
            assert(next.stable_timer + total_time(rest) > next.hold_threshold);
            sustained_hold_flips_once(next, rest);
            let k1 = choose|k: int|
                0 <= k < rest.len() && (#[trigger] latch_trace(next, rest)[k]).was_reversing
                    != next.was_reversing && latch_trace(next, rest)[k].stable_timer == 0 && (forall|
                    i: int,
                |
                    0 <= i < k ==> (#[trigger] latch_trace(next, rest)[i]).was_reversing
                        == next.was_reversing) && (forall|i: int|
                    k <= i < rest.len() ==> (#[trigger] latch_trace(next, rest)[i]).was_reversing
                        != next.was_reversing);
            let k = k1 + 1;
            assert(tr[k] == latch_trace(next, rest)[k1]);
            assert forall|i: int| 0 <= i < k implies (#[trigger] tr[i]).was_reversing
                == s.was_reversing by {
                if i > 0 {
                    assert(tr[i] == latch_trace(next, rest)[i - 1]);
                }
            }
            assert forall|i: int| k <= i < steps.len() implies (#[trigger] tr[i]).was_reversing
                != s.was_reversing by {
                assert(tr[i] == latch_trace(next, rest)[i - 1]);
            }
        }
    }
}

proof fn lemma_trace_len(s: CameraState, steps: Seq<(u64, bool)>)
    ensures
        latch_trace(s, steps).len() == steps.len(),
    decreases steps.len(),
{
    if steps.len() > 0 {
        lemma_trace_len(latch_step(s, steps[0].0, steps[0].1), steps.drop_first());
    }
}

/// Largest coordinate of a position, in mm (a thousand kilometres).
pub const MAX_POSITION: i64 = 1_000_000_000;

/// Largest camera distance or height setting, in mm.
pub const MAX_CAMERA_SETTING: i64 = 1_000_000;

/// Where the chase camera sits and looks. Distances and heights in mm;
/// `smoothing` is the share of the way to its target that the camera covers
/// each tick, in thousandths; `look_ahead` is how far ahead of the car it
/// looks at top speed, in mm.
#[derive(Clone, Copy, Debug, PartialEq, Eq, Structural)]
pub struct CameraTuning {
    pub base_distance: i64,
    pub max_distance: i64,
    pub base_height: i64,
    pub min_height: i64,
    pub smoothing: i64,
    pub look_ahead: i64,
    pub eye_height: i64,
}

impl CameraTuning {
    pub open spec fn wf(self) -> bool {
        &&& 0 <= self.base_distance <= MAX_CAMERA_SETTING
        &&& 0 <= self.max_distance <= MAX_CAMERA_SETTING
        &&& 0 <= self.base_height <= MAX_CAMERA_SETTING
        &&& 0 <= self.min_height <= MAX_CAMERA_SETTING
        &&& 0 <= self.smoothing <= PERMILLE
        &&& 0 <= self.look_ahead <= MAX_CAMERA_SETTING
        &&& 0 <= self.eye_height <= MAX_CAMERA_SETTING
    }
}

impl Default for CameraTuning {
    /// 8 m behind and 5.5 m up at rest, 12 m and 4 m at top speed; 2% of the
    /// way each tick; looks 1 m above the car and up to 1.5 m ahead.
    fn default() -> (r: CameraTuning)
        ensures
            r == (CameraTuning {
                base_distance: 8000,
                max_distance: 12000,
                base_height: 5500,
                min_height: 4000,
                smoothing: 20,
                look_ahead: 1500,
                eye_height: 1000,
            }),
            r.wf(),
    {
        CameraTuning {
            base_distance: 8000,
            max_distance: 12000,
            base_height: 5500,
            min_height: 4000,
            smoothing: 20,
            look_ahead: 1500,
            eye_height: 1000,
        }
    }
}

/// The camera's placement for one tick.
#[derive(Clone, Copy, Debug, PartialEq, Eq, Structural)]
pub struct CameraFrame {
    /// Speed over top speed, thousandths.
    pub speed_factor: i64,
    pub distance: i64,
    pub height: i64,
    /// Where the camera is heading.
    pub target_position: Vector3,
    /// Where the camera is after smoothing.
    pub position: Vector3,
    /// The point the camera faces.
    pub look_target: Vector3,
}

/// Interpolation from `a` to `b` by `t` thousandths.
pub open spec fn lerp_spec(a: int, b: int, t: int) -> int {
    a + floor_div((b - a) * t, 1000)
}

/// Camera offset along one component `f` of the heading, with `up` added on
/// the vertical axis: behind the car, or in front of it while reversing.
pub open spec fn offset_spec(reversing: bool, f: int, distance: int, up: int) -> int {
    (if reversing {
        floor_div(f * distance, 1000)
    } else {
        floor_div(-f * distance, 1000)
    }) + up
}

/// Look-ahead along one component `f` of the heading: ahead of the car, or
/// behind it while reversing, growing with speed.
pub open spec fn look_ahead_spec(reversing: bool, f: int, speed_factor: int, gain: int) -> int {
    if reversing {
        floor_div(-f * speed_factor * gain, 1_000_000)
    } else {
        floor_div(f * speed_factor * gain, 1_000_000)
    }
}

/// The magnitude of a speed.
pub open spec fn abs_spec(x: int) -> int {
    if x < 0 {
        -x
    } else {
        x
    }
}

fn follow_axis(
    tuning: &CameraTuning,
    reversing: bool,
    car_c: i64,
    f: i64,
    camera_c: i64,
    distance: i64,
    up: i64,
    eye: i64,
    speed_factor: i64,
) -> (r: (i64, i64, i64))
    requires
        tuning.wf(),
        -MAX_POSITION <= car_c <= MAX_POSITION,
        -MAX_POSITION <= camera_c <= MAX_POSITION,
        -SCALE <= f <= SCALE,
        0 <= distance <= MAX_CAMERA_SETTING,
        0 <= up <= MAX_CAMERA_SETTING,
        0 <= eye <= MAX_CAMERA_SETTING,
        0 <= speed_factor <= PERMILLE,
    ensures
        r.0 == car_c + offset_spec(reversing, f as int, distance as int, up as int),
        r.1 == lerp_spec(camera_c as int, r.0 as int, tuning.smoothing as int),
        r.2 == car_c + eye + look_ahead_spec(
            reversing,
            f as int,
            speed_factor as int,
            tuning.look_ahead as int,
        ),
{
    proof {
        lemma_mul_bounded(f as int, distance as int, 1000, MAX_CAMERA_SETTING as int);
        lemma_floor_div_bounded(f * distance, 1000, MAX_CAMERA_SETTING as int);
        lemma_mul_bounded(-f, distance as int, 1000, MAX_CAMERA_SETTING as int);
        lemma_floor_div_bounded(-f * distance, 1000, MAX_CAMERA_SETTING as int);
    }
    let along = if reversing {
        div_floor(f * distance, SCALE)
    } else {
        div_floor(-f * distance, SCALE)
    };
    let target = car_c + along + up;
    proof {
        lemma_mul_bounded(target - camera_c, tuning.smoothing as int, 3 * MAX_POSITION, 1000);
        lemma_floor_div_bounded((target - camera_c) * tuning.smoothing, 1000, 3 * MAX_POSITION);
    }
    let position = camera_c + div_floor((target - camera_c) * tuning.smoothing, PERMILLE);
    proof {
        lemma_mul_bounded(f as int, speed_factor as int, 1000, 1000);
        lemma_mul_bounded(f * speed_factor, tuning.look_ahead as int, 1_000_000, MAX_CAMERA_SETTING as int);
        lemma_floor_div_bounded(f * speed_factor * tuning.look_ahead, 1_000_000, MAX_CAMERA_SETTING as int);
        lemma_mul_bounded(-f, speed_factor as int, 1000, 1000);
        lemma_mul_bounded(-f * speed_factor, tuning.look_ahead as int, 1_000_000, MAX_CAMERA_SETTING as int);
        lemma_floor_div_bounded(-f * speed_factor * tuning.look_ahead, 1_000_000, MAX_CAMERA_SETTING as int);
    }
    let ahead = if reversing {
        div_floor(-f * speed_factor * tuning.look_ahead, 1_000_000)
    } else {
        div_floor(f * speed_factor * tuning.look_ahead, 1_000_000)
    };
    (target, position, car_c + eye + ahead)
}

/// One tick of the chase camera, after the physics step.
///
/// Advances the reversing latch with the reverse control, then places the
/// camera behind the car (in front of it once the latch says reversing),
/// further back and lower as the car's forward speed grows, moves it a fixed
/// share of the way there, and aims it above the car and ahead in the
/// direction of travel. Positions in mm; `car_forward` is the heading in
/// thousandths; `dt` in microseconds.
pub fn camera_follow_system(
    state: &mut CameraState,
    tuning: &CameraTuning,
    car: &Car,
    car_position: Vector3,
    car_forward: Vector3,
    camera_position: Vector3,
    reversing_held: bool,
    dt: u64,
) -> (r: CameraFrame)
    requires
        old(state).wf(),
        tuning.wf(),
        car.wf(),
        bounded(car_position, MAX_POSITION as int),
        bounded(camera_position, MAX_POSITION as int),
        bounded(car_forward, SCALE as int),
        dt <= MAX_TICK,
    ensures
        *final(state) == latch_step(*old(state), dt, reversing_held),
        final(state).wf(),
        r.speed_factor == ratio_spec(abs_spec(car.speed as int), car.max_speed as int),
        r.distance == lerp_spec(
            tuning.base_distance as int,
            tuning.max_distance as int,
            r.speed_factor as int,
        ),
        r.height == lerp_spec(
            tuning.base_height as int,
            tuning.min_height as int,
            r.speed_factor as int,
        ),
        ({
            let rev = final(state).was_reversing;
            let f = car_forward;
            let p = car_position;
            &&& r.target_position.x == p.x + offset_spec(rev, f.x as int, r.distance as int, 0)
            &&& r.target_position.y == p.y + offset_spec(
                rev,
                f.y as int,
                r.distance as int,
                r.height as int,
            )
            &&& r.target_position.z == p.z + offset_spec(rev, f.z as int, r.distance as int, 0)
            &&& r.position.x == lerp_spec(
                camera_position.x as int,
                r.target_position.x as int,
                tuning.smoothing as int,
            )
            &&& r.position.y == lerp_spec(
                camera_position.y as int,
                r.target_position.y as int,
                tuning.smoothing as int,
            )
            &&& r.position.z == lerp_spec(
                camera_position.z as int,
                r.target_position.z as int,
                tuning.smoothing as int,
            )
            &&& r.look_target.x == p.x + look_ahead_spec(
                rev,
                f.x as int,
                r.speed_factor as int,
                tuning.look_ahead as int,
            )
            &&& r.look_target.y == p.y + tuning.eye_height + look_ahead_spec(
                rev,
                f.y as int,
                r.speed_factor as int,
                tuning.look_ahead as int,
            )
            &&& r.look_target.z == p.z + look_ahead_spec(
                rev,
                f.z as int,
                r.speed_factor as int,
                tuning.look_ahead as int,
            )
        }),
{
    let magnitude = if car.speed < 0 {
        -car.speed
    } else {
        car.speed
    };
    let speed_factor = speed_ratio(magnitude, car.max_speed);
    let reversing = state.update(dt, reversing_held);

    proof {
        lemma_mul_bounded(
            tuning.max_distance - tuning.base_distance,
            speed_factor as int,
            MAX_CAMERA_SETTING as int,
            1000,
        );
        lemma_floor_div_bounded(
            (tuning.max_distance - tuning.base_distance) * speed_factor,
            1000,
            MAX_CAMERA_SETTING as int,
        );
        lemma_mul_bounded(
            tuning.min_height - tuning.base_height,
            speed_factor as int,
            MAX_CAMERA_SETTING as int,
            1000,
        );
        lemma_floor_div_bounded(
            (tuning.min_height - tuning.base_height) * speed_factor,
            1000,
            MAX_CAMERA_SETTING as int,
        );
        lemma_lerp_between(
            tuning.base_distance as int,
            tuning.max_distance as int,
            speed_factor as int,
        );
        lemma_lerp_between(
            tuning.base_height as int,
            tuning.min_height as int,
            speed_factor as int,
        );
    }
    let distance = tuning.base_distance + div_floor(
        (tuning.max_distance - tuning.base_distance) * speed_factor,
        PERMILLE,
    );
    let height = tuning.base_height + div_floor(
        (tuning.min_height - tuning.base_height) * speed_factor,
        PERMILLE,
    );

    let (tx, px, lx) = follow_axis(
        tuning,
        reversing,
        car_position.x,
        car_forward.x,
        camera_position.x,
        distance,
        0,
        0,
        speed_factor,
    );
    let (ty, py, ly) = follow_axis(
        tuning,
        reversing,
        car_position.y,
        car_forward.y,
        camera_position.y,
        distance,
        height,
        tuning.eye_height,
        speed_factor,
    );
    let (tz, pz, lz) = follow_axis(
        tuning,
        reversing,
        car_position.z,
        car_forward.z,
        camera_position.z,
        distance,
        0,
        0,
        speed_factor,
    );
    CameraFrame {
        speed_factor,
        distance,
        height,
        target_position: Vector3 { x: tx, y: ty, z: tz },
        position: Vector3 { x: px, y: py, z: pz },
        look_target: Vector3 { x: lx, y: ly, z: lz },
    }
}

/// Interpolating between two settings stays between them.
proof fn lemma_lerp_between(a: int, b: int, t: int)
    requires
        0 <= a <= MAX_CAMERA_SETTING,
        0 <= b <= MAX_CAMERA_SETTING,
        0 <= t <= 1000,
    ensures
        0 <= lerp_spec(a, b, t) <= MAX_CAMERA_SETTING,
{
    let d = b - a;
    if d >= 0 {
        assert(0 <= d * t <= d * 1000) by (nonlinear_arith)
            requires
                d >= 0,
                0 <= t <= 1000,
        ;
        lemma_floor_div_bounded(d * t, 1000, d);
        assert(0 <= (d * t) / 1000) by {
            vstd::arithmetic::div_mod::lemma_div_pos_is_pos(d * t, 1000);
        }
    } else {
        assert(d * 1000 <= d * t <= 0) by (nonlinear_arith)
            requires
                d < 0,
                0 <= t <= 1000,
        ;
        lemma_floor_div_bounded(d * t, 1000, -d);
        assert((d * t) / 1000 <= 0) by {
            vstd::arithmetic::div_mod::lemma_div_is_ordered(d * t, 0, 1000);
        }
    }
}

/// Visual effects on the game camera, in thousandths: fog opacity and
/// motion-blur shutter angle.
#[derive(Clone, Copy, Debug, PartialEq, Eq, Structural)]
pub struct CameraEffects {
    pub fog_alpha: i64,
    pub motion_blur_shutter: i64,
}

/// The camera effects that follow the settings each tick: fog at 0.4 opacity
/// and a half-turn shutter when enabled, none otherwise.
pub fn manage_camera_effects(settings: &GameSettings) -> (r: CameraEffects)
    ensures
        r.fog_alpha == (if settings.atmospheric_fog_enabled {
            400int
        } else {
            0
        }),
        r.motion_blur_shutter == (if settings.motion_blur_enabled {
            500int
        } else {
            0
        }),
{
    CameraEffects {
        fog_alpha: if settings.atmospheric_fog_enabled {
            400
        } else {
            0
        },
        motion_blur_shutter: if settings.motion_blur_enabled {
            500
        } else {
            0
        },
    }
}

/// The game camera as a race starts: a fresh latch, the camera 5.5 m up and
/// 8 m back facing the origin, fog at 0.6 opacity and a half-turn shutter
/// with four samples when those effects are enabled.
#[derive(Clone, Copy, Debug, PartialEq, Eq, Structural)]
pub struct CameraSetup {
    pub state: CameraState,
    pub position: Vector3,
    pub look_at: Vector3,
    pub fog_alpha: i64,
    pub motion_blur_shutter: i64,
    pub motion_blur_samples: u32,
}

pub fn setup_camera_state(settings: &GameSettings) -> (r: CameraSetup)
    ensures
        r.state == (CameraState {
            was_reversing: false,
            stable_timer: 0,
            hold_threshold: DEFAULT_HOLD_THRESHOLD,
        }),
        r.position == (Vector3 { x: 0, y: 5500, z: 8000 }),
        r.look_at == (Vector3 { x: 0, y: 0, z: 0 }),
        r.fog_alpha == (if settings.atmospheric_fog_enabled {
            600int
        } else {
            0
        }),
        r.motion_blur_shutter == (if settings.motion_blur_enabled {
            500int
        } else {
            0
        }),
        r.motion_blur_samples == 4,
{
    CameraSetup {
        state: CameraState::default(),
        position: Vector3::new(0, 5500, 8000),
        look_at: Vector3::zero(),
        fog_alpha: if settings.atmospheric_fog_enabled {
            600
        } else {
            0
        },
        motion_blur_shutter: if settings.motion_blur_enabled {
            500
        } else {
            0
        },
        motion_blur_samples: 4,
    }
}

/// The read-only signals that cosmetic systems (wheel animation, screen
/// effects, lights) take from the car each tick.
#[derive(Clone, Copy, Debug, PartialEq, Eq, Structural)]
pub struct VehicleSignals {
    /// |forward speed| over top speed, thousandths, capped at one.
    pub speed_ratio: i64,
    /// Whether the camera's latch says the car is reversing.
    pub is_reversing: bool,
    /// Signed speed along the heading, mm/s.
    pub forward_speed: i64,
}

/// Publishes the car's derived signals.
pub fn publish_signals(car: &Car, state: &CameraState) -> (r: VehicleSignals)
    requires
        car.wf(),
    ensures
        r.speed_ratio == ratio_spec(abs_spec(car.speed as int), car.max_speed as int),
        r.is_reversing == state.was_reversing,
        r.forward_speed == car.speed,
{
    let magnitude = if car.speed < 0 {
        -car.speed
    } else {
        car.speed
    };
    VehicleSignals {
        speed_ratio: speed_ratio(magnitude, car.max_speed),
        is_reversing: state.was_reversing,
        forward_speed: car.speed,
    }
}

/// Bare marker for the camera stage of the game.
#[derive(Clone, Copy, Debug, PartialEq, Eq, Structural)]
pub struct CameraPlugin;

} // verus!
