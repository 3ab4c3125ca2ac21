use vstd::prelude::*;

verus! {

/// One unit in fixed point: a value `x` stands for `x / SCALE` of its unit.
pub const SCALE: i64 = 1000;

/// Largest magnitude of one component of a velocity (in mm/s or mrad/s):
/// one kilometre per second, far beyond anything the game produces.
pub const MAX_COMPONENT: i64 = 1_000_000;

/// A vector in fixed point; what a component counts depends on the quantity
/// (millimetres, millimetres per second, thousandths of a unit direction, ...).
#[derive(Clone, Copy, Debug, PartialEq, Eq, Structural)]
pub struct Vector3 {
    pub x: i64,
    pub y: i64,
    pub z: i64,
}

/// Mathematical dot product of two vectors.
pub open spec fn dot_spec(a: Vector3, b: Vector3) -> int {
    a.x * b.x + a.y * b.y + a.z * b.z
}

/// Every component lies in `[-m, m]`.
pub open spec fn bounded(v: Vector3, m: int) -> bool {
    -m <= v.x <= m && -m <= v.y <= m && -m <= v.z <= m
}

/// Floor division by a positive divisor, in spec code.
pub open spec fn floor_div(a: int, d: int) -> int {
    a / d
}

/// Division by a positive divisor that rounds away from zero.
pub open spec fn div_away(a: int, d: int) -> int {
    if a >= 0 {
        (a + d - 1) / d
    } else {
        -((-a + d - 1) / d)
    }
}

/// Floor division by a positive divisor.
pub fn div_floor(a: i64, d: i64) -> (r: i64)
    requires
        d > 0,
        a > i64::MIN,
    ensures
        r as int == floor_div(a as int, d as int),
{
    if a >= 0 {
        let q = (a as u64) / (d as u64);
        q as i64
    } else {
        let m = (-a) as u64;
        let du = d as u64;
        let q = (m + (du - 1)) / du;
        proof {
            lemma_floor_of_negative(a as int, d as int, q as int);
        }
        -(q as i64)
    }
}

/// Floor division of a negative number, from the division of its magnitude
/// rounded up.
proof fn lemma_floor_of_negative(a: int, d: int, q: int)
    requires
        a < 0,
        d > 0,
        q == (-a + d - 1) / d,
    ensures
        -q == a / d,
        0 <= q <= -a,
{
    let big = -a + d - 1;
    vstd::arithmetic::div_mod::lemma_fundamental_div_mod(big, d);
    vstd::arithmetic::div_mod::lemma_fundamental_div_mod(a, d);
    let f = a / d;
    let rem = a % d;
    let rb = big % d;
    assert(d * q + rb == big && 0 <= rb < d);
    assert(d * f + rem == a && 0 <= rem < d);
    assert(q * d + rb == big && f * d + rem == a) by (nonlinear_arith)
        requires
            d * q + rb == big,
            d * f + rem == a,
    ;
    let k = f + q;
    assert(k * d == f * d + q * d) by (nonlinear_arith)
        requires
            k == f + q,
    ;
    assert(-d < k * d < d);
    if k >= 1 {
        assert(k * d >= d) by (nonlinear_arith)
            requires
                k >= 1,
                d > 0,
        ;
    } else if k <= -1 {
        assert(k * d <= -d) by (nonlinear_arith)
            requires
                k <= -1,
                d > 0,
        ;
    }
    assert(q >= 0) by (nonlinear_arith)
        requires
            q * d + rb == big,
            0 <= rb < d,
            big >= 0,
            d > 0,
    ;
    assert(q <= -a) by (nonlinear_arith)
        requires
            q * d + rb == big,
            0 <= rb,
            big == -a + d - 1,
            d >= 1,
            q >= 0,
            a < 0,
    ;
}

/// Division by a positive divisor that rounds the magnitude up, keeping the sign.
pub fn div_away_from_zero(a: i64, d: i64) -> (r: i64)
    requires
        d > 0,
        a > i64::MIN + d,
        a < i64::MAX - d,
    ensures
        r as int == div_away(a as int, d as int),
{
    if a >= 0 {
        let q = ((a + (d - 1)) as u64) / (d as u64);
        proof {
            lemma_quotient_at_most(a + d - 1, d as int);
        }
        q as i64
    } else {
        let q = ((-a + (d - 1)) as u64) / (d as u64);
        proof {
            lemma_quotient_at_most(-a + d - 1, d as int);
        }
        -(q as i64)
    }
}

/// A quotient by a positive divisor is at most the dividend.
proof fn lemma_quotient_at_most(a: int, d: int)
    requires
        a >= 0,
        d > 0,
    ensures
        0 <= a / d <= a,
{
    vstd::arithmetic::div_mod::lemma_fundamental_div_mod(a, d);
    let q = a / d;
    let r = a % d;
    assert(0 <= q <= a) by (nonlinear_arith)
        requires
            d * q + r == a,
            0 <= r < d,
            a >= 0,
            d > 0,
    ;
}

/// Largest value accepted by `sqrt_floor`.
pub const SQRT_INPUT_LIMIT: u64 = 4_000_000_000_000;

/// Integer square root, rounded down.
pub fn sqrt_floor(n: u64) -> (r: u64)
    requires
        n <= SQRT_INPUT_LIMIT,
    ensures
        r * r <= n < (r + 1) * (r + 1),
        r <= 2_000_000,
{
    let mut lo: u64 = 0;
    let mut hi: u64 = 2_000_001;
    assert(hi * hi > SQRT_INPUT_LIMIT) by (nonlinear_arith)
        requires
            hi == 2_000_001,
    ;
    while hi - lo > 1
        invariant
            lo < hi <= 2_000_001,
            lo * lo <= n,
            n < hi * hi,
        decreases hi - lo,
    {
        let mid = lo + (hi - lo) / 2;
        assert(mid * mid <= 2_000_001 * 2_000_001) by (nonlinear_arith)
            requires
                mid <= 2_000_001,
        ;
        if mid * mid <= n {
            lo = mid;
        } else {
            hi = mid;
        }
    }
    lo
}

impl Vector3 {
    pub open spec fn zero_spec() -> Vector3 {
        Vector3 { x: 0, y: 0, z: 0 }
    }

    pub fn new(x: i64, y: i64, z: i64) -> (r: Vector3)
        ensures
            r == (Vector3 { x, y, z }),
    {
        Vector3 { x, y, z }
    }

    pub fn zero() -> (r: Vector3)
        ensures
            r == (Vector3 { x: 0, y: 0, z: 0 }),
    {
        Vector3 { x: 0, y: 0, z: 0 }
    }

    /// Dot product of a vector bounded by `MAX_COMPONENT` with one bounded by
    /// `SCALE` (a direction).
    pub fn dot(&self, o: &Vector3) -> (r: i64)
        requires
            bounded(*self, MAX_COMPONENT as int),
            bounded(*o, MAX_COMPONENT as int),
        ensures
            r as int == dot_spec(*self, *o),
    {
        proof {
            lemma_mul_bounded(self.x as int, o.x as int, MAX_COMPONENT as int, MAX_COMPONENT as int);
            lemma_mul_bounded(self.y as int, o.y as int, MAX_COMPONENT as int, MAX_COMPONENT as int);
            lemma_mul_bounded(self.z as int, o.z as int, MAX_COMPONENT as int, MAX_COMPONENT as int);
        }
        self.x * o.x + self.y * o.y + self.z * o.z
    }

    /// Squared length, exact.
    pub fn length_squared(&self) -> (r: u64)
        requires
            bounded(*self, MAX_COMPONENT as int),
        ensures
            r as int == dot_spec(*self, *self),
            r <= 3 * MAX_COMPONENT * MAX_COMPONENT,
    {
        proof {
            lemma_square_bounded(self.x as int, MAX_COMPONENT as int);
            lemma_square_bounded(self.y as int, MAX_COMPONENT as int);
            lemma_square_bounded(self.z as int, MAX_COMPONENT as int);
        }
        (self.x * self.x + self.y * self.y + self.z * self.z) as u64
    }
}

/// A product of two bounded factors is bounded by the product of the bounds.
pub proof fn lemma_mul_bounded(a: int, b: int, ma: int, mb: int)
    requires
        -ma <= a <= ma,
        -mb <= b <= mb,
    ensures
        -(ma * mb) <= a * b <= ma * mb,
{
    assert(-(ma * mb) <= a * b <= ma * mb) by (nonlinear_arith)
        requires
            -ma <= a <= ma,
            -mb <= b <= mb,
    ;
}

/// A square lies between zero and the square of the bound.
pub proof fn lemma_square_bounded(a: int, m: int)
    requires
        -m <= a <= m,
    ensures
        0 <= a * a <= m * m,
{
    assert(0 <= a * a <= m * m) by (nonlinear_arith)
        requires
            -m <= a <= m,
    ;
}

/// Floor division keeps a bound that the dividend has in multiples of the divisor.
pub proof fn lemma_floor_div_bounded(a: int, d: int, m: int)
    requires
        d > 0,
        -(m * d) <= a <= m * d,
    ensures
        -m <= a / d <= m,
{
    vstd::arithmetic::div_mod::lemma_fundamental_div_mod(a, d);
    let q = a / d;
    let r = a % d;
    assert(-m <= q <= m) by (nonlinear_arith)
        requires
            d * q + r == a,
            0 <= r < d,
            -(m * d) <= a <= m * d,
            d > 0,
    ;
}

} // verus!
