//! Integer plane geometry for the simulation world.
//!
//! Positions, radii and velocities are integers in milli-units (one
//! thousandth of a world unit).  Collision is the uniform circular test:
//! two entities collide when the distance between centers is less than the
//! sum of their radii, decided exactly on squared distances.

use vstd::prelude::*;

verus! {

/// Positions stay within this many milli-units of the origin (a million
/// world units), so that squared distances fit in an `i64`.
pub const COORD_LIMIT: i64 = 1_000_000_000;

/// Largest collision radius, in milli-units.
pub const RADIUS_LIMIT: i64 = 1_000_000_000;

/// Largest speed, in milli-units per second.
pub const VEL_LIMIT: i64 = 100_000_000;

/// Largest tick delta fed to movement integration, in milliseconds.
pub const DT_LIMIT: u64 = 100_000;

/// A point or vector of the plane, in milli-units.
#[derive(Clone, Copy, PartialEq, Eq, Structural, Debug)]
pub struct Vec2I {
    pub x: i64,
    pub y: i64,
}

impl Vec2I {
    pub open spec fn in_world(self) -> bool {
        &&& -COORD_LIMIT <= self.x <= COORD_LIMIT
        &&& -COORD_LIMIT <= self.y <= COORD_LIMIT
    }

    pub open spec fn is_zero(self) -> bool {
        self.x == 0 && self.y == 0
    }

    pub fn new(x: i64, y: i64) -> (r: Vec2I)
        ensures
            r.x == x,
            r.y == y,
    {
        Vec2I { x, y }
    }
}

/// Squared distance between two points, exactly.
pub open spec fn dist_sq(a: Vec2I, b: Vec2I) -> int {
    (a.x - b.x) * (a.x - b.x) + (a.y - b.y) * (a.y - b.y)
}

/// The uniform collision policy: centers closer than the sum of the radii.
/// The boundary case (distance equal to the sum) does not collide.
pub open spec fn collides(a: Vec2I, ra: int, b: Vec2I, rb: int) -> bool {
    dist_sq(a, b) < (ra + rb) * (ra + rb)
}

proof fn lemma_square_bound(v: int, m: int)
    requires
        0 <= m,
        -m <= v <= m,
    ensures
        0 <= v * v <= m * m,
{
    assert(0 <= v * v <= m * m) by (nonlinear_arith)
        requires
            0 <= m,
            -m <= v <= m,
    ;
}

/// For nonnegative quantities, comparing squares is comparing the
/// quantities themselves.
pub proof fn lemma_sq_lt_iff(d: int, s: int)
    requires
        0 <= d,
        0 <= s,
    ensures
        (d * d < s * s) <==> (d < s),
{
    assert((d * d < s * s) <==> (d < s)) by (nonlinear_arith)
        requires
            0 <= d,
            0 <= s,
    ;
}

/// The circular collision test in terms of true distance: when `d` is the
/// distance between the centers (its square equals the squared distance),
/// the entities collide if and only if `d < ra + rb`, and in particular the
/// boundary `d == ra + rb` does not collide.
pub proof fn lemma_collision_iff_distance(a: Vec2I, ra: int, b: Vec2I, rb: int, d: int)
    requires
        0 <= d,
        0 <= ra,
        0 <= rb,
        dist_sq(a, b) == d * d,
    ensures
        collides(a, ra, b, rb) <==> d < ra + rb,
        d == ra + rb ==> !collides(a, ra, b, rb),
{
    lemma_sq_lt_iff(d, ra + rb);
}

/// Squared distance, as executable code.
pub fn distance_squared(a: Vec2I, b: Vec2I) -> (r: i64)
    requires
        a.in_world(),
        b.in_world(),
    ensures
        r == dist_sq(a, b),
        0 <= r <= 8_000_000_000_000_000_000,
{
    let dx: i64 = a.x - b.x;
    let dy: i64 = a.y - b.y;
    proof {
        lemma_square_bound(dx as int, 2 * COORD_LIMIT as int);
        lemma_square_bound(dy as int, 2 * COORD_LIMIT as int);
    }
    dx * dx + dy * dy
}

/// The collision decision, exactly as `collides` states it.
pub fn circles_collide(a: Vec2I, ra: i64, b: Vec2I, rb: i64) -> (r: bool)
    requires
        a.in_world(),
        b.in_world(),
        0 <= ra <= RADIUS_LIMIT,
        0 <= rb <= RADIUS_LIMIT,
    ensures
        r == collides(a, ra as int, b, rb as int),
{
    let d2: i64 = distance_squared(a, b);
    let s: i64 = ra + rb;
    proof {
        lemma_square_bound(s as int, 2 * RADIUS_LIMIT as int);
    }
    d2 < s * s
}

/// Division rounding toward zero, the way the world's fixed-point scaling
/// rounds (a fraction of a milli-unit is dropped, whatever the sign).
pub open spec fn tdiv(a: int, b: int) -> int {
    if a >= 0 {
        a / b
    } else {
        -((-a) / b)
    }
}

/// The quotient never exceeds the dividend in magnitude and keeps its sign.
pub proof fn lemma_tdiv_bounds(a: int, b: int)
    requires
        b >= 1,
    ensures
        a >= 0 ==> 0 <= tdiv(a, b) <= a,
        a < 0 ==> a <= tdiv(a, b) <= 0,
{
    if a >= 0 {
        assert(0 <= a / b <= a) by (nonlinear_arith)
            requires
                a >= 0,
                b >= 1,
        ;
    } else {
        assert(0 <= (-a) / b <= -a) by (nonlinear_arith)
            requires
                -a >= 0,
                b >= 1,
        ;
    }
}

/// Scaling down by a factor keeps the quotient within the scaled bound.
pub proof fn lemma_tdiv_scale_bound(a: int, b: int, m: int)
    requires
        b >= 1,
        a <= m * b,
        -a <= m * b,
        0 <= m,
    ensures
        -m <= tdiv(a, b) <= m,
{
    if a >= 0 {
        assert(a / b <= m) by (nonlinear_arith)
            requires
                b >= 1,
                0 <= a,
                a <= m * b,
        ;
        lemma_tdiv_bounds(a, b);
    } else {
        assert((-a) / b <= m) by (nonlinear_arith)
            requires
                b >= 1,
                0 <= -a,
                -a <= m * b,
        ;
        lemma_tdiv_bounds(a, b);
    }
}

/// Truncating division, executable.  The dividend may not be the smallest
/// `i64`, whose magnitude has no `i64` representation.
pub fn div_trunc(a: i64, b: i64) -> (r: i64)
    requires
        b >= 1,
        a > i64::MIN,
    ensures
        r == tdiv(a as int, b as int),
{
    proof {
        lemma_tdiv_bounds(a as int, b as int);
    }
    if a >= 0 {
        ((a as u64) / (b as u64)) as i64
    } else {
        let m: u64 = (-a) as u64;
        -((m / (b as u64)) as i64)
    }
}

/// Integer square root: the greatest `r` with `r * r <= n`.
pub fn isqrt(n: u64) -> (r: u64)
    requires
        n <= 8_000_000_000_000_000_000,
    ensures
        r * r <= n,
        n < (r + 1) * (r + 1),
        r <= 3_000_000_000,
        r == sqrt_floor(n as int),
{
    let mut lo: u64 = 0;
    let mut hi: u64 = 3_000_000_000;
    proof {
        assert(3_000_000_000u64 * 3_000_000_000u64 > 8_000_000_000_000_000_000) by (nonlinear_arith);
    }
    while lo + 1 < hi
        invariant
            lo < hi <= 3_000_000_000,
            lo * lo <= n,
            n < hi * hi,
        decreases hi - lo,
    {
        let mid: u64 = lo + (hi - lo) / 2;
        proof {
            assert(mid * mid <= 9_000_000_000_000_000_000) by (nonlinear_arith)
                requires
                    mid <= 3_000_000_000,
            ;
        }
        if mid * mid <= n {
            lo = mid;
        } else {
            hi = mid;
        }
    }
    proof {
        lemma_sqrt_floor_unique(n as int, lo as int);
    }
    lo
}

pub open spec fn is_sqrt_floor(n: int, r: int) -> bool {
    &&& 0 <= r
    &&& r * r <= n
    &&& n < (r + 1) * (r + 1)
}

/// The integer square root as a mathematical function.
pub open spec fn sqrt_floor(n: int) -> int {
    choose|r: int| is_sqrt_floor(n, r)
}

pub proof fn lemma_sqrt_floor_unique(n: int, r: int)
    requires
        is_sqrt_floor(n, r),
    ensures
        sqrt_floor(n) == r,
{
    assert(exists|x: int| is_sqrt_floor(n, x));
    let rr = sqrt_floor(n);
    assert(is_sqrt_floor(n, rr));
    assert(rr == r) by (nonlinear_arith)
        requires
            0 <= r,
            r * r <= n,
            n < (r + 1) * (r + 1),
            0 <= rr,
            rr * rr <= n,
            n < (rr + 1) * (rr + 1),
    ;
}

/// Length (floored) of a vector, in milli-units.
pub open spec fn vlen(d: Vec2I) -> int {
    sqrt_floor(d.x * d.x + d.y * d.y)
}

/// `d` scaled to length `scale`: the vector `d * scale / |d|`, or zero when
/// `d` is (essentially) zero.  Used to turn a direction into a velocity of a
/// given speed.
pub open spec fn norm_scaled_spec(d: Vec2I, scale: int) -> Vec2I {
    if vlen(d) == 0 {
        Vec2I { x: 0, y: 0 }
    } else {
        Vec2I {
            x: tdiv(d.x * scale, vlen(d)) as i64,
            y: tdiv(d.y * scale, vlen(d)) as i64,
        }
    }
}

pub fn norm_scaled(d: Vec2I, scale: i64) -> (r: Vec2I)
    requires
        -2_000_000_000 <= d.x <= 2_000_000_000,
        -2_000_000_000 <= d.y <= 2_000_000_000,
        0 <= scale <= VEL_LIMIT,
    ensures
        r == norm_scaled_spec(d, scale as int),
        -scale <= r.x <= scale,
        -scale <= r.y <= scale,
{
    proof {
        assert(0 <= d.x * d.x <= 4_000_000_000_000_000_000 && 0 <= d.y * d.y
            <= 4_000_000_000_000_000_000) by (nonlinear_arith)
            requires
                -2_000_000_000 <= d.x <= 2_000_000_000,
                -2_000_000_000 <= d.y <= 2_000_000_000,
        ;
    }
    let n: i64 = d.x * d.x + d.y * d.y;
    let len: u64 = isqrt(n as u64);
    if len == 0 {
        return Vec2I { x: 0, y: 0 };
    }
    proof {
        let li: int = len as int;
        assert(-li <= d.x as int <= li && -li <= d.y as int <= li) by (nonlinear_arith)
            requires
                d.x * d.x <= n as int,
                d.y * d.y <= n as int,
                (n as int) < (li + 1) * (li + 1),
                0 <= li,
        ;
        assert(d.x * scale <= li * scale && -(d.x * scale) <= li * scale && d.y * scale <= li
            * scale && -(d.y * scale) <= li * scale) by (nonlinear_arith)
            requires
                -li <= d.x as int <= li,
                -li <= d.y as int <= li,
                0 <= scale,
        ;
        assert(-200_000_000_000_000_000 <= d.x * scale <= 200_000_000_000_000_000
            && -200_000_000_000_000_000 <= d.y * scale <= 200_000_000_000_000_000)
            by (nonlinear_arith)
            requires
                -2_000_000_000 <= d.x <= 2_000_000_000,
                -2_000_000_000 <= d.y <= 2_000_000_000,
                0 <= scale <= 100_000_000,
        ;
        lemma_tdiv_scale_bound(d.x * scale, len as int, scale as int);
        lemma_tdiv_scale_bound(d.y * scale, len as int, scale as int);
    }
    let rx: i64 = div_trunc(d.x * scale, len as i64);
    let ry: i64 = div_trunc(d.y * scale, len as i64);
    Vec2I { x: rx, y: ry }
}

pub open spec fn clamp_coord(v: int) -> int {
    if v < -COORD_LIMIT {
        -COORD_LIMIT as int
    } else if v > COORD_LIMIT {
        COORD_LIMIT as int
    } else {
        v
    }
}

/// One step of movement integration: `position + velocity * dt`, where the
/// velocity is in milli-units per second and `dt` in milliseconds, clamped
/// into the world.
pub open spec fn advanced(p: Vec2I, v: Vec2I, dt_ms: u64) -> Vec2I {
    Vec2I {
        x: clamp_coord(p.x + tdiv(v.x * dt_ms, 1000)) as i64,
        y: clamp_coord(p.y + tdiv(v.y * dt_ms, 1000)) as i64,
    }
}

pub fn advance(p: Vec2I, v: Vec2I, dt_ms: u64) -> (r: Vec2I)
    requires
        p.in_world(),
        -VEL_LIMIT <= v.x <= VEL_LIMIT,
        -VEL_LIMIT <= v.y <= VEL_LIMIT,
        dt_ms <= DT_LIMIT,
    ensures
        r == advanced(p, v, dt_ms),
        r.in_world(),
{
    proof {
        assert(-10_000_000_000_000 <= v.x * dt_ms && v.x * dt_ms <= 10_000_000_000_000
            && -10_000_000_000_000 <= v.y * dt_ms && v.y * dt_ms <= 10_000_000_000_000)
            by (nonlinear_arith)
            requires
                -VEL_LIMIT <= v.x <= VEL_LIMIT,
                -VEL_LIMIT <= v.y <= VEL_LIMIT,
                0 <= dt_ms <= DT_LIMIT,
        ;
        lemma_tdiv_scale_bound(v.x * dt_ms, 1000, 10_000_000_000);
        lemma_tdiv_scale_bound(v.y * dt_ms, 1000, 10_000_000_000);
    }
    let sx: i64 = div_trunc(v.x * (dt_ms as i64), 1000);
    let sy: i64 = div_trunc(v.y * (dt_ms as i64), 1000);
    let nx: i64 = p.x + sx;
    let ny: i64 = p.y + sy;
    let cx: i64 = if nx < -COORD_LIMIT {
        -COORD_LIMIT
    } else if nx > COORD_LIMIT {
        COORD_LIMIT
    } else {
        nx
    };
    let cy: i64 = if ny < -COORD_LIMIT {
        -COORD_LIMIT
    } else if ny > COORD_LIMIT {
        COORD_LIMIT
    } else {
        ny
    };
    Vec2I { x: cx, y: cy }
}

/// Rotation by an angle given through its cosine and sine in milli-scale
/// (1000 stands for 1).
pub open spec fn rotated(v: Vec2I, cos_m: int, sin_m: int) -> Vec2I {
    Vec2I {
        x: tdiv(v.x * cos_m - v.y * sin_m, 1000) as i64,
        y: tdiv(v.x * sin_m + v.y * cos_m, 1000) as i64,
    }
}

pub fn rotate_by(v: Vec2I, cos_m: i64, sin_m: i64) -> (r: Vec2I)
    requires
        -1_000_000 <= v.x <= 1_000_000,
        -1_000_000 <= v.y <= 1_000_000,
        -1000 <= cos_m <= 1000,
        -1000 <= sin_m <= 1000,
    ensures
        r == rotated(v, cos_m as int, sin_m as int),
        -2_000_000 <= r.x <= 2_000_000,
        -2_000_000 <= r.y <= 2_000_000,
{
    proof {
        assert(-1_000_000_000 <= v.x * cos_m <= 1_000_000_000 && -1_000_000_000 <= v.y * sin_m
            <= 1_000_000_000 && -1_000_000_000 <= v.x * sin_m <= 1_000_000_000
            && -1_000_000_000 <= v.y * cos_m <= 1_000_000_000) by (nonlinear_arith)
            requires
                -1_000_000 <= v.x <= 1_000_000,
                -1_000_000 <= v.y <= 1_000_000,
                -1000 <= cos_m <= 1000,
                -1000 <= sin_m <= 1000,
        ;
        lemma_tdiv_scale_bound(v.x * cos_m - v.y * sin_m, 1000, 2_000_000);
        lemma_tdiv_scale_bound(v.x * sin_m + v.y * cos_m, 1000, 2_000_000);
    }
    let rx: i64 = div_trunc(v.x * cos_m - v.y * sin_m, 1000);
    let ry: i64 = div_trunc(v.x * sin_m + v.y * cos_m, 1000);
    Vec2I { x: rx, y: ry }
}

/// Angles are in deci-degrees: a full turn is 3600 units.
pub const TURN_DD: u32 = 3600;

/// Rational sine approximation on the first half turn (Bhaskara's formula),
/// in milli-scale; exact at 0, 300, 900, 1500 and 1800 deci-degrees.
pub open spec fn half_sin_milli(a: int) -> int {
    let p = a * (1800 - a);
    4000 * p / (4050000 - p)
}

/// Sine of an angle in deci-degrees, in milli-scale.
pub open spec fn sin_milli_spec(a: int) -> int {
    if a < 1800 {
        half_sin_milli(a)
    } else {
        -half_sin_milli(a - 1800)
    }
}

/// Cosine of an angle in deci-degrees, in milli-scale.
pub open spec fn cos_milli_spec(a: int) -> int {
    sin_milli_spec((a + 900) % 3600)
}

fn half_sin(b: u32) -> (r: u64)
    requires
        b <= 1800,
    ensures
        r == half_sin_milli(b as int),
        r <= 1000,
{
    let bu: u64 = b as u64;
    proof {
        assert(0 <= bu * (1800 - bu) <= 810000) by (nonlinear_arith)
            requires
                0 <= bu <= 1800,
        ;
    }
    let p: u64 = bu * (1800 - bu);
    let num: u64 = 4000 * p;
    let den: u64 = 4050000 - p;
    let q: u64 = num / den;
    proof {
        assert(num / den <= 1000) by (nonlinear_arith)
            requires
                num <= 1000 * den,
                den >= 1,
        ;
    }
    q
}

pub fn sin_milli(a_dd: u32) -> (r: i64)
    requires
        a_dd < 3600,
    ensures
        r == sin_milli_spec(a_dd as int),
        -1000 <= r <= 1000,
{
    if a_dd < 1800 {
        half_sin(a_dd) as i64
    } else {
        -(half_sin(a_dd - 1800) as i64)
    }
}

pub fn cos_milli(a_dd: u32) -> (r: i64)
    requires
        a_dd < 3600,
    ensures
        r == cos_milli_spec(a_dd as int),
        -1000 <= r <= 1000,
{
    sin_milli((a_dd + 900) % 3600)
}

/// Offset of an orbiter from its owner: `radius * (cos angle, sin angle)`.
pub open spec fn orbit_offset_spec(radius: int, angle_dd: int) -> Vec2I {
    Vec2I {
        x: tdiv(radius * cos_milli_spec(angle_dd), 1000) as i64,
        y: tdiv(radius * sin_milli_spec(angle_dd), 1000) as i64,
    }
}

pub fn orbit_offset(radius: i64, angle_dd: u32) -> (r: Vec2I)
    requires
        0 <= radius <= RADIUS_LIMIT,
        angle_dd < 3600,
    ensures
        r == orbit_offset_spec(radius as int, angle_dd as int),
        -radius <= r.x <= radius,
        -radius <= r.y <= radius,
{
    let c: i64 = cos_milli(angle_dd);
    let s: i64 = sin_milli(angle_dd);
    proof {
        assert(radius * c <= radius * 1000 && -(radius * c) <= radius * 1000 && radius * s
            <= radius * 1000 && -(radius * s) <= radius * 1000) by (nonlinear_arith)
            requires
                0 <= radius,
                -1000 <= c <= 1000,
                -1000 <= s <= 1000,
        ;
        assert(-1_000_000_000_000 <= radius * c <= 1_000_000_000_000 && -1_000_000_000_000
            <= radius * s <= 1_000_000_000_000) by (nonlinear_arith)
            requires
                0 <= radius <= 1_000_000_000,
                -1000 <= c <= 1000,
                -1000 <= s <= 1000,
        ;
        lemma_tdiv_scale_bound(radius * c, 1000, radius as int);
        lemma_tdiv_scale_bound(radius * s, 1000, radius as int);
    }
    let rx: i64 = div_trunc(radius * c, 1000);
    let ry: i64 = div_trunc(radius * s, 1000);
    Vec2I { x: rx, y: ry }
}

} // verus!
