//! Fixed-point vector math for scene positions and directions.
//!
//! Every coordinate is an `i64` counting thousandths of a world unit, so the
//! whole scene lives in exact integer arithmetic. Normalisation returns a
//! vector whose components are thousandths of the unit vector's components,
//! truncated toward zero.

use vstd::prelude::*;

verus! {

use vstd::arithmetic::div_mod::lemma_div_is_ordered;
use vstd::arithmetic::div_mod::lemma_div_multiples_vanish;

/// Fixed-point scale: a coordinate of `SCALE` stands for 1.0 world unit.
pub const SCALE: i64 = 1000;

/// Largest coordinate magnitude a scene position may carry (1000 world units).
pub const COORD_LIMIT: i64 = 1_000_000;

/// Largest coordinate magnitude of a difference of two in-range positions.
pub const DIFF_LIMIT: i64 = 2_000_000;

/// Largest argument `isqrt` accepts: `3 * DIFF_LIMIT * DIFF_LIMIT`.
pub const NORM_SQ_LIMIT: u64 = 12_000_000_000_000;

/// A point or direction in scene space, in fixed-point thousandths.
#[derive(Clone, Copy, Debug, PartialEq, Eq, Structural)]
pub struct Vec3 {
    pub x: i64,
    pub y: i64,
    pub z: i64,
}

impl Vec3 {
    /// Every component's magnitude is at most `limit`.
    pub open spec fn bounded(self, limit: int) -> bool {
        &&& -limit <= self.x <= limit
        &&& -limit <= self.y <= limit
        &&& -limit <= self.z <= limit
    }

    /// An in-range scene position or direction.
    pub open spec fn wf(self) -> bool {
        self.bounded(COORD_LIMIT as int)
    }

    pub open spec fn spec_is_zero(self) -> bool {
        self.x == 0 && self.y == 0 && self.z == 0
    }

    pub open spec fn spec_sub(self, other: Vec3) -> Vec3 {
        Vec3 {
            x: (self.x - other.x) as i64,
            y: (self.y - other.y) as i64,
            z: (self.z - other.z) as i64,
        }
    }

    /// Squared Euclidean length, as a mathematical integer.
    pub open spec fn norm_sq(self) -> int {
        self.x * self.x + self.y * self.y + self.z * self.z
    }

    pub fn is_zero(&self) -> (b: bool)
        ensures
            b == self.spec_is_zero(),
    {
        self.x == 0 && self.y == 0 && self.z == 0
    }

    /// Whether the value is an in-range scene position or direction.
    pub fn check_wf(&self) -> (b: bool)
        ensures
            b == self.wf(),
    {
        -COORD_LIMIT <= self.x && self.x <= COORD_LIMIT && -COORD_LIMIT <= self.y
            && self.y <= COORD_LIMIT && -COORD_LIMIT <= self.z && self.z <= COORD_LIMIT
    }

    /// Componentwise difference `self - other`.
    pub fn sub(&self, other: &Vec3) -> (r: Vec3)
        requires
            self.wf(),
            other.wf(),
        ensures
            r == self.spec_sub(*other),
            r.bounded(DIFF_LIMIT as int),
    {
        Vec3 { x: self.x - other.x, y: self.y - other.y, z: self.z - other.z }
    }
}

/// `r` is the floor of the square root of `n`.
pub open spec fn is_floor_sqrt(n: int, r: int) -> bool {
    &&& 0 <= r
    &&& r * r <= n
    &&& n < (r + 1) * (r + 1)
}

/// The floor of the square root of `n` (meaningful for `n >= 0`).
pub open spec fn floor_sqrt(n: int) -> int {
    choose|r: int| is_floor_sqrt(n, r)
}

/// Two floors of the same square root are equal.
pub proof fn lemma_floor_sqrt_unique(n: int, a: int, b: int)
    requires
        is_floor_sqrt(n, a),
        is_floor_sqrt(n, b),
    ensures
        a == b,
{
    if a < b {
        assert((a + 1) * (a + 1) <= b * b) by (nonlinear_arith)
            requires
                0 <= a + 1,
                a + 1 <= b,
        ;
        assert(false);
    }
    if b < a {
        assert((b + 1) * (b + 1) <= a * a) by (nonlinear_arith)
            requires
                0 <= b + 1,
                b + 1 <= a,
        ;
        assert(false);
    }
}

/// A component whose square is at most `n` has magnitude at most `floor_sqrt(n)`.
pub proof fn lemma_sqrt_bounds_component(n: int, m: int, x: int)
    requires
        is_floor_sqrt(n, m),
        x * x <= n,
    ensures
        -m <= x <= m,
{
    if x > m {
        assert((m + 1) * (m + 1) <= x * x) by (nonlinear_arith)
            requires
                0 <= m + 1,
                m + 1 <= x,
        ;
        assert(false);
    }
    if x < -m {
        assert((m + 1) * (m + 1) <= x * x) by (nonlinear_arith)
            requires
                0 <= m + 1,
                m + 1 <= -x,
        ;
        assert(false);
    }
}

/// Integer square root, rounded down.
pub fn isqrt(n: u64) -> (r: u64)
    requires
        n <= NORM_SQ_LIMIT,
    ensures
        is_floor_sqrt(n as int, r as int),
        r as int == floor_sqrt(n as int),
        r <= 4_000_000,
        n >= 1 ==> r >= 1,
{
    let mut r: u64 = 0;
    let mut sq: u64 = 0;
    while sq + 2 * r + 1 <= n
        invariant
            n <= NORM_SQ_LIMIT,
            sq == r * r,
            sq <= n,
            r <= 4_000_000,
        decreases NORM_SQ_LIMIT - sq,
    {
        sq = sq + 2 * r + 1;
        r = r + 1;
        proof {
            assert(sq == r * r) by (nonlinear_arith)
                requires
                    sq == (r - 1) * (r - 1) + 2 * (r - 1) + 1,
            ;
            assert(r <= 4_000_000) by (nonlinear_arith)
                requires
                    0 <= r,
                    r * r <= n,
                    n <= 12_000_000_000_000,
            ;
        }
    }
    proof {
        assert((r + 1) * (r + 1) == r * r + 2 * r + 1) by (nonlinear_arith);
        assert(is_floor_sqrt(n as int, r as int));
        lemma_floor_sqrt_unique(n as int, r as int, floor_sqrt(n as int));
    }
    r
}

/// Fixed-point quotient, truncated toward zero (the denominator is positive).
pub open spec fn scaled_div(num: int, den: int) -> int {
    if num >= 0 {
        num / den
    } else {
        -((-num) / den)
    }
}

/// The fixed-point unit vector of `v`: each component is
/// `v_i * SCALE / |v|`, truncated toward zero.
pub open spec fn normalize_spec(v: Vec3) -> Vec3 {
    let m = floor_sqrt(v.norm_sq());
    Vec3 {
        x: scaled_div(v.x * SCALE, m) as i64,
        y: scaled_div(v.y * SCALE, m) as i64,
        z: scaled_div(v.z * SCALE, m) as i64,
    }
}

/// One component of the normalised vector: `c * SCALE / m`, truncated toward
/// zero.
fn scaled_component(c: i64, m: u64) -> (r: i64)
    requires
        1 <= m <= 4_000_000,
        -(m as int) <= c <= m as int,
    ensures
        r == scaled_div(c * SCALE, m as int),
        -SCALE <= r <= SCALE,
{
    proof {
        lemma_div_multiples_vanish(SCALE as int, m as int);
    }
    if c >= 0 {
        let num: u64 = (c as u64) * 1000;
        let q: u64 = num / m;
        proof {
            lemma_div_is_ordered(num as int, m as int * SCALE as int, m as int);
        }
        q as i64
    } else {
        let num: u64 = ((-c) as u64) * 1000;
        let q: u64 = num / m;
        proof {
            lemma_div_is_ordered(num as int, m as int * SCALE as int, m as int);
        }
        -(q as i64)
    }
}

/// Normalise a non-zero vector to fixed-point unit length.
pub fn normalize(v: &Vec3) -> (r: Vec3)
    requires
        v.bounded(DIFF_LIMIT as int),
        !v.spec_is_zero(),
    ensures
        r == normalize_spec(*v),
        r.bounded(SCALE as int),
        r.wf(),
{
    proof {
        assert(v.x * v.x <= DIFF_LIMIT * DIFF_LIMIT && v.x * v.x >= 0) by (nonlinear_arith)
            requires
                -DIFF_LIMIT <= v.x <= DIFF_LIMIT,
        ;
        assert(v.y * v.y <= DIFF_LIMIT * DIFF_LIMIT && v.y * v.y >= 0) by (nonlinear_arith)
            requires
                -DIFF_LIMIT <= v.y <= DIFF_LIMIT,
        ;
        assert(v.z * v.z <= DIFF_LIMIT * DIFF_LIMIT && v.z * v.z >= 0) by (nonlinear_arith)
            requires
                -DIFF_LIMIT <= v.z <= DIFF_LIMIT,
        ;
        assert(v.x != 0 ==> v.x * v.x >= 1) by (nonlinear_arith);
        assert(v.y != 0 ==> v.y * v.y >= 1) by (nonlinear_arith);
        assert(v.z != 0 ==> v.z * v.z >= 1) by (nonlinear_arith);
    }
    let n: u64 = (v.x * v.x + v.y * v.y + v.z * v.z) as u64;
    proof {
        assert(n >= 1);
    }
    let m: u64 = isqrt(n);
    proof {
        lemma_sqrt_bounds_component(n as int, m as int, v.x as int);
        lemma_sqrt_bounds_component(n as int, m as int, v.y as int);
        lemma_sqrt_bounds_component(n as int, m as int, v.z as int);
    }
    Vec3 {
        x: scaled_component(v.x, m),
        y: scaled_component(v.y, m),
        z: scaled_component(v.z, m),
    }
}

} // verus!
