//! Fixed-point arithmetic helpers shared by the movement, aiming and
//! collision code. World coordinates are confined to `COORD_LIMIT` so that
//! every squared distance fits in an `i64`.

use vstd::prelude::*;

verus! {

/// All world coordinates stay within this many fixed-point units of the
/// origin, so squared distances cannot overflow an `i64`.
pub const COORD_LIMIT: i64 = 1_000_000_000;

/// Largest argument `isqrt` accepts: enough for any squared distance
/// between points of the coordinate box.
pub const ISQRT_MAX: u64 = 8_000_000_000_000_000_000;

/// Largest scale `scaled_dir` accepts.
pub const SCALE_MAX: i64 = 100_000;

/// Division truncating toward zero (Rust's `/` on machine integers), stated
/// over mathematical integers; meaningful for positive divisors.
pub open spec fn tdiv(n: int, d: int) -> int {
    if n >= 0 {
        n / d
    } else {
        -((-n) / d)
    }
}

/// Clamping to the coordinate box.
pub open spec fn clamp_spec(x: int) -> int {
    if x < -COORD_LIMIT {
        -COORD_LIMIT as int
    } else if x > COORD_LIMIT {
        COORD_LIMIT as int
    } else {
        x
    }
}

/// Nearest whole multiple of 1000, halves rounding away from zero, as a cell
/// index: how a continuous world coordinate resolves to a grid coordinate.
pub open spec fn round_to_cell(x: int) -> int {
    if x >= 0 {
        (x + 500) / 1000
    } else {
        -((-x + 500) / 1000)
    }
}

/// Truncating division shrinks magnitudes: the quotient stays inside any
/// bound that holds for the dividend.
pub proof fn lemma_tdiv_bounds(n: int, d: int, bound: int)
    requires
        d >= 1,
        -bound <= n <= bound,
    ensures
        -bound <= tdiv(n, d) <= bound,
{
    if n >= 0 {
        assert(0 <= n / d <= n) by (nonlinear_arith)
            requires
                n >= 0,
                d >= 1,
        ;
    } else {
        assert(0 <= (-n) / d <= -n) by (nonlinear_arith)
            requires
                -n >= 0,
                d >= 1,
        ;
    }
}

/// A bound on the dividend gives the divided bound on the quotient.
pub proof fn lemma_tdiv_quotient_bound(n: int, d: int, bound: int)
    requires
        d >= 1,
        bound >= 0,
        -bound <= n <= bound,
    ensures
        -(bound / d) <= tdiv(n, d) <= bound / d,
{
    if n >= 0 {
        vstd::arithmetic::div_mod::lemma_div_is_ordered(n, bound, d);
        vstd::arithmetic::div_mod::lemma_div_pos_is_pos(n, d);
    } else {
        vstd::arithmetic::div_mod::lemma_div_is_ordered(-n, bound, d);
        vstd::arithmetic::div_mod::lemma_div_pos_is_pos(-n, d);
    }
    vstd::arithmetic::div_mod::lemma_div_pos_is_pos(bound, d);
}

/// Truncating division by a positive divisor.
pub fn tdiv_exec(n: i64, d: i64) -> (r: i64)
    requires
        d > 0,
        n > i64::MIN,
    ensures
        r == tdiv(n as int, d as int),
{
    if n >= 0 {
        let q: u64 = n as u64 / d as u64;
        q as i64
    } else {
        let m: u64 = (-n) as u64;
        let q: u64 = m / d as u64;
        -(q as i64)
    }
}

/// Keep a coordinate inside the world box.
pub fn clamp_coord(x: i64) -> (r: i64)
    ensures
        r == clamp_spec(x as int),
        -COORD_LIMIT <= r <= COORD_LIMIT,
{
    if x < -COORD_LIMIT {
        -COORD_LIMIT
    } else if x > COORD_LIMIT {
        COORD_LIMIT
    } else {
        x
    }
}

/// Grid cell nearest to a world coordinate.
pub fn round_coord(x: i64) -> (r: i64)
    requires
        -COORD_LIMIT <= x <= COORD_LIMIT,
    ensures
        r == round_to_cell(x as int),
        -1_000_001 <= r <= 1_000_001,
{
    if x >= 0 {
        let q: u64 = (x as u64 + 500) / 1000;
        proof {
            vstd::arithmetic::div_mod::lemma_div_is_ordered(
                x + 500,
                1_000_000_500,
                1000,
            );
        }
        q as i64
    } else {
        let m: u64 = (-x) as u64;
        let q: u64 = (m + 500) / 1000;
        proof {
            vstd::arithmetic::div_mod::lemma_div_is_ordered(
                m + 500,
                1_000_000_500,
                1000,
            );
        }
        -(q as i64)
    }
}

/// Integer square root, as a mathematical function.
pub open spec fn isqrt_spec(n: nat) -> nat
    decreases n,
{
    if n == 0 {
        0
    } else {
        let r = isqrt_spec((n - 1) as nat);
        if (r + 1) * (r + 1) <= n {
            r + 1
        } else {
            r
        }
    }
}

/// `isqrt_spec(n)` is the greatest integer whose square is at most `n`.
pub proof fn lemma_isqrt_spec_brackets(n: nat)
    ensures
        (isqrt_spec(n) as int) * (isqrt_spec(n) as int) <= n as int,
        (n as int) < (isqrt_spec(n) as int + 1) * (isqrt_spec(n) as int + 1),
    decreases n,
{
    reveal_with_fuel(isqrt_spec, 2);
    if n > 0 {
        lemma_isqrt_spec_brackets((n - 1) as nat);
        let r = isqrt_spec((n - 1) as nat) as int;
        if (r + 1) * (r + 1) <= n {
            let s = isqrt_spec(n) as int;
            assert(s == r + 1);
            assert(n < (s + 1) * (s + 1)) by (nonlinear_arith)
                requires
                    s == r + 1,
                    r >= 0,
                    n - 1 < (r + 1) * (r + 1),
            ;
        } else {
            assert(isqrt_spec(n) as int == r);
        }
    } else {
        assert(isqrt_spec(n) == 0);
    }
}

/// Any integer bracketed the same way is the integer square root.
pub proof fn lemma_isqrt_unique(n: nat, r: nat)
    requires
        (r as int) * (r as int) <= n as int,
        (n as int) < (r as int + 1) * (r as int + 1),
    ensures
        r == isqrt_spec(n),
{
    lemma_isqrt_spec_brackets(n);
    let s = isqrt_spec(n) as int;
    let ri = r as int;
    if ri < s {
        assert((ri + 1) * (ri + 1) <= s * s) by (nonlinear_arith)
            requires
                ri + 1 <= s,
                ri >= 0,
        ;
    }
    if s < ri {
        assert((s + 1) * (s + 1) <= ri * ri) by (nonlinear_arith)
            requires
                s + 1 <= ri,
                s >= 0,
        ;
    }
}

/// Integer square root: the greatest `r` with `r * r <= n`.
pub fn isqrt(n: u64) -> (r: u64)
    requires
        n <= ISQRT_MAX,
    ensures
        r * r <= n < (r + 1) * (r + 1),
        r == isqrt_spec(n as nat),
        r <= 3_000_000_000,
{
    let mut lo: u64 = 0;
    let mut hi: u64 = 3_000_000_001;
    proof {
        assert((3_000_000_001u64 * 3_000_000_001) > ISQRT_MAX) by (nonlinear_arith);
    }
    while lo + 1 < hi
        invariant
            lo < hi <= 3_000_000_001,
            lo * lo <= n,
            n < hi * hi,
        decreases hi - lo,
    {
        let mid: u64 = lo + (hi - lo) / 2;
        proof {
            assert(mid < hi);
            assert(mid * mid <= 3_000_000_000u64 * 3_000_000_000) by (nonlinear_arith)
                requires
                    mid <= 3_000_000_000u64,
            ;
            assert((3_000_000_000u64 * 3_000_000_000) <= u64::MAX) by (nonlinear_arith);
        }
        if mid * mid <= n {
            lo = mid;
        } else {
            hi = mid;
        }
    }
    proof {
        lemma_isqrt_unique(n as nat, lo as nat);
    }
    lo
}

/// One component of a vector scaled to a given magnitude: the component
/// times the scale, divided by the vector's length.
pub open spec fn dir_component(d: int, n: nat, scale: int) -> int {
    tdiv(d * scale, isqrt_spec(n) as int)
}

/// Scale the vector `(dx, dy)` to (fixed-point) length `scale`, rounding
/// each component toward zero. `None` exactly on the zero vector, which has
/// no direction. Each component of the result is bounded by the scale and
/// keeps the sign of its input.
pub fn scaled_dir(dx: i64, dy: i64, scale: i64) -> (r: Option<(i64, i64)>)
    requires
        -2_000_000_000 <= dx <= 2_000_000_000,
        -2_000_000_000 <= dy <= 2_000_000_000,
        1 <= scale <= SCALE_MAX,
    ensures
        (r is None) <==> (dx == 0 && dy == 0),
        r matches Some(v) ==> {
            let n = (dx * dx + dy * dy) as nat;
            &&& v.0 == dir_component(dx as int, n, scale as int)
            &&& v.1 == dir_component(dy as int, n, scale as int)
            &&& -scale <= v.0 <= scale
            &&& -scale <= v.1 <= scale
            &&& v.0 * dx >= 0
            &&& v.1 * dy >= 0
        },
{
    if dx == 0 && dy == 0 {
        return None;
    }
    proof {
        assert(dx * dx <= 4_000_000_000_000_000_000 && dx * dx >= 0) by (nonlinear_arith)
            requires
                -2_000_000_000 <= dx <= 2_000_000_000,
        ;
        assert(dy * dy <= 4_000_000_000_000_000_000 && dy * dy >= 0) by (nonlinear_arith)
            requires
                -2_000_000_000 <= dy <= 2_000_000_000,
        ;
        assert(dx != 0 ==> dx * dx >= 1) by (nonlinear_arith);
        assert(dy != 0 ==> dy * dy >= 1) by (nonlinear_arith);
    }
    let n: u64 = (dx * dx + dy * dy) as u64;
    proof {
        assert(n >= 1);
    }
    let len: u64 = isqrt(n);
    proof {
        assert(len >= 1) by (nonlinear_arith)
            requires
                n < (len + 1) * (len + 1),
                n >= 1,
                len >= 0,
        ;
        assert(dx * dx <= n && dy * dy <= n);
    }
    let vx: i64 = scaled_component(dx, len, scale);
    let vy: i64 = scaled_component(dy, len, scale);
    Some((vx, vy))
}

/// One component of `scaled_dir`: requires the vector length to dominate
/// the component, which holds for the Euclidean length.
fn scaled_component(d: i64, len: u64, scale: i64) -> (v: i64)
    requires
        1 <= len <= 3_000_000_000,
        -2_000_000_000 <= d <= 2_000_000_000,
        d * d < (len + 1) * (len + 1),
        1 <= scale <= SCALE_MAX,
    ensures
        v == tdiv(d * scale, len as int),
        -scale <= v <= scale,
        v * d >= 0,
{
    let m: u64 = if d >= 0 {
        d as u64
    } else {
        (-d) as u64
    };
    proof {
        assert(m * m == d * d) by (nonlinear_arith)
            requires
                m == d || m == -(d as int),
        ;
        assert(m <= len) by (nonlinear_arith)
            requires
                m * m < (len + 1) * (len + 1),
                m >= 0,
                len >= 0,
        ;
        assert(m * scale <= len * scale && m * scale >= 0) by (nonlinear_arith)
            requires
                0 <= m <= len,
                scale >= 1,
        ;
        assert(len * scale <= 3_000_000_000i64 * SCALE_MAX) by (nonlinear_arith)
            requires
                len <= 3_000_000_000i64,
                0 <= scale <= SCALE_MAX,
        ;
        vstd::arithmetic::div_mod::lemma_div_is_ordered(
            (m * scale) as int,
            (len * scale) as int,
            len as int,
        );
        vstd::arithmetic::div_mod::lemma_div_multiples_vanish(scale as int, len as int);
    }
    let q: u64 = (m * (scale as u64)) / len;
    if d >= 0 {
        proof {
            assert(q * d >= 0) by (nonlinear_arith)
                requires
                    q >= 0,
                    d >= 0,
            ;
        }
        q as i64
    } else {
        proof {
            assert(d * scale < 0 && -(d * scale) == m * scale) by (nonlinear_arith)
                requires
                    d < 0,
                    scale >= 1,
                    m == -(d as int),
            ;
            assert((-(q as int)) * d >= 0) by (nonlinear_arith)
                requires
                    q >= 0,
                    d < 0,
            ;
        }
        -(q as i64)
    }
}

/// Squared distance between two points, both inside the coordinate box.
pub fn dist_sq(ax: i64, ay: i64, bx: i64, by: i64) -> (r: i64)
    requires
        -COORD_LIMIT <= ax <= COORD_LIMIT,
        -COORD_LIMIT <= ay <= COORD_LIMIT,
        -COORD_LIMIT <= bx <= COORD_LIMIT,
        -COORD_LIMIT <= by <= COORD_LIMIT,
    ensures
        r == (ax - bx) * (ax - bx) + (ay - by) * (ay - by),
        r >= 0,
{
    let dx: i64 = ax - bx;
    let dy: i64 = ay - by;
    proof {
        assert(dx * dx <= 4_000_000_000_000_000_000 && dx * dx >= 0) by (nonlinear_arith)
            requires
                -2_000_000_000 <= dx <= 2_000_000_000,
        ;
        assert(dy * dy <= 4_000_000_000_000_000_000 && dy * dy >= 0) by (nonlinear_arith)
            requires
                -2_000_000_000 <= dy <= 2_000_000_000,
        ;
    }
    dx * dx + dy * dy
}

} // verus!
