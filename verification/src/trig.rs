use vstd::prelude::*;

verus! {

/// Pi in milliradians, rounded.
pub const PI_MRAD: i64 = 3142;

/// Two pi in milliradians, rounded.
pub const TWO_PI_MRAD: i64 = 6283;

/// Half pi in milliradians, rounded.
pub const HALF_PI_MRAD: i64 = 1571;

pub open spec fn angle_wf(a: int) -> bool {
    0 <= a < TWO_PI_MRAD
}

/// Rational approximation of the sine on the first half turn, scaled by
/// 1000: `16 x (pi - x) / (5 pi^2 - 4 x (pi - x))`, which is exact at 0,
/// pi/2 and pi and within a few per mill elsewhere.
pub open spec fn sin_half_spec(x: int) -> int {
    16 * x * (PI_MRAD - x) * 1000 / (5 * PI_MRAD * PI_MRAD - 4 * x * (PI_MRAD - x))
}

/// Sine over a full turn, scaled by 1000: the second half turn mirrors the
/// first with opposite sign.
pub open spec fn sin_spec(a: int) -> int {
    if a <= PI_MRAD {
        sin_half_spec(a)
    } else {
        -sin_half_spec(a - PI_MRAD)
    }
}

/// Cosine over a full turn, scaled by 1000: the sine a quarter turn ahead.
pub open spec fn cos_spec(a: int) -> int {
    sin_spec(
        if a + HALF_PI_MRAD < TWO_PI_MRAD {
            a + HALF_PI_MRAD
        } else {
            a + HALF_PI_MRAD - TWO_PI_MRAD
        },
    )
}

/// Sum of an angle and a bounded increment, wrapped back onto one turn.
pub open spec fn angle_add_spec(a: int, d: int) -> int {
    if a + d < 0 {
        a + d + TWO_PI_MRAD
    } else if a + d >= TWO_PI_MRAD {
        a + d - TWO_PI_MRAD
    } else {
        a + d
    }
}

proof fn lemma_sin_half_bounds(x: int)
    requires
        0 <= x <= PI_MRAD,
    ensures
        0 <= sin_half_spec(x) <= 1000,
{
    let p = PI_MRAD as int;
    assert(4 * x * (p - x) <= p * p) by (nonlinear_arith)
        requires
            0 <= x <= p,
    ;
    assert(0 <= x * (p - x)) by (nonlinear_arith)
        requires
            0 <= x <= p,
    ;
    let num = 16 * x * (p - x) * 1000;
    let den = 5 * p * p - 4 * x * (p - x);
    assert(den >= 4 * p * p > 0);
    assert(num <= 1000 * den) by (nonlinear_arith)
        requires
            4 * x * (p - x) <= p * p,
            0 <= x * (p - x),
            num == 16 * x * (p - x) * 1000,
            den == 5 * p * p - 4 * x * (p - x),
            p == 3142,
    ;
    assert(num / den <= 1000) by (nonlinear_arith)
        requires
            num <= 1000 * den,
            den > 0,
    ;
    assert(num / den >= 0) by (nonlinear_arith)
        requires
            num >= 0,
            den > 0,
    ;
}

/// The sine approximation stays within one scaled unit.
pub proof fn lemma_sin_spec_bounds(a: int)
    requires
        angle_wf(a),
    ensures
        -1000 <= sin_spec(a) <= 1000,
{
    if a <= PI_MRAD {
        lemma_sin_half_bounds(a);
    } else {
        lemma_sin_half_bounds(a - PI_MRAD);
    }
}

/// The cosine approximation stays within one scaled unit.
pub proof fn lemma_cos_spec_bounds(a: int)
    requires
        angle_wf(a),
    ensures
        -1000 <= cos_spec(a) <= 1000,
{
    let b = if a + HALF_PI_MRAD < TWO_PI_MRAD {
        a + HALF_PI_MRAD
    } else {
        a + HALF_PI_MRAD - TWO_PI_MRAD
    };
    lemma_sin_spec_bounds(b);
}

/// Fixed-point sine on the first half turn.
fn sin_half(x: i64) -> (r: i64)
    requires
        0 <= x <= PI_MRAD,
    ensures
        r == sin_half_spec(x as int),
        0 <= r <= 1000,
{
    proof {
        let p = PI_MRAD as int;
        assert(0 <= x * (p - x) <= p * p) by (nonlinear_arith)
            requires
                0 <= x <= p,
                p == 3142,
        ;
        assert(0 <= 16 * x * (p - x) <= 16 * p * p) by (nonlinear_arith)
            requires
                0 <= x * (p - x) <= p * p,
        ;
        assert(0 <= 16 * x * (p - x) * 1000 <= 16 * p * p * 1000) by (nonlinear_arith)
            requires
                0 <= 16 * x * (p - x) <= 16 * p * p,
        ;
        assert(0 <= 4 * x * (p - x) <= 4 * p * p) by (nonlinear_arith)
            requires
                0 <= x * (p - x) <= p * p,
        ;
        lemma_sin_half_bounds(x as int);
    }
    let num: i64 = 16 * x * (PI_MRAD - x) * 1000;
    let den: i64 = 5 * PI_MRAD * PI_MRAD - 4 * x * (PI_MRAD - x);
    num / den
}

/// Fixed-point sine over a full turn.
pub fn sin_milli(a: i64) -> (r: i64)
    requires
        angle_wf(a as int),
    ensures
        r == sin_spec(a as int),
        -1000 <= r <= 1000,
{
    if a <= PI_MRAD {
        sin_half(a)
    } else {
        proof {
            lemma_sin_half_bounds(a - PI_MRAD);
        }
        -sin_half(a - PI_MRAD)
    }
}

/// Fixed-point cosine over a full turn.
pub fn cos_milli(a: i64) -> (r: i64)
    requires
        angle_wf(a as int),
    ensures
        r == cos_spec(a as int),
        -1000 <= r <= 1000,
{
    let b: i64 = if a + HALF_PI_MRAD < TWO_PI_MRAD {
        a + HALF_PI_MRAD
    } else {
        a + HALF_PI_MRAD - TWO_PI_MRAD
    };
    sin_milli(b)
}

/// Advance an angle by a bounded increment, wrapping onto one turn.
pub fn angle_add(a: i64, d: i64) -> (r: i64)
    requires
        angle_wf(a as int),
        -TWO_PI_MRAD < d < TWO_PI_MRAD,
    ensures
        r == angle_add_spec(a as int, d as int),
        angle_wf(r as int),
{
    let s: i64 = a + d;
    if s < 0 {
        s + TWO_PI_MRAD
    } else if s >= TWO_PI_MRAD {
        s - TWO_PI_MRAD
    } else {
        s
    }
}

} // verus!
