use vstd::prelude::*;
use crate::components::{SpriteSize, Vec2i};

verus! {

/// Bound on sprite extents, in milli-pixels.
pub const SIZE_LIMIT: i64 = 1_000_000_000;

/// Bound on sprite scales, in milli.
pub const SCALE_LIMIT: i64 = 2_000;

/// Effective half-extent of a sprite axis: the unscaled extent times the
/// milli scale, halved (divide by 2 and by the milli factor at once).
pub open spec fn half_extent(size: int, scale: int) -> int {
    size * scale / 2000
}

/// Closed axis-aligned bounding boxes around two centers share a point.
pub open spec fn boxes_collide(
    pos_a: Vec2i,
    size_a: SpriteSize,
    scale_a: int,
    pos_b: Vec2i,
    size_b: SpriteSize,
    scale_b: int,
) -> bool {
    let ha_w = half_extent(size_a.w as int, scale_a);
    let ha_h = half_extent(size_a.h as int, scale_a);
    let hb_w = half_extent(size_b.w as int, scale_b);
    let hb_h = half_extent(size_b.h as int, scale_b);
    &&& pos_a.x - ha_w <= pos_b.x + hb_w
    &&& pos_b.x - hb_w <= pos_a.x + ha_w
    &&& pos_a.y - ha_h <= pos_b.y + hb_h
    &&& pos_b.y - hb_h <= pos_a.y + ha_h
}

pub open spec fn size_wf(size: SpriteSize) -> bool {
    0 <= size.w <= SIZE_LIMIT && 0 <= size.h <= SIZE_LIMIT
}

pub open spec fn scale_wf(scale: int) -> bool {
    0 <= scale <= SCALE_LIMIT
}

/// One effective half-extent, executable form.
pub fn half_extent_of(size: i64, scale: i64) -> (r: i64)
    requires
        0 <= size <= SIZE_LIMIT,
        0 <= scale <= SCALE_LIMIT,
    ensures
        r == half_extent(size as int, scale as int),
        0 <= r <= SIZE_LIMIT,
{
    proof {
        assert(0 <= size * scale <= 2_000_000_000_000int) by (nonlinear_arith)
            requires
                0 <= size <= SIZE_LIMIT,
                0 <= scale <= SCALE_LIMIT,
        ;
    }
    (size * scale) / 2000
}

/// Axis-aligned bounding-box intersection test between two sprites.
pub fn collide(
    pos_a: Vec2i,
    size_a: SpriteSize,
    scale_a: i64,
    pos_b: Vec2i,
    size_b: SpriteSize,
    scale_b: i64,
) -> (r: bool)
    requires
        size_wf(size_a),
        size_wf(size_b),
        scale_wf(scale_a as int),
        scale_wf(scale_b as int),
        -0x2000_0000_0000_0000 <= pos_a.x <= 0x2000_0000_0000_0000,
        -0x2000_0000_0000_0000 <= pos_a.y <= 0x2000_0000_0000_0000,
        -0x2000_0000_0000_0000 <= pos_b.x <= 0x2000_0000_0000_0000,
        -0x2000_0000_0000_0000 <= pos_b.y <= 0x2000_0000_0000_0000,
    ensures
        r == boxes_collide(pos_a, size_a, scale_a as int, pos_b, size_b, scale_b as int),
{
    let ha_w = half_extent_of(size_a.w, scale_a);
    let ha_h = half_extent_of(size_a.h, scale_a);
    let hb_w = half_extent_of(size_b.w, scale_b);
    let hb_h = half_extent_of(size_b.h, scale_b);
    pos_a.x - ha_w <= pos_b.x + hb_w && pos_b.x - hb_w <= pos_a.x + ha_w
        && pos_a.y - ha_h <= pos_b.y + hb_h && pos_b.y - hb_h <= pos_a.y + ha_h
}

/// Floor of the square root of a natural number.
pub open spec fn sqrt_floor(n: nat) -> nat
    decreases n,
{
    if n == 0 {
        0
    } else {
        let s = sqrt_floor((n - 1) as nat);
        if (s + 1) * (s + 1) <= n {
            s + 1
        } else {
            s
        }
    }
}

/// `sqrt_floor(n)` is the greatest root whose square does not exceed `n`.
pub proof fn lemma_sqrt_floor_bracket(n: nat)
    ensures
        sqrt_floor(n) * sqrt_floor(n) <= n,
        n < (sqrt_floor(n) + 1) * (sqrt_floor(n) + 1),
    decreases n,
{
    if n > 0 {
        lemma_sqrt_floor_bracket((n - 1) as nat);
        let s = sqrt_floor((n - 1) as nat);
        if (s + 1) * (s + 1) <= n {
            assert(sqrt_floor(n) == s + 1);
            assert(n - 1 < (s + 1) * (s + 1));
            assert(n < (sqrt_floor(n) + 1) * (sqrt_floor(n) + 1)) by (nonlinear_arith)
                requires
                    sqrt_floor(n) == s + 1,
                    n <= (s + 1) * (s + 1),
                    s >= 0,
            ;
        } else {
            assert(sqrt_floor(n) == s);
            assert(s * s <= n - 1 <= n);
            assert(n < (sqrt_floor(n) + 1) * (sqrt_floor(n) + 1)) by (nonlinear_arith)
                requires
                    sqrt_floor(n) == s,
                    n < (s + 1) * (s + 1),
                    s >= 0,
            ;
        }
    } else {
        assert(sqrt_floor(0nat) == 0);
        assert(n < (sqrt_floor(n) + 1) * (sqrt_floor(n) + 1)) by (nonlinear_arith)
            requires
                n == 0,
                sqrt_floor(n) == 0,
        ;
    }
    let f = sqrt_floor(n);
    assert(f * f >= 0 && (f + 1) * (f + 1) >= 0) by (nonlinear_arith)
        requires
            f >= 0,
    ;
}

/// Any value bracketed by consecutive squares is the floor square root.
pub proof fn lemma_sqrt_floor_unique(n: nat, r: nat)
    requires
        r * r <= n,
        n < (r + 1) * (r + 1),
    ensures
        r == sqrt_floor(n),
{
    lemma_sqrt_floor_bracket(n);
    let f = sqrt_floor(n);
    assert(r < f + 1 && f < r + 1) by (nonlinear_arith)
        requires
            r * r <= n < (r + 1) * (r + 1),
            f * f <= n < (f + 1) * (f + 1),
            r >= 0,
            f >= 0,
    ;
}

/// The floor square root is monotone.
pub proof fn lemma_sqrt_floor_monotone(a: nat, b: nat)
    requires
        a <= b,
    ensures
        sqrt_floor(a) <= sqrt_floor(b),
{
    lemma_sqrt_floor_bracket(a);
    lemma_sqrt_floor_bracket(b);
    let sa = sqrt_floor(a);
    let sb = sqrt_floor(b);
    if sa > sb {
        assert(sa * sa >= (sb + 1) * (sb + 1)) by (nonlinear_arith)
            requires
                sa >= sb + 1,
                sb >= 0,
        ;
        assert(false);
    }
}

/// Floor of the square root: the greatest `r` with `r * r <= n`.
pub fn isqrt(n: u64) -> (r: u64)
    ensures
        r * r <= n,
        n < (r + 1) * (r + 1),
        r == sqrt_floor(n as nat),
{
    let mut lo: u64 = 0;
    let mut hi: u64 = 4_294_967_295;
    proof {
        assert((4_294_967_295u64 as int + 1) * (4_294_967_295u64 as int + 1) > u64::MAX as int)
            by (nonlinear_arith);
    }
    while lo < hi
        invariant
            lo <= hi <= 4_294_967_295,
            (lo as int) * (lo as int) <= n as int,
            (n as int) < ((hi as int) + 1) * ((hi as int) + 1),
        decreases hi - lo,
    {
        let mid: u64 = lo + (hi - lo + 1) / 2;
        assert(lo < mid <= hi);
        assert((mid as int) * (mid as int) <= (4_294_967_295int) * (4_294_967_295int))
            by (nonlinear_arith)
            requires
                0 <= mid <= 4_294_967_295,
        ;
        assert((4_294_967_295int) * (4_294_967_295int) <= u64::MAX as int) by (nonlinear_arith);
        if mid * mid <= n {
            lo = mid;
        } else {
            hi = mid - 1;
        }
    }
    proof {
        lemma_sqrt_floor_unique(n as nat, lo as nat);
    }
    lo
}

} // verus!
