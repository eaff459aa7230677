use vstd::prelude::*;
use vstd::arithmetic::div_mod::{lemma_div_by_multiple, lemma_div_is_ordered};
use crate::components::{Vec2i, WinSize, DT_LIMIT};
use crate::geom::sqrt_floor;
use crate::rng::sample_below;
use crate::trig::{
    angle_add, angle_add_spec, angle_wf, cos_milli, cos_spec, sin_milli, sin_spec, TWO_PI_MRAD,
};

verus! {

/// Angular speed of every flight plan, in milli-pixels per second.
pub const PATH_SPEED: i64 = 100_000;

/// Margin kept between an orbit and the screen edge, in milli-pixels.
pub const ORBIT_MARGIN: i64 = 20_000;

/// How far outside the screen edge an enemy starts, in milli-pixels.
pub const START_OFF: i64 = 100_000;

/// Bound on enemy coordinates while following a plan, in milli-pixels.
pub const ENEMY_POS_LIMIT: i64 = 200_000_000;

/// An orbital flight plan, owned by exactly one enemy craft.
#[derive(Clone, Copy, PartialEq, Eq, Structural, Debug)]
pub struct Path {
    /// Where the enemy is spawned; its sign fixes the turning direction.
    pub start: Vec2i,
    /// Center of the orbit ellipse.
    pub pivot: Vec2i,
    /// Half-axes of the orbit ellipse.
    pub radius: Vec2i,
    /// Current angle on the ellipse, in milliradians on one turn.
    pub angle: i64,
    /// Angular speed, in milli-pixels per second.
    pub speed: i64,
}

impl Path {
    pub open spec fn wf(self) -> bool {
        &&& 1_000 <= self.radius.x <= 150_000
        &&& 1_000 <= self.radius.y <= 150_000
        &&& self.speed == PATH_SPEED
        &&& angle_wf(self.angle as int)
        &&& -100_000_000 <= self.pivot.x <= 100_000_000
        &&& -100_000_000 <= self.pivot.y <= 100_000_000
        &&& -ENEMY_POS_LIMIT <= self.start.x <= ENEMY_POS_LIMIT
        &&& -ENEMY_POS_LIMIT <= self.start.y <= ENEMY_POS_LIMIT
    }
}

/// Stateful factory for flight plans; successive plans start from
/// alternating horizontal sides.
#[derive(Clone, Copy, PartialEq, Eq, Structural, Debug)]
pub struct PathMaker {
    /// The next plan starts from the left (negative x) side.
    pub next_left: bool,
}

impl Default for PathMaker {
    /// The first plan starts from the left side.
    fn default() -> (r: Self)
        ensures
            r.next_left == true,
    {
        PathMaker { next_left: true }
    }
}

impl PathMaker {
    /// Produce a flight plan whose orbit lies inside the screen with a
    /// margin, whose start lies outside the top edge on the alternating
    /// side, and whose angle begins at zero.  Always succeeds; the only
    /// state advanced is the side alternation.
    pub fn make(&mut self, win: &WinSize) -> (r: Path)
        requires
            win.wf(),
        ensures
            final(self).next_left == !old(self).next_left,
            r.wf(),
            r.angle == 0,
            r.speed == PATH_SPEED,
            80_000 <= r.radius.x <= 150_000,
            50_000 <= r.radius.y <= 100_000,
            r.pivot.x - r.radius.x >= -(win.w / 2) + ORBIT_MARGIN,
            r.pivot.x + r.radius.x <= win.w / 2 - ORBIT_MARGIN,
            r.pivot.y >= 0,
            r.pivot.y + r.radius.y <= win.h / 2 - ORBIT_MARGIN,
            r.start.y == win.h / 2 + START_OFF,
            r.start.x == if old(self).next_left {
                -(win.w / 2 + START_OFF)
            } else {
                win.w / 2 + START_OFF
            },
            old(self).next_left ==> r.start.x < 0 && r.pivot.x <= 0,
            !old(self).next_left ==> r.start.x > 0 && r.pivot.x >= 0,
    {
        let left = self.next_left;
        self.next_left = !left;

        let rx: i64 = 80_000 + sample_below(70_001) as i64;
        let ry: i64 = 50_000 + sample_below(50_001) as i64;

        let half_w: i64 = win.w / 2;
        let half_h: i64 = win.h / 2;
        let px_span: i64 = half_w - ORBIT_MARGIN - rx;
        let py_span: i64 = half_h - ORBIT_MARGIN - ry;
        let px: i64 = sample_below((px_span + 1) as u64) as i64;
        let py: i64 = sample_below((py_span + 1) as u64) as i64;

        let pivot = Vec2i { x: if left { -px } else { px }, y: py };
        let start = Vec2i {
            x: if left { -(half_w + START_OFF) } else { half_w + START_OFF },
            y: half_h + START_OFF,
        };
        Path { start, pivot, radius: Vec2i { x: rx, y: ry }, angle: 0, speed: PATH_SPEED }
    }
}

/// How far an enemy may travel this tick, in milli-pixels.
pub open spec fn max_dist_spec(p: Path, delta_us: int) -> int {
    p.speed * delta_us / 1_000_000
}

pub open spec fn min_radius(p: Path) -> int {
    if p.radius.x <= p.radius.y {
        p.radius.x as int
    } else {
        p.radius.y as int
    }
}

/// Turning direction: counter-clockwise for plans starting on the left.
pub open spec fn dir_sign(p: Path) -> int {
    if p.start.x < 0 {
        1
    } else {
        -1
    }
}

/// Magnitude of this tick's angle advance, in milliradians on one turn:
/// the travel distance divided by a quarter turn of the tighter half-axis.
pub open spec fn dangle_mag_spec(p: Path, delta_us: int) -> int {
    (p.speed * delta_us / (min_radius(p) * 1571)) % (TWO_PI_MRAD as int)
}

/// The angle the enemy chases this tick.
pub open spec fn cand_angle_spec(p: Path, delta_us: int) -> int {
    angle_add_spec(p.angle as int, dir_sign(p) * dangle_mag_spec(p, delta_us))
}

/// A nonnegative radius scaled by a milli factor in [-1000, 1000],
/// truncated toward zero as the executable arithmetic truncates.
pub open spec fn scale_milli(r: int, t: int) -> int {
    if t >= 0 {
        r * t / 1000
    } else {
        -(r * (-t) / 1000)
    }
}

/// The point on the ellipse at the chased angle.
pub open spec fn target_x_spec(p: Path, delta_us: int) -> int {
    p.pivot.x + scale_milli(p.radius.x as int, cos_spec(cand_angle_spec(p, delta_us)))
}

pub open spec fn target_y_spec(p: Path, delta_us: int) -> int {
    p.pivot.y + scale_milli(p.radius.y as int, sin_spec(cand_angle_spec(p, delta_us)))
}

/// Euclidean distance (floor) from the current position to the target.
pub open spec fn dist_spec(pos: Vec2i, p: Path, delta_us: int) -> int {
    let dx = pos.x - target_x_spec(p, delta_us);
    let dy = pos.y - target_y_spec(p, delta_us);
    sqrt_floor((dx * dx + dy * dy) as nat) as int
}

/// One axis of a move toward the target by the distance fraction
/// `max_d / dist`; used only when `0 <= max_d < dist`.
pub open spec fn axis_move_spec(org: int, dst: int, max_d: int, dist: int) -> int {
    let da = if org >= dst {
        org - dst
    } else {
        dst - org
    };
    let step = da * max_d / dist;
    if org >= dst {
        org - step
    } else {
        org + step
    }
}

/// The position after one tick: the target itself once it is within
/// reach, else a move toward it that never overshoots on either axis.
pub open spec fn next_x_spec(pos: Vec2i, p: Path, delta_us: int) -> int {
    if max_dist_spec(p, delta_us) >= dist_spec(pos, p, delta_us) {
        target_x_spec(p, delta_us)
    } else {
        axis_move_spec(
            pos.x as int,
            target_x_spec(p, delta_us),
            max_dist_spec(p, delta_us),
            dist_spec(pos, p, delta_us),
        )
    }
}

pub open spec fn next_y_spec(pos: Vec2i, p: Path, delta_us: int) -> int {
    if max_dist_spec(p, delta_us) >= dist_spec(pos, p, delta_us) {
        target_y_spec(p, delta_us)
    } else {
        axis_move_spec(
            pos.y as int,
            target_y_spec(p, delta_us),
            max_dist_spec(p, delta_us),
            dist_spec(pos, p, delta_us),
        )
    }
}

/// The angle only advances once the enemy is this close to its target.
pub open spec fn commit_threshold_spec(p: Path, delta_us: int) -> int {
    max_dist_spec(p, delta_us) * p.speed / 20_000
}

/// The plan's angle after one tick: the chased angle once the enemy has
/// caught up with the ellipse, the old angle otherwise.
pub open spec fn next_angle_spec(pos: Vec2i, p: Path, delta_us: int) -> int {
    if dist_spec(pos, p, delta_us) < commit_threshold_spec(p, delta_us) {
        cand_angle_spec(p, delta_us)
    } else {
        p.angle as int
    }
}

/// Quotient of nonnegative machine integers, exactly the mathematical
/// floor quotient.
pub fn div_nn(a: i64, b: i64) -> (r: i64)
    requires
        a >= 0,
        b > 0,
    ensures
        r == a as int / b as int,
        0 <= r <= a,
{
    proof {
        vstd::arithmetic::div_mod::lemma_div_nonincreasing(a as int, b as int);
        vstd::arithmetic::div_mod::lemma_div_pos_is_pos(a as int, b as int);
    }
    ((a as u64) / (b as u64)) as i64
}

/// Magnitude of a bounded machine integer.
fn abs64(v: i64) -> (r: u64)
    requires
        -1_000_000_000_000_000_000 <= v <= 1_000_000_000_000_000_000,
    ensures
        r == if v >= 0 {
            v as int
        } else {
            -(v as int)
        },
{
    if v >= 0 {
        v as u64
    } else {
        (-v) as u64
    }
}

/// A step of `a * b / d` never exceeds `a` when `b <= d`.
proof fn lemma_mul_div_le(a: int, b: int, d: int)
    requires
        a >= 0,
        0 <= b <= d,
        d > 0,
    ensures
        0 <= a * b / d <= a,
{
    assert(a * b <= a * d) by (nonlinear_arith)
        requires
            a >= 0,
            b <= d,
    ;
    assert(a * b >= 0) by (nonlinear_arith)
        requires
            a >= 0,
            b >= 0,
    ;
    lemma_div_is_ordered(a * b, a * d, d);
    lemma_div_by_multiple(a, d);
    vstd::arithmetic::div_mod::lemma_div_pos_is_pos(a * b, d);
}

/// Fixed-point scaling of a radius by a trig value in [-1000, 1000].
fn scale_milli_exec(r: i64, t: i64) -> (res: i64)
    requires
        0 <= r <= 150_000,
        -1000 <= t <= 1000,
    ensures
        res == scale_milli(r as int, t as int),
        -150_000 <= res <= 150_000,
{
    if t >= 0 {
        proof {
            lemma_mul_div_le(r as int, t as int, 1000);
            assert(r * t <= 150_000 * 1000) by (nonlinear_arith)
                requires
                    0 <= r <= 150_000,
                    0 <= t <= 1000,
            ;
            assert(r as int * t as int / 1000int <= r as int);
        }
        (((r as u64) * (t as u64)) / 1000) as i64
    } else {
        proof {
            lemma_mul_div_le(r as int, -(t as int), 1000);
            assert(r * (-t) <= 150_000 * 1000) by (nonlinear_arith)
                requires
                    0 <= r <= 150_000,
                    0 <= -t <= 1000,
            ;
        }
        -((((r as u64) * ((-t) as u64)) / 1000) as i64)
    }
}

/// Advance one enemy along its flight plan by one tick.
///
/// The enemy moves from `pos` toward the point of its orbit ellipse at the
/// chased angle, by at most this tick's travel distance and without
/// overshooting on either axis; the plan's angle advances to the chased
/// angle exactly when the enemy has caught up with the ellipse.  A tick of
/// zero elapsed time changes nothing.
pub fn path_step(pos: Vec2i, path: &mut Path, delta_us: i64) -> (r: Vec2i)
    requires
        old(path).wf(),
        0 <= delta_us <= DT_LIMIT,
        -ENEMY_POS_LIMIT <= pos.x <= ENEMY_POS_LIMIT,
        -ENEMY_POS_LIMIT <= pos.y <= ENEMY_POS_LIMIT,
    ensures
        final(path).wf(),
        final(path).start == old(path).start,
        final(path).pivot == old(path).pivot,
        final(path).radius == old(path).radius,
        final(path).speed == old(path).speed,
        final(path).angle == next_angle_spec(pos, *old(path), delta_us as int),
        r.x == next_x_spec(pos, *old(path), delta_us as int),
        r.y == next_y_spec(pos, *old(path), delta_us as int),
        ({
            let tx = target_x_spec(*old(path), delta_us as int);
            (pos.x <= r.x <= tx) || (tx <= r.x <= pos.x)
        }),
        ({
            let ty = target_y_spec(*old(path), delta_us as int);
            (pos.y <= r.y <= ty) || (ty <= r.y <= pos.y)
        }),
        -ENEMY_POS_LIMIT <= r.x <= ENEMY_POS_LIMIT,
        -ENEMY_POS_LIMIT <= r.y <= ENEMY_POS_LIMIT,
        final(path).angle != old(path).angle ==> dist_spec(pos, *old(path), delta_us as int)
            < commit_threshold_spec(*old(path), delta_us as int),
        delta_us == 0 ==> r == pos && *final(path) == *old(path),
{
    let ghost p0 = *path;
    let speed: i64 = path.speed;
    proof {
        assert(0 <= speed * delta_us <= 100_000_000_000_000int) by (nonlinear_arith)
            requires
                speed == 100_000,
                0 <= delta_us <= 1_000_000_000,
        ;
    }
    let max_d: i64 = div_nn(speed * delta_us, 1_000_000);
    proof {
        lemma_div_is_ordered(speed * delta_us, 100_000_000_000_000int, 1_000_000int);
        assert(max_d <= 100_000_000);
        assert(0 <= max_d * speed <= 10_000_000_000_000int) by (nonlinear_arith)
            requires
                0 <= max_d <= 100_000_000,
                speed == 100_000,
        ;
    }
    let min_r: i64 = if path.radius.x <= path.radius.y {
        path.radius.x
    } else {
        path.radius.y
    };
    let dmag: i64 = ((div_nn(speed * delta_us, min_r * 1571) as u64) % (TWO_PI_MRAD as u64))
        as i64;
    let dir_ccw: bool = path.start.x < 0;
    let cand: i64 = angle_add(path.angle, if dir_ccw { dmag } else { -dmag });
    proof {
        assert(cand == cand_angle_spec(p0, delta_us as int));
    }
    let c: i64 = cos_milli(cand);
    let s: i64 = sin_milli(cand);
    let tx: i64 = path.pivot.x + scale_milli_exec(path.radius.x, c);
    let ty: i64 = path.pivot.y + scale_milli_exec(path.radius.y, s);
    let dx: i64 = pos.x - tx;
    let dy: i64 = pos.y - ty;
    let dxa: u64 = abs64(dx);
    let dya: u64 = abs64(dy);
    proof {
        assert(dxa * dxa == dx * dx && dya * dya == dy * dy) by (nonlinear_arith)
            requires
                dxa == if dx >= 0 { dx as int } else { -(dx as int) },
                dya == if dy >= 0 { dy as int } else { -(dy as int) },
        ;
        assert(dxa * dxa <= 400_000_000 * 400_000_000 && dya * dya <= 400_000_000
            * 400_000_000) by (nonlinear_arith)
            requires
                0 <= dxa <= 400_000_000,
                0 <= dya <= 400_000_000,
        ;
    }
    let dd: u64 = dxa * dxa + dya * dya;
    let dist: u64 = crate::geom::isqrt(dd);
    proof {
        assert(dist == dist_spec(pos, p0, delta_us as int));
        assert(dist * dist <= dd);
        assert(dist <= 600_000_000) by (nonlinear_arith)
            requires
                dist * dist <= dd,
                dd <= 320_000_000_000_000_000,
                dist >= 0,
        ;
    }
    let thr: i64 = div_nn(max_d * speed, 20_000);
    let nx: i64;
    let ny: i64;
    if (max_d as u64) >= dist {
        nx = tx;
        ny = ty;
    } else {
        proof {
            lemma_mul_div_le(dxa as int, max_d as int, dist as int);
            lemma_mul_div_le(dya as int, max_d as int, dist as int);
            assert(dxa * max_d <= 360_000_000_000_000_000int && dya * max_d
                <= 360_000_000_000_000_000int) by (nonlinear_arith)
                requires
                    0 <= dxa <= 600_000_000,
                    0 <= dya <= 600_000_000,
                    0 <= max_d <= 600_000_000,
            ;
        }
        let step_x: u64 = dxa * (max_d as u64) / dist;
        let step_y: u64 = dya * (max_d as u64) / dist;
        nx = if dx >= 0 {
            pos.x - step_x as i64
        } else {
            pos.x + step_x as i64
        };
        ny = if dy >= 0 {
            pos.y - step_y as i64
        } else {
            pos.y + step_y as i64
        };
    }
    if (dist as i64) < thr {
        path.angle = cand;
    }
    proof {
        if delta_us == 0 {
            assert(max_d == 0);
            assert(dmag == 0);
            assert(cand == p0.angle);
            assert(thr == 0);
            if dist == 0 {
                assert(dx * dx >= 0 && dy * dy >= 0 && (dx != 0 ==> dx * dx > 0) && (dy != 0
                    ==> dy * dy > 0)) by (nonlinear_arith);
                assert(dd < (dist + 1) * (dist + 1));
                assert(dd < 1) by (nonlinear_arith)
                    requires
                        dd < (dist + 1) * (dist + 1),
                        dist == 0,
                ;
                assert(dd == 0);
                assert(dx == 0 && dy == 0);
            }
        }
    }
    Vec2i { x: nx, y: ny }
}

/// A nonnegative radius scaled by a bounded milli factor stays within
/// the radius.
proof fn lemma_scale_milli_bound(r: int, t: int)
    requires
        0 <= r,
        -1000 <= t <= 1000,
    ensures
        -r <= scale_milli(r, t) <= r,
{
    if t >= 0 {
        lemma_mul_div_le(r, t, 1000);
    } else {
        lemma_mul_div_le(r, -t, 1000);
    }
}

/// Approach to the orbit, in general: once a tick's travel budget
/// covers the remaining distance, the enemy lands exactly on the
/// ellipse point at the chased angle; and a step never increases the
/// distance to that point.  Under repeated equal ticks with the angle
/// not yet advancing, the chased point is the same each tick, so the
/// enemy closes in on the orbit ellipse around the pivot and, once
/// there, stays on it.
pub proof fn lemma_step_approaches_ellipse(pos: Vec2i, p: Path, delta_us: int)
    requires
        p.wf(),
        0 <= delta_us <= DT_LIMIT,
        -ENEMY_POS_LIMIT <= pos.x <= ENEMY_POS_LIMIT,
        -ENEMY_POS_LIMIT <= pos.y <= ENEMY_POS_LIMIT,
    ensures
        max_dist_spec(p, delta_us) >= dist_spec(pos, p, delta_us) ==> next_x_spec(pos, p, delta_us)
            == target_x_spec(p, delta_us) && next_y_spec(pos, p, delta_us) == target_y_spec(
            p,
            delta_us,
        ),
        dist_spec(
            Vec2i {
                x: next_x_spec(pos, p, delta_us) as i64,
                y: next_y_spec(pos, p, delta_us) as i64,
            },
            p,
            delta_us,
        ) <= dist_spec(pos, p, delta_us),
{
    let cand = cand_angle_spec(p, delta_us);
    assert(0 <= p.speed * delta_us) by (nonlinear_arith)
        requires
            p.speed == 100_000,
            delta_us >= 0,
    ;
    vstd::arithmetic::div_mod::lemma_div_pos_is_pos(
        p.speed * delta_us,
        min_radius(p) * 1571,
    );
    vstd::arithmetic::div_mod::lemma_div_pos_is_pos(p.speed * delta_us, 1_000_000);
    let dmag = dangle_mag_spec(p, delta_us);
    assert(0 <= dmag < TWO_PI_MRAD);
    assert(crate::trig::angle_wf(cand));
    crate::trig::lemma_cos_spec_bounds(cand);
    crate::trig::lemma_sin_spec_bounds(cand);
    lemma_scale_milli_bound(p.radius.x as int, crate::trig::cos_spec(cand));
    lemma_scale_milli_bound(p.radius.y as int, crate::trig::sin_spec(cand));
    let tx = target_x_spec(p, delta_us);
    let ty = target_y_spec(p, delta_us);
    assert(-100_150_000 <= tx <= 100_150_000);
    assert(-100_150_000 <= ty <= 100_150_000);
    let dist = dist_spec(pos, p, delta_us);
    let max_d = max_dist_spec(p, delta_us);
    let nx = next_x_spec(pos, p, delta_us);
    let ny = next_y_spec(pos, p, delta_us);
    let dx0 = pos.x - tx;
    let dy0 = pos.y - ty;
    crate::geom::lemma_sqrt_floor_bracket((dx0 * dx0 + dy0 * dy0) as nat);
    assert(dx0 * dx0 >= 0 && dy0 * dy0 >= 0) by (nonlinear_arith);
    if max_d >= dist {
        assert(nx == tx && ny == ty);
    } else {
        assert(dist > 0);
        let da_x = if pos.x >= tx { pos.x - tx } else { tx - pos.x };
        let da_y = if pos.y >= ty { pos.y - ty } else { ty - pos.y };
        lemma_mul_div_le(da_x, max_d, dist);
        lemma_mul_div_le(da_y, max_d, dist);
    }
    // per-axis: the step never crosses the target
    assert((0 <= nx - tx <= dx0) || (dx0 <= nx - tx <= 0));
    assert((0 <= ny - ty <= dy0) || (dy0 <= ny - ty <= 0));
    assert(-ENEMY_POS_LIMIT <= nx <= ENEMY_POS_LIMIT);
    assert(-ENEMY_POS_LIMIT <= ny <= ENEMY_POS_LIMIT);
    let np = Vec2i { x: nx as i64, y: ny as i64 };
    assert(np.x == nx && np.y == ny);
    let dx1 = np.x - tx;
    let dy1 = np.y - ty;
    assert(dx1 * dx1 <= dx0 * dx0) by (nonlinear_arith)
        requires
            (0 <= dx1 && dx1 <= dx0) || (dx0 <= dx1 && dx1 <= 0),
    ;
    assert(dy1 * dy1 <= dy0 * dy0) by (nonlinear_arith)
        requires
            (0 <= dy1 && dy1 <= dy0) || (dy0 <= dy1 && dy1 <= 0),
    ;
    assert(dx1 * dx1 >= 0 && dy1 * dy1 >= 0) by (nonlinear_arith);
    crate::geom::lemma_sqrt_floor_monotone(
        (dx1 * dx1 + dy1 * dy1) as nat,
        (dx0 * dx0 + dy0 * dy0) as nat,
    );
}

} // verus!
