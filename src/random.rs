use vstd::prelude::*;
use crate::geometry::{Bounds, Point, ENEMY_SPEED, SUBPIXELS};

verus! {

/// Relies on `rand::random_range` over an inclusive range of `i64`: the value
/// drawn lies in the range, and it panics only where the range is empty.
#[verifier::external_body]
fn random_between(lo: i64, hi: i64) -> (r: i64)
    requires
        lo <= hi,
    ensures
        lo <= r <= hi,
{
    rand::random_range(lo..=hi)
}

/// A random point of the play area `b`, edges included.
pub fn make_random_position(b: Bounds) -> (p: Point)
    requires
        b.wf(),
    ensures
        b.holds(p),
{
    let x = random_between(-b.half_w, b.half_w);
    let y = random_between(-b.half_h, b.half_h);
    Point { x, y }
}

/// `r` is the integer square root of `n`.
pub open spec fn is_root(n: int, r: int) -> bool {
    0 <= r && r * r <= n < (r + 1) * (r + 1)
}

/// The largest square that `int_sqrt` takes.
pub const MAX_SQUARE: u64 = 4_000_000_000_000;

/// The integer square root of `n`, found by bisection.
pub fn int_sqrt(n: u64) -> (r: u64)
    requires
        n <= MAX_SQUARE,
    ensures
        is_root(n as int, r as int),
        r <= 2_000_000,
{
    let mut lo: u64 = 0;
    let mut hi: u64 = 2_000_001;
    assert(2_000_001 * 2_000_001 > MAX_SQUARE) by (nonlinear_arith);
    while lo + 1 < hi
        invariant
            lo < hi <= 2_000_001,
            lo * lo <= n,
            n < hi * hi,
        decreases hi - lo,
    {
        let mid: u64 = lo + (hi - lo) / 2;
        assert(mid * mid <= 2_000_001 * 2_000_001) by (nonlinear_arith)
            requires
                mid <= 2_000_001,
        ;
        if mid * mid <= n {
            lo = mid;
        } else {
            hi = mid;
        }
    }
    lo
}

/// The velocity of speed `ENEMY_SPEED` in the direction `(dx, dy)`, each
/// component rounded toward zero, with the length of `(dx, dy)` taken as its
/// integer square root.
pub open spec fn scaled_velocity(dx: int, dy: int, root: int) -> Point {
    Point { x: (dx * ENEMY_SPEED / root) as i64, y: (dy * ENEMY_SPEED / root) as i64 }
}

/// The largest direction component that `velocity_toward` takes.
pub const MAX_DIRECTION: i64 = 1_000_000;

/// Scales the direction `(dx, dy)` of the first quadrant to the enemy speed.
pub fn velocity_toward(dx: i64, dy: i64) -> (v: Point)
    requires
        0 <= dx <= MAX_DIRECTION,
        0 <= dy <= MAX_DIRECTION,
        dx + dy > 0,
    ensures
        exists|root: int| is_root(dx * dx + dy * dy, root) && v == scaled_velocity(dx as int, dy as int, root),
        0 <= v.x <= ENEMY_SPEED,
        0 <= v.y <= ENEMY_SPEED,
{
    assert(dx * dx <= MAX_DIRECTION * MAX_DIRECTION) by (nonlinear_arith)
        requires
            0 <= dx <= MAX_DIRECTION,
    ;
    assert(dy * dy <= MAX_DIRECTION * MAX_DIRECTION) by (nonlinear_arith)
        requires
            0 <= dy <= MAX_DIRECTION,
    ;
    let n: u64 = (dx * dx + dy * dy) as u64;
    let root = int_sqrt(n);
    assert(dx <= root && dy <= root && root > 0) by (nonlinear_arith)
        requires
            is_root(dx * dx + dy * dy, root as int),
            0 <= dx,
            0 <= dy,
            dx + dy > 0,
    ;
    let r = root as i64;
    assert(0 <= dx * ENEMY_SPEED / (r as int) <= ENEMY_SPEED) by (nonlinear_arith)
        requires
            0 <= dx <= r,
            r > 0,
    ;
    assert(0 <= dy * ENEMY_SPEED / (r as int) <= ENEMY_SPEED) by (nonlinear_arith)
        requires
            0 <= dy <= r,
            r > 0,
    ;
    let v = Point { x: dx * ENEMY_SPEED / r, y: dy * ENEMY_SPEED / r };
    assert(v == scaled_velocity(dx as int, dy as int, root as int));
    v
}

/// A random enemy velocity: a direction whose components each lie in
/// `[1, 2)` pixels, scaled to the enemy speed.
pub fn make_random_velocity() -> (v: Point)
    ensures
        0 <= v.x <= ENEMY_SPEED,
        0 <= v.y <= ENEMY_SPEED,
        exists|dx: int, dy: int, root: int|
            SUBPIXELS <= dx < 2 * SUBPIXELS && SUBPIXELS <= dy < 2 * SUBPIXELS && is_root(
                dx * dx + dy * dy,
                root,
            ) && v == scaled_velocity(dx, dy, root),
{
    let dx = SUBPIXELS + random_between(0, SUBPIXELS - 1);
    let dy = SUBPIXELS + random_between(0, SUBPIXELS - 1);
    velocity_toward(dx, dy)
}

} // verus!
