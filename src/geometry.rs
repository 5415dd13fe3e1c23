use vstd::prelude::*;

verus! {

/// Subunits per pixel: every coordinate and velocity is counted in these.
pub const SUBPIXELS: i64 = 1000;

/// Half the side of the pickup/collision box around the player (50 pixels).
pub const SQUARE_SIZE: i64 = 50_000;

/// The speed of an enemy per tick (4 pixels).
pub const ENEMY_SPEED: i64 = 4000;

/// The largest half extent a window can have: half of `u32::MAX` pixels.
pub const MAX_EXTENT: i64 = 2_147_483_647_500;

/// A position or a velocity in the plane.
#[derive(Clone, Copy, Debug, PartialEq, Eq, Structural)]
pub struct Point {
    pub x: i64,
    pub y: i64,
}

impl Point {
    pub fn new(x: i64, y: i64) -> (p: Point)
        ensures
            p.x == x,
            p.y == y,
    {
        Point { x, y }
    }

    pub fn origin() -> (p: Point)
        ensures
            p.x == 0,
            p.y == 0,
    {
        Point { x: 0, y: 0 }
    }
}

/// The play area: a rectangle centred on the origin.
#[derive(Clone, Copy, Debug, PartialEq, Eq, Structural)]
pub struct Bounds {
    pub half_w: i64,
    pub half_h: i64,
}

impl Bounds {
    pub open spec fn wf(self) -> bool {
        &&& 0 <= self.half_w <= MAX_EXTENT
        &&& 0 <= self.half_h <= MAX_EXTENT
    }

    /// Whether `p` lies in the closed rectangle `[-half_w, half_w] x [-half_h, half_h]`.
    pub open spec fn holds(self, p: Point) -> bool {
        &&& -self.half_w <= p.x <= self.half_w
        &&& -self.half_h <= p.y <= self.half_h
    }

    /// The play area of a window of `width` by `height` pixels.
    pub fn from_window(width: u32, height: u32) -> (b: Bounds)
        ensures
            b.wf(),
            2 * b.half_w == width * SUBPIXELS,
            2 * b.half_h == height * SUBPIXELS,
    {
        Bounds { half_w: width as i64 * (SUBPIXELS / 2), half_h: height as i64 * (SUBPIXELS / 2) }
    }

    pub fn contains(&self, p: Point) -> (r: bool)
        requires
            self.wf(),
        ensures
            r == self.holds(p),
    {
        -self.half_w <= p.x && p.x <= self.half_w && -self.half_h <= p.y && p.y <= self.half_h
    }
}

/// Whether `other` lies in the box of half side `SQUARE_SIZE` around `player`.
pub open spec fn covers(player: Point, other: Point) -> bool {
    &&& player.x - SQUARE_SIZE <= other.x <= player.x + SQUARE_SIZE
    &&& player.y - SQUARE_SIZE <= other.y <= player.y + SQUARE_SIZE
}

/// The overlap test used for both food pickup and enemy collision: the
/// player's box against the other entity's bare position, bounds included.
pub fn overlaps(player: Point, other: Point) -> (r: bool)
    ensures
        r == covers(player, other),
{
    let px = player.x as i128;
    let py = player.y as i128;
    let s = SQUARE_SIZE as i128;
    px - s <= other.x as i128 && other.x as i128 <= px + s && py - s <= other.y as i128
        && other.y as i128 <= py + s
}

/// One axis of a bounce: a coordinate beyond `[-half, half]` is clamped to
/// the edge it crossed and the velocity on that axis is inverted.
pub open spec fn bounce_axis(p: int, v: int, half: int) -> (int, int) {
    if p < -half {
        (-half, -v)
    } else if p > half {
        (half, -v)
    } else {
        (p, v)
    }
}

/// An enemy: a position and a velocity per tick.
#[derive(Clone, Copy, Debug, PartialEq, Eq, Structural)]
pub struct Enemy {
    pub pos: Point,
    pub vel: Point,
}

impl Enemy {
    /// The position stays where a window can reach, and the speed on each
    /// axis is at most `ENEMY_SPEED`.
    pub open spec fn wf(self) -> bool {
        &&& -MAX_EXTENT <= self.pos.x <= MAX_EXTENT
        &&& -MAX_EXTENT <= self.pos.y <= MAX_EXTENT
        &&& -ENEMY_SPEED <= self.vel.x <= ENEMY_SPEED
        &&& -ENEMY_SPEED <= self.vel.y <= ENEMY_SPEED
    }

    /// The enemy after one tick inside `b`: it moves by its velocity, then
    /// bounces on each axis independently.
    pub open spec fn stepped(self, b: Bounds) -> Enemy {
        let x = bounce_axis(self.pos.x + self.vel.x, self.vel.x as int, b.half_w as int);
        let y = bounce_axis(self.pos.y + self.vel.y, self.vel.y as int, b.half_h as int);
        Enemy {
            pos: Point { x: x.0 as i64, y: y.0 as i64 },
            vel: Point { x: x.1 as i64, y: y.1 as i64 },
        }
    }

    pub fn new(pos: Point, vel: Point) -> (e: Enemy)
        ensures
            e.pos == pos,
            e.vel == vel,
    {
        Enemy { pos, vel }
    }

    /// Moves the enemy by its velocity and bounces it off the edges of `b`.
    pub fn step(&mut self, b: Bounds)
        requires
            old(self).wf(),
            b.wf(),
        ensures
            *final(self) == old(self).stepped(b),
            final(self).wf(),
            b.holds(final(self).pos),
    {
        apply_velocity(&mut self.pos, self.vel);
        let (x, vx) = bounce(self.pos.x, self.vel.x, b.half_w);
        let (y, vy) = bounce(self.pos.y, self.vel.y, b.half_h);
        self.pos = Point { x, y };
        self.vel = Point { x: vx, y: vy };
    }
}

/// Whether the coordinate `p` lies beyond `[-half, half]`.
pub open spec fn crosses(p: int, half: int) -> bool {
    p < -half || p > half
}

/// After a step, an enemy lies inside the play area, whatever its position
/// and velocity before.
pub proof fn lemma_step_stays_inside(e: Enemy, b: Bounds)
    requires
        e.wf(),
        b.wf(),
    ensures
        b.holds(e.stepped(b).pos),
        e.stepped(b).wf(),
{
}

/// A step inverts the velocity on exactly the axes on which the moved
/// position crossed the boundary, and keeps it on the others: both
/// components change only when both axes are crossed at once.
pub proof fn lemma_bounce_inverts_crossed_axes(e: Enemy, b: Bounds)
    requires
        e.wf(),
        b.wf(),
    ensures
        e.stepped(b).vel.x == if crosses(e.pos.x + e.vel.x, b.half_w as int) {
            -e.vel.x
        } else {
            e.vel.x as int
        },
        e.stepped(b).vel.y == if crosses(e.pos.y + e.vel.y, b.half_h as int) {
            -e.vel.y
        } else {
            e.vel.y as int
        },
        e.vel.x != 0 && e.vel.y != 0 ==> ((e.stepped(b).vel.x != e.vel.x && e.stepped(b).vel.y
            != e.vel.y) <==> (crosses(e.pos.x + e.vel.x, b.half_w as int) && crosses(
            e.pos.y + e.vel.y,
            b.half_h as int,
        ))),
{
}

/// Adds `v` to `pos`.
pub fn apply_velocity(pos: &mut Point, v: Point)
    requires
        i64::MIN <= old(pos).x + v.x <= i64::MAX,
        i64::MIN <= old(pos).y + v.y <= i64::MAX,
    ensures
        final(pos).x == old(pos).x + v.x,
        final(pos).y == old(pos).y + v.y,
{
    pos.x = pos.x + v.x;
    pos.y = pos.y + v.y;
}

/// Clamps `p` to `[-half, half]`, inverting `v` exactly when `p` was outside.
pub fn bounce(p: i64, v: i64, half: i64) -> (r: (i64, i64))
    requires
        0 <= half,
        v > i64::MIN,
    ensures
        r.0 == bounce_axis(p as int, v as int, half as int).0,
        r.1 == bounce_axis(p as int, v as int, half as int).1,
        -half <= r.0 <= half,
        (p < -half || p > half) ==> r.1 == -v,
        !(p < -half || p > half) ==> r.1 == v,
{
    if p < -half {
        (-half, -v)
    } else if p > half {
        (half, -v)
    } else {
        (p, v)
    }
}

} // verus!
