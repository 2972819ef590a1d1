//! Fixed-point points and the geometric rules of the play volume.

use vstd::prelude::*;

verus! {

/// Position units per world unit.
pub const UNIT: i64 = 1_000_000;

/// Length of a unit direction, in direction units.
pub const DIR_SCALE: i64 = 1_000;

/// Projectile speed in world units per second.
pub const SPEED: i64 = 5;

/// Half extent of the play area along x and z, in position units.
pub const HALF_EXTENT: i64 = 25_000_000;

/// A hit needs the horizontal distances to stay below this bound.
pub const HIT_HALF_WIDTH: i64 = 1_000_000;

/// A hit needs the vertical distance to stay below this bound.
pub const HIT_HALF_HEIGHT: i64 = 3_000_000;

/// A point or a direction with three integer components.
#[derive(Clone, Copy, Debug, PartialEq, Eq, Structural)]
pub struct Vec3 {
    pub x: i64,
    pub y: i64,
    pub z: i64,
}

/// The integer `v` brought into the range of `i64`.
pub open spec fn clamp(v: int) -> int {
    if v < i64::MIN {
        i64::MIN as int
    } else if v > i64::MAX {
        i64::MAX as int
    } else {
        v
    }
}

/// Whether `d` can be a direction: no component longer than a unit direction.
pub open spec fn is_direction(d: Vec3) -> bool {
    &&& -DIR_SCALE <= d.x <= DIR_SCALE
    &&& -DIR_SCALE <= d.y <= DIR_SCALE
    &&& -DIR_SCALE <= d.z <= DIR_SCALE
}

/// The direction opposite to `d`.
pub open spec fn reversed(d: Vec3) -> Vec3 {
    Vec3 { x: (-d.x) as i64, y: (-d.y) as i64, z: (-d.z) as i64 }
}

/// How far a projectile travels along one axis in `dt_ms` milliseconds, in
/// position units, when its direction has component `c` on that axis.
pub open spec fn displacement(c: i64, dt_ms: u32) -> int {
    c * SPEED * dt_ms
}

/// The position reached from `p` after flying along `dir` for `dt_ms`
/// milliseconds. A coordinate that would leave the range of `i64` stays at
/// the end of that range.
pub open spec fn advanced(p: Vec3, dir: Vec3, dt_ms: u32) -> Vec3 {
    Vec3 {
        x: clamp(p.x + displacement(dir.x, dt_ms)) as i64,
        y: clamp(p.y + displacement(dir.y, dt_ms)) as i64,
        z: clamp(p.z + displacement(dir.z, dt_ms)) as i64,
    }
}

/// Whether `p` lies below the ground or beyond the play area.
pub open spec fn out_of_bounds(p: Vec3) -> bool {
    p.y < 0 || p.x > HALF_EXTENT || p.x < -HALF_EXTENT || p.z > HALF_EXTENT || p.z < -HALF_EXTENT
}

/// The distance between `a` and `b` on one axis.
pub open spec fn distance(a: i64, b: i64) -> int {
    if a >= b {
        a - b
    } else {
        b - a
    }
}

/// Whether a projectile at `p` is inside the hit box around a target at `t`.
pub open spec fn within_hit_box(p: Vec3, t: Vec3) -> bool {
    &&& distance(t.x, p.x) < HIT_HALF_WIDTH
    &&& distance(t.y, p.y) < HIT_HALF_HEIGHT
    &&& distance(t.z, p.z) < HIT_HALF_WIDTH
}

/// Adds `d` to `a`, stopping at the ends of the range of `i64`.
pub fn add_clamped(a: i64, d: i64) -> (r: i64)
    ensures
        r == clamp(a + d),
{
    if d >= 0 {
        if a > i64::MAX - d {
            i64::MAX
        } else {
            a + d
        }
    } else {
        if a < i64::MIN - d {
            i64::MIN
        } else {
            a + d
        }
    }
}

/// The displacement along one axis as a machine integer.
fn axis_displacement(c: i64, dt_ms: u32) -> (r: i64)
    requires
        -DIR_SCALE <= c <= DIR_SCALE,
    ensures
        r == displacement(c, dt_ms),
{
    let per_ms: i64 = c * SPEED;
    let dt: i64 = dt_ms as i64;
    assert(-5000 * dt <= per_ms * dt <= 5000 * dt) by (nonlinear_arith)
        requires
            -5000 <= per_ms <= 5000,
            0 <= dt,
    ;
    per_ms * dt
}

fn axis_distance(a: i64, b: i64) -> (r: i128)
    ensures
        r == distance(a, b),
{
    let wide_a: i128 = a as i128;
    let wide_b: i128 = b as i128;
    if a >= b {
        wide_a - wide_b
    } else {
        wide_b - wide_a
    }
}

impl Vec3 {
    /// The point with the given coordinates.
    pub fn new(x: i64, y: i64, z: i64) -> (r: Vec3)
        ensures
            r == (Vec3 { x, y, z }),
    {
        Vec3 { x, y, z }
    }

    /// Whether no component is longer than a unit direction.
    pub fn is_direction(&self) -> (r: bool)
        ensures
            r == is_direction(*self),
    {
        -DIR_SCALE <= self.x && self.x <= DIR_SCALE && -DIR_SCALE <= self.y && self.y <= DIR_SCALE
            && -DIR_SCALE <= self.z && self.z <= DIR_SCALE
    }

    /// The opposite direction.
    pub fn reversed(&self) -> (r: Vec3)
        requires
            is_direction(*self),
        ensures
            r == reversed(*self),
            is_direction(r),
            reversed(r) == *self,
    {
        Vec3 { x: -self.x, y: -self.y, z: -self.z }
    }

    /// The position after flying along `dir` for `dt_ms` milliseconds.
    pub fn advanced(&self, dir: &Vec3, dt_ms: u32) -> (r: Vec3)
        requires
            is_direction(*dir),
        ensures
            r == advanced(*self, *dir, dt_ms),
    {
        Vec3 {
            x: add_clamped(self.x, axis_displacement(dir.x, dt_ms)),
            y: add_clamped(self.y, axis_displacement(dir.y, dt_ms)),
            z: add_clamped(self.z, axis_displacement(dir.z, dt_ms)),
        }
    }

    /// Whether the point lies below the ground or beyond the play area.
    pub fn out_of_bounds(&self) -> (r: bool)
        ensures
            r == out_of_bounds(*self),
    {
        self.y < 0 || self.x > HALF_EXTENT || self.x < -HALF_EXTENT || self.z > HALF_EXTENT
            || self.z < -HALF_EXTENT
    }

    /// Whether a projectile at this point is inside the hit box around a
    /// target at `target`.
    pub fn within_hit_box(&self, target: &Vec3) -> (r: bool)
        ensures
            r == within_hit_box(*self, *target),
    {
        axis_distance(target.x, self.x) < 1_000_000 && axis_distance(target.y, self.y) < 3_000_000
            && axis_distance(target.z, self.z) < 1_000_000
    }
}

} // verus!
