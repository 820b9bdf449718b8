//! Points, window bounds, per-axis clamping and time-scaled displacement.
use vstd::prelude::*;

verus! {

/// Fixed-point value that stands for a direction component of length one.
pub const DIRECTION_ONE: i64 = 1_000_000_000;

/// Position units (micro-units) in one world unit.
pub const POSITION_ONE: i64 = 1_000_000;

/// Largest magnitude of a coordinate, in micro-units, that movement accepts.
pub const COORD_LIMIT: i64 = 4_503_599_627_370_496;

/// Largest window side, in micro-units, that the bounds accept.
pub const WINDOW_LIMIT: i64 = 4_503_599_627_370_496;

/// Largest speed, in world units per second, that movement accepts.
pub const SPEED_LIMIT: i64 = 1024;

/// Bound on the displacement, in micro-units, along one axis in one step.
pub const STEP_LIMIT: i64 = 4_398_046_511_104;

/// Edge length of the player sprite, in micro-units (32 world units).
pub const PLAYER_SPRITE_SIZE: i64 = 32_000_000;

/// Half the player sprite; used as the inset of every confinement rectangle.
pub const HALF_PLAYER_SIZE: i64 = 16_000_000;

/// A point or a vector in the plane. As a position its coordinates are
/// micro-units (`POSITION_ONE` to a world unit); as a direction they are
/// fixed-point with `DIRECTION_ONE` standing for one.
#[derive(Clone, Copy, Debug, PartialEq, Eq, Structural)]
pub struct Vec2i {
    pub x: i64,
    pub y: i64,
}

/// The window rectangle inset by a half extent on every side.
#[derive(Clone, Copy, Debug, PartialEq, Eq, Structural)]
pub struct Bounds {
    pub x_min: i64,
    pub x_max: i64,
    pub y_min: i64,
    pub y_max: i64,
}

impl Vec2i {
    pub fn new(x: i64, y: i64) -> (r: Vec2i)
        ensures
            r.x == x,
            r.y == y,
    {
        Vec2i { x, y }
    }
}

pub open spec fn in_coord_range(p: Vec2i) -> bool {
    -COORD_LIMIT <= p.x <= COORD_LIMIT && -COORD_LIMIT <= p.y <= COORD_LIMIT
}

pub open spec fn valid_window(width: i64, height: i64) -> bool {
    0 <= width <= WINDOW_LIMIT && 0 <= height <= WINDOW_LIMIT
}

/// The confinement rectangle of a `width` by `height` window for a sprite
/// whose half extent is `half`.
pub open spec fn bounds_spec(width: int, height: int, half: int) -> Bounds {
    Bounds {
        x_min: half as i64,
        x_max: (width - half) as i64,
        y_min: half as i64,
        y_max: (height - half) as i64,
    }
}

/// The rectangle is non-empty on both axes.
pub open spec fn bounds_ordered(b: Bounds) -> bool {
    b.x_min <= b.x_max && b.y_min <= b.y_max
}

/// A point lies inside the rectangle, edges included.
pub open spec fn within(p: Vec2i, b: Bounds) -> bool {
    b.x_min <= p.x <= b.x_max && b.y_min <= p.y <= b.y_max
}

/// Below the low edge goes to the low edge, else above the high edge goes to
/// the high edge, else unchanged.
pub open spec fn clamp_spec(v: int, lo: int, hi: int) -> int {
    if v < lo {
        lo
    } else if v > hi {
        hi
    } else {
        v
    }
}

pub open spec fn confine_spec(p: Vec2i, b: Bounds) -> Vec2i {
    Vec2i {
        x: clamp_spec(p.x as int, b.x_min as int, b.x_max as int) as i64,
        y: clamp_spec(p.y as int, b.y_min as int, b.y_max as int) as i64,
    }
}

/// Displacement in micro-units along one axis: component `c` (in
/// `DIRECTION_ONE` units) times `speed` world units per second times `dt_us`
/// microseconds, truncated toward zero. A world unit per second moves one
/// micro-unit per microsecond, so no further scale enters.
pub open spec fn step_spec(c: int, speed: int, dt_us: int) -> int {
    if c >= 0 {
        (c * speed * dt_us) / (DIRECTION_ONE as int)
    } else {
        -(((-c) * speed * dt_us) / (DIRECTION_ONE as int))
    }
}

pub open spec fn translate_spec(p: Vec2i, dir: Vec2i, speed: int, dt_us: int) -> Vec2i {
    Vec2i {
        x: (p.x + step_spec(dir.x as int, speed, dt_us)) as i64,
        y: (p.y + step_spec(dir.y as int, speed, dt_us)) as i64,
    }
}

pub open spec fn unit_bounded(d: Vec2i) -> bool {
    -DIRECTION_ONE <= d.x <= DIRECTION_ONE && -DIRECTION_ONE <= d.y <= DIRECTION_ONE
}

/// The confinement rectangle of a window for a sprite of half extent `half`.
pub fn window_bounds(width: i64, height: i64, half: i64) -> (r: Bounds)
    requires
        valid_window(width, height),
        0 <= half <= WINDOW_LIMIT,
    ensures
        r == bounds_spec(width as int, height as int, half as int),
{
    Bounds { x_min: half, x_max: width - half, y_min: half, y_max: height - half }
}

/// Clamps one coordinate as `clamp_spec` says.
pub fn clamp_axis(v: i64, lo: i64, hi: i64) -> (r: i64)
    ensures
        r == clamp_spec(v as int, lo as int, hi as int),
{
    if v < lo {
        lo
    } else if v > hi {
        hi
    } else {
        v
    }
}

/// Clamps a point into the rectangle, each axis on its own.
pub fn confine(p: Vec2i, b: Bounds) -> (r: Vec2i)
    ensures
        r == confine_spec(p, b),
        bounds_ordered(b) ==> within(r, b),
        within(p, b) ==> r == p,
{
    Vec2i { x: clamp_axis(p.x, b.x_min, b.x_max), y: clamp_axis(p.y, b.y_min, b.y_max) }
}

/// Displacement along one axis, as `step_spec` says.
pub fn step_axis(c: i64, speed: i64, dt_us: u32) -> (r: i64)
    requires
        -DIRECTION_ONE <= c <= DIRECTION_ONE,
        0 <= speed <= SPEED_LIMIT,
    ensures
        r == step_spec(c as int, speed as int, dt_us as int),
        -STEP_LIMIT <= r <= STEP_LIMIT,
{
    let mag: u128 = if c >= 0 { c as u128 } else { (-c) as u128 };
    assert(mag * (speed as u128) <= 1_000_000_000 * 1024) by (nonlinear_arith)
        requires mag <= 1_000_000_000, speed <= 1024, 0 <= speed;
    let ms: u128 = mag * (speed as u128);
    assert(ms * (dt_us as u128) <= 1_000_000_000 * 1024 * 0x1_0000_0000) by (nonlinear_arith)
        requires ms <= 1_000_000_000 * 1024, dt_us <= 0xffff_ffff;
    let prod: u128 = ms * (dt_us as u128);
    let q: u128 = prod / 1_000_000_000;
    assert(prod <= 1_000_000_000 * ((speed as int) * (dt_us as int))) by (nonlinear_arith)
        requires
            prod == mag * speed * dt_us,
            mag <= 1_000_000_000,
            0 <= speed,
            0 <= dt_us,
    ;
    assert(0 <= (speed as int) * (dt_us as int) <= STEP_LIMIT) by (nonlinear_arith)
        requires 0 <= speed <= 1024, 0 <= dt_us <= 0xffff_ffff;
    assert(q <= (speed as int) * (dt_us as int));
    if c >= 0 {
        q as i64
    } else {
        -(q as i64)
    }
}

/// Moves `p` along `dir` at `speed` units per second for `dt_us` microseconds.
pub fn translate(p: Vec2i, dir: Vec2i, speed: i64, dt_us: u32) -> (r: Vec2i)
    requires
        in_coord_range(p),
        unit_bounded(dir),
        0 <= speed <= SPEED_LIMIT,
    ensures
        r == translate_spec(p, dir, speed as int, dt_us as int),
{
    let dx = step_axis(dir.x, speed, dt_us);
    let dy = step_axis(dir.y, speed, dt_us);
    Vec2i { x: p.x + dx, y: p.y + dy }
}

/// Confinement puts every point inside a non-empty rectangle, and leaves a
/// point that is already inside where it is.
pub proof fn lemma_confine_within(p: Vec2i, b: Bounds)
    requires
        bounds_ordered(b),
    ensures
        within(confine_spec(p, b), b),
        within(p, b) ==> confine_spec(p, b) == p,
{
}

/// For a window at least one sprite wide and high, confining any point to
/// the window's rectangle gives `half <= x <= width - half` and
/// `half <= y <= height - half`.
pub proof fn lemma_window_confinement(p: Vec2i, width: i64, height: i64, half: i64)
    requires
        valid_window(width, height),
        0 <= half,
        2 * half <= width,
        2 * half <= height,
    ensures
        ({
            let q = confine_spec(p, bounds_spec(width as int, height as int, half as int));
            half <= q.x <= width - half && half <= q.y <= height - half
        }),
{
    lemma_confine_within(p, bounds_spec(width as int, height as int, half as int));
}

} // verus!
