//! The keyboard-driven player: direction from the pressed keys, movement and
//! confinement.
use vstd::prelude::*;
use crate::geometry::{
    Vec2i, Bounds, DIRECTION_ONE, HALF_PLAYER_SIZE, in_coord_range, valid_window,
    bounds_spec, confine_spec, translate_spec, unit_bounded, window_bounds, confine, translate,
};

verus! {

/// Player speed in world units per second (micro-units per microsecond).
pub const PLAYER_SPEED: i64 = 500;

/// One component of a diagonal unit direction: `DIRECTION_ONE / sqrt(2)`,
/// rounded to the nearest integer.
pub const DIAGONAL_COMPONENT: i64 = 707_106_781;

/// Tag of the one player-controlled entity.
#[derive(Clone, Copy, Debug, PartialEq, Eq, Structural)]
pub struct Player;

/// Which of the four planar directions are held this frame (an arrow key or
/// its letter key counts the same).
#[derive(Clone, Copy, Debug, PartialEq, Eq, Structural)]
pub struct MoveKeys {
    pub left: bool,
    pub right: bool,
    pub up: bool,
    pub down: bool,
}

/// `1` for the positive key alone, `-1` for the negative key alone, else `0`.
pub open spec fn axis_spec(negative: bool, positive: bool) -> int {
    (if positive { 1int } else { 0int }) - (if negative { 1int } else { 0int })
}

/// The sum of the unit vectors of the pressed keys, normalized: zero when it
/// is zero, a unit vector along an axis, or a diagonal of unit length.
pub open spec fn direction_spec(keys: MoveKeys) -> Vec2i {
    let sx = axis_spec(keys.left, keys.right);
    let sy = axis_spec(keys.down, keys.up);
    if sx != 0 && sy != 0 {
        Vec2i { x: (sx * DIAGONAL_COMPONENT) as i64, y: (sy * DIAGONAL_COMPONENT) as i64 }
    } else {
        Vec2i { x: (sx * DIRECTION_ONE) as i64, y: (sy * DIRECTION_ONE) as i64 }
    }
}

pub open spec fn length_squared(d: Vec2i) -> int {
    d.x * d.x + d.y * d.y
}

/// The squared length is zero, or one within the fixed-point resolution.
pub open spec fn zero_or_unit(d: Vec2i) -> bool {
    length_squared(d) == 0 || (DIRECTION_ONE * DIRECTION_ONE - DIRECTION_ONE <= length_squared(d)
        <= DIRECTION_ONE * DIRECTION_ONE + DIRECTION_ONE)
}

fn axis(negative: bool, positive: bool) -> (r: i64)
    ensures
        r == axis_spec(negative, positive),
{
    let mut r: i64 = 0;
    if positive {
        r = r + 1;
    }
    if negative {
        r = r - 1;
    }
    r
}

/// The normalized movement direction for the pressed keys; opposing keys
/// cancel.
pub fn movement_direction(keys: MoveKeys) -> (r: Vec2i)
    ensures
        r == direction_spec(keys),
        zero_or_unit(r),
        unit_bounded(r),
{
    let sx = axis(keys.left, keys.right);
    let sy = axis(keys.down, keys.up);
    let scale: i64 = if sx != 0 && sy != 0 { DIAGONAL_COMPONENT } else { DIRECTION_ONE };
    proof {
        lemma_direction_zero_or_unit(keys);
    }
    Vec2i { x: sx * scale, y: sy * scale }
}

/// Every set of pressed keys gives a direction of length zero or one.
pub proof fn lemma_direction_zero_or_unit(keys: MoveKeys)
    ensures
        zero_or_unit(direction_spec(keys)),
{
    let sx = axis_spec(keys.left, keys.right);
    let sy = axis_spec(keys.down, keys.up);
    let d = direction_spec(keys);
    if sx != 0 && sy != 0 {
        assert(d.x * d.x == 707_106_781 * 707_106_781) by (nonlinear_arith)
            requires d.x == sx * 707_106_781, sx == 1 || sx == -1;
        assert(d.y * d.y == 707_106_781 * 707_106_781) by (nonlinear_arith)
            requires d.y == sy * 707_106_781, sy == 1 || sy == -1;
    } else {
        assert(d.x * d.x == sx * sx * 1_000_000_000 * 1_000_000_000) by (nonlinear_arith)
            requires d.x == sx * 1_000_000_000;
        assert(d.y * d.y == sy * sy * 1_000_000_000 * 1_000_000_000) by (nonlinear_arith)
            requires d.y == sy * 1_000_000_000;
        assert(sx * sx == 0 || sx * sx == 1) by (nonlinear_arith)
            requires sx == 0 || sx == 1 || sx == -1;
        assert(sy * sy == 0 || sy * sy == 1) by (nonlinear_arith)
            requires sy == 0 || sy == 1 || sy == -1;
        assert(sx == 0 || sy == 0);
        assert(sx * sx == 0 || sy * sy == 0);
    }
}

/// Where the player stands after one frame of `dt_us` microseconds.
pub open spec fn player_step_spec(p: Vec2i, keys: MoveKeys, dt_us: int) -> Vec2i {
    translate_spec(p, direction_spec(keys), PLAYER_SPEED as int, dt_us)
}

/// Moves the player along the direction of the pressed keys at
/// `PLAYER_SPEED` for `dt_us` microseconds.
pub fn player_movement(position: &mut Vec2i, keys: MoveKeys, dt_us: u32)
    requires
        in_coord_range(*old(position)),
    ensures
        *final(position) == player_step_spec(*old(position), keys, dt_us as int),
{
    let dir = movement_direction(keys);
    *position = translate(*position, dir, PLAYER_SPEED, dt_us);
}

/// Clamps the player into the window, inset by half the player sprite.
pub fn confine_player(position: &mut Vec2i, width: i64, height: i64)
    requires
        valid_window(width, height),
    ensures
        *final(position) == confine_spec(
            *old(position),
            bounds_spec(width as int, height as int, HALF_PLAYER_SIZE as int),
        ),
{
    let b: Bounds = window_bounds(width, height, HALF_PLAYER_SIZE);
    *position = confine(*position, b);
}

/// The centre of the window, where the camera looks and the player starts.
/// Sizes are in micro-units, so the halving is exact for every window whose
/// size is a whole number of world units.
pub open spec fn centre_spec(width: int, height: int) -> Vec2i {
    Vec2i { x: (width / 2) as i64, y: (height / 2) as i64 }
}

fn window_centre(width: i64, height: i64) -> (r: Vec2i)
    requires
        valid_window(width, height),
    ensures
        r == centre_spec(width as int, height as int),
{
    Vec2i { x: width / 2, y: height / 2 }
}

/// Where the camera is placed: the centre of the window.
pub fn spawn_camera(width: i64, height: i64) -> (r: Vec2i)
    requires
        valid_window(width, height),
    ensures
        r == centre_spec(width as int, height as int),
{
    window_centre(width, height)
}

/// Where the player is placed at startup: the centre of the window.
pub fn spawn_player(width: i64, height: i64) -> (r: Vec2i)
    requires
        valid_window(width, height),
    ensures
        r == centre_spec(width as int, height as int),
        in_coord_range(r),
{
    window_centre(width, height)
}

} // verus!
