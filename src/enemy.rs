//! Enemies: spawning from random draws, straight-line movement, reflection
//! at the window edges and confinement.
use vstd::prelude::*;
use crate::geometry::{
    Vec2i, Bounds, DIRECTION_ONE, HALF_PLAYER_SIZE, in_coord_range, valid_window, bounds_spec,
    confine_spec, translate_spec, unit_bounded, window_bounds, confine, translate,
};

verus! {

/// Enemy speed in world units per second (micro-units per microsecond).
pub const ENEMY_SPEED: i64 = 200;

/// Edge length of the enemy sprite, in micro-units (32 world units).
pub const ENEMY_SPRITE_SIZE: i64 = 32_000_000;

/// How many enemies are spawned at startup.
pub const NUMBER_OF_ENEMIES: usize = 6;

/// Random draws used for one enemy: two for its position, two for its
/// direction.
pub const DRAWS_PER_ENEMY: usize = 4;

/// An enemy's heading, a unit vector in `DIRECTION_ONE` units.
#[derive(Clone, Copy, Debug, PartialEq, Eq, Structural)]
pub struct Enemy {
    pub direction: Vec2i,
}

/// One enemy with the place where it stands.
#[derive(Clone, Copy, Debug, PartialEq, Eq, Structural)]
pub struct EnemyEntity {
    pub position: Vec2i,
    pub enemy: Enemy,
}

/// The direction of a well-formed enemy has components within one.
pub open spec fn enemy_wf(e: EnemyEntity) -> bool {
    unit_bounded(e.enemy.direction)
}

pub open spec fn all_wf(s: Seq<EnemyEntity>) -> bool {
    forall|i: int| 0 <= i < s.len() ==> #[trigger] enemy_wf(s[i])
}

pub open spec fn all_movable(s: Seq<EnemyEntity>) -> bool {
    forall|i: int| 0 <= i < s.len() ==> enemy_wf(#[trigger] s[i]) && in_coord_range(s[i].position)
}

/// `r` is `c * DIRECTION_ONE / sqrt(s)` rounded down: the largest `r` with
/// `r * r * s <= c * c * DIRECTION_ONE * DIRECTION_ONE`.
pub open spec fn is_normalized_component(r: int, c: int, s: int) -> bool {
    r >= 0 && r * r * s <= c * c * DIRECTION_ONE * DIRECTION_ONE && c * c * DIRECTION_ONE
        * DIRECTION_ONE < (r + 1) * (r + 1) * s
}

/// The squared length of a direction is one, within the fixed-point resolution.
pub open spec fn near_unit(d: Vec2i) -> bool {
    DIRECTION_ONE * DIRECTION_ONE - 5 * DIRECTION_ONE <= d.x * d.x + d.y * d.y
        <= DIRECTION_ONE * DIRECTION_ONE
}

/// The coordinate that a draw `r` picks in `[0, extent)`: `r / 2^32` of the
/// extent, rounded down.
pub open spec fn draw_coordinate(r: int, extent: int) -> int {
    (r * extent) / 0x1_0000_0000
}

/// What a direction draw pair gives: the pair `(rdx, rdy)` normalized, each
/// component against the pair's length, or zero when both draws are zero.
pub open spec fn spawned_direction_ok(d: Vec2i, rdx: int, rdy: int) -> bool {
    let s = rdx * rdx + rdy * rdy;
    if rdx == 0 && rdy == 0 {
        d.x == 0 && d.y == 0
    } else {
        is_normalized_component(d.x as int, rdx, s) && is_normalized_component(d.y as int, rdy, s)
    }
}

/// What an enemy spawned from four draws is.
pub open spec fn spawned_ok(e: EnemyEntity, width: int, height: int, draws: Seq<u32>) -> bool {
    &&& e.position.x == draw_coordinate(draws[0] as int, width)
    &&& e.position.y == draw_coordinate(draws[1] as int, height)
    &&& spawned_direction_ok(e.enemy.direction, draws[2] as int, draws[3] as int)
}

/// `enemies` is the batch that `draws` give, four draws per enemy in order.
pub open spec fn spawned_from(enemies: Seq<EnemyEntity>, width: int, height: int, draws: Seq<u32>) -> bool {
    &&& enemies.len() == draws.len() / 4
    &&& forall|i: int|
        0 <= i < enemies.len() ==> spawned_ok(
            #[trigger] enemies[i],
            width,
            height,
            draws.subrange(4 * i, 4 * i + 4),
        )
}

/// `true` where the coordinate lies outside `[lo, hi]`.
pub open spec fn outside(v: int, lo: int, hi: int) -> bool {
    v < lo || v > hi
}

/// The enemy after a direction update: each direction component is negated
/// where the position lies outside the rectangle on that axis.
pub open spec fn reflect_spec(e: EnemyEntity, b: Bounds) -> EnemyEntity {
    let d = e.enemy.direction;
    EnemyEntity {
        position: e.position,
        enemy: Enemy {
            direction: Vec2i {
                x: if outside(e.position.x as int, b.x_min as int, b.x_max as int) {
                    (-d.x) as i64
                } else {
                    d.x
                },
                y: if outside(e.position.y as int, b.y_min as int, b.y_max as int) {
                    (-d.y) as i64
                } else {
                    d.y
                },
            },
        },
    }
}

pub open spec fn move_spec(e: EnemyEntity, dt_us: int) -> EnemyEntity {
    EnemyEntity {
        position: translate_spec(e.position, e.enemy.direction, ENEMY_SPEED as int, dt_us),
        enemy: e.enemy,
    }
}

pub open spec fn confine_enemy_spec(e: EnemyEntity, b: Bounds) -> EnemyEntity {
    EnemyEntity { position: confine_spec(e.position, b), enemy: e.enemy }
}

/// The confinement rectangle that enemies use: the window inset by half the
/// player sprite.
pub open spec fn enemy_bounds(width: int, height: int) -> Bounds {
    bounds_spec(width, height, HALF_PLAYER_SIZE as int)
}

fn draw_to_coordinate(r: u32, extent: i64) -> (c: i64)
    requires
        0 <= extent <= 4_503_599_627_370_496,
    ensures
        c == draw_coordinate(r as int, extent as int),
        extent > 0 ==> 0 <= c < extent,
        extent == 0 ==> c == 0,
{
    assert((r as int) * (extent as int) <= 0x1_0000_0000 * 4_503_599_627_370_496) by (nonlinear_arith)
        requires 0 <= r < 0x1_0000_0000, 0 <= extent <= 4_503_599_627_370_496;
    let p: u128 = (r as u128) * (extent as u128);
    let q: u128 = p / 0x1_0000_0000;
    proof {
        assert(p < 0x1_0000_0000 * extent || extent == 0) by (nonlinear_arith)
            requires p == r * extent, 0 <= r < 0x1_0000_0000, extent >= 0;
        assert(q < extent || extent == 0) by (nonlinear_arith)
            requires q == p / 0x1_0000_0000, p < 0x1_0000_0000 * extent || extent == 0,
                extent >= 0;
        assert(p == 0 || extent != 0) by (nonlinear_arith)
            requires p == r * extent;
    }
    q as i64
}

/// The largest `r` in `[0, DIRECTION_ONE]` with `r * r * s <= c * c * ONE * ONE`.
fn normalized_component(c: u128, s: u128) -> (r: i64)
    requires
        c * c <= s,
        0 < s < 0x2_0000_0000_0000_0000,
    ensures
        is_normalized_component(r as int, c as int, s as int),
        0 <= r <= DIRECTION_ONE,
{
    assert(c * c * 1_000_000_000_000_000_000 <= 0x2_0000_0000_0000_0000 * 1_000_000_000_000_000_000) by (nonlinear_arith)
        requires c * c <= s, s < 0x2_0000_0000_0000_0000;
    let target: u128 = c * c * 1_000_000_000_000_000_000;
    let mut lo: u128 = 0;
    let mut hi: u128 = 1_000_000_001;
    proof {
        assert(hi * hi * s > target) by (nonlinear_arith)
            requires target == c * c * 1_000_000_000_000_000_000, c * c <= s, s > 0, hi == 1_000_000_001;
        assert(lo * lo * s == 0) by (nonlinear_arith)
            requires lo == 0;
    }
    while hi - lo > 1
        invariant
            0 <= lo < hi <= 1_000_000_001,
            lo * lo * s <= target,
            hi * hi * s > target,
            0 < s < 0x2_0000_0000_0000_0000,
            target == c * c * 1_000_000_000_000_000_000,
        decreases hi - lo,
    {
        let mid: u128 = lo + (hi - lo) / 2;
        assert(mid * mid <= 1_000_000_001 * 1_000_000_001) by (nonlinear_arith)
            requires mid <= 1_000_000_001, 0 <= mid;
        assert(mid * mid * s <= 1_000_000_001 * 1_000_000_001 * 0x2_0000_0000_0000_0000) by (nonlinear_arith)
            requires mid * mid <= 1_000_000_001 * 1_000_000_001, 0 <= mid * mid, 0 < s < 0x2_0000_0000_0000_0000;
        if mid * mid * s <= target {
            lo = mid;
        } else {
            hi = mid;
        }
    }
    assert(hi == lo + 1);
    lo as i64
}

/// Unit-length direction from two direction draws, or zero when both are
/// zero.
fn direction_from_draws(rdx: u32, rdy: u32) -> (d: Vec2i)
    ensures
        spawned_direction_ok(d, rdx as int, rdy as int),
        unit_bounded(d),
{
    let a: u128 = rdx as u128;
    let b: u128 = rdy as u128;
    assert(a * a < 0x1_0000_0000 * 0x1_0000_0000) by (nonlinear_arith)
        requires a < 0x1_0000_0000;
    assert(b * b < 0x1_0000_0000 * 0x1_0000_0000) by (nonlinear_arith)
        requires b < 0x1_0000_0000;
    assert(a * a + b * b == 0 <==> (a == 0 && b == 0)) by (nonlinear_arith);
    let s: u128 = a * a + b * b;
    if s == 0 {
        Vec2i { x: 0, y: 0 }
    } else {
        let x = normalized_component(a, s);
        let y = normalized_component(b, s);
        Vec2i { x, y }
    }
}

/// One enemy from four draws: horizontal and vertical position, then the
/// two direction components.
pub fn spawn_enemy(width: i64, height: i64, rx: u32, ry: u32, rdx: u32, rdy: u32) -> (e: EnemyEntity)
    requires
        valid_window(width, height),
    ensures
        spawned_ok(e, width as int, height as int, seq![rx, ry, rdx, rdy]),
        enemy_wf(e),
        width > 0 ==> 0 <= e.position.x < width,
        height > 0 ==> 0 <= e.position.y < height,
{
    let x = draw_to_coordinate(rx, width);
    let y = draw_to_coordinate(ry, height);
    let direction = direction_from_draws(rdx, rdy);
    EnemyEntity { position: Vec2i { x, y }, enemy: Enemy { direction } }
}

/// The enemies that `draws` give, four draws each; a trailing partial group
/// is not used.
pub fn spawn_enemies_from(width: i64, height: i64, draws: &Vec<u32>) -> (r: Vec<EnemyEntity>)
    requires
        valid_window(width, height),
    ensures
        r@.len() == draws@.len() / 4,
        spawned_from(r@, width as int, height as int, draws@),
        all_wf(r@),
        forall|i: int|
            0 <= i < r@.len() ==> spawned_ok(
                #[trigger] r@[i],
                width as int,
                height as int,
                draws@.subrange(4 * i, 4 * i + 4),
            ),
        forall|i: int|
            0 <= i < r@.len() ==> (width > 0 ==> 0 <= (#[trigger] r@[i]).position.x < width) && (
            height > 0 ==> 0 <= r@[i].position.y < height),
{
    let len: usize = draws.len();
    let n: usize = len / DRAWS_PER_ENEMY;
    let mut r: Vec<EnemyEntity> = Vec::new();
    let mut i: usize = 0;
    while i < n
        invariant
            len == draws@.len(),
            n == len / 4,
            i <= n,
            r@.len() == i,
            valid_window(width, height),
            all_wf(r@),
            forall|j: int|
                0 <= j < i ==> spawned_ok(
                    #[trigger] r@[j],
                    width as int,
                    height as int,
                    draws@.subrange(4 * j, 4 * j + 4),
                ),
            forall|j: int|
                0 <= j < i ==> (width > 0 ==> 0 <= (#[trigger] r@[j]).position.x < width) && (
                height > 0 ==> 0 <= r@[j].position.y < height),
        decreases n - i,
    {
        assert(i * 4 + 4 <= draws@.len()) by (nonlinear_arith)
            requires i < n, n == draws@.len() / 4;
        let base: usize = i * 4;
        let e = spawn_enemy(
            width,
            height,
            draws[base],
            draws[base + 1],
            draws[base + 2],
            draws[base + 3],
        );
        proof {
            let g = draws@.subrange(4 * i as int, 4 * i as int + 4);
            assert(g =~= seq![draws@[base as int], draws@[base + 1], draws@[base + 2], draws@[base + 3]]);
        }
        r.push(e);
        i = i + 1;
    }
    r
}

/// Relies on rand::random, called here for `u32` draws from the
/// thread-local generator. Any value may come back.
pub assume_specification<T>[ rand::random::<T> ]() -> (r: T)
    where
        rand::distributions::Standard: rand::distributions::Distribution<T>,
;

/// Spawns `NUMBER_OF_ENEMIES` enemies at random places in the window, each
/// heading in a random direction. The draws come from rand's thread-local
/// generator, which panics only where the operating system's entropy source
/// fails (when the generator is first seeded, on a failed reseed, or when
/// its fork handler cannot be registered); no input can cause that.
pub fn spawn_enemies(width: i64, height: i64) -> (r: Vec<EnemyEntity>)
    requires
        valid_window(width, height),
    ensures
        r@.len() == NUMBER_OF_ENEMIES,
        exists|d: Seq<u32>|
            d.len() == NUMBER_OF_ENEMIES * DRAWS_PER_ENEMY && #[trigger] spawned_from(
                r@,
                width as int,
                height as int,
                d,
            ),
        all_wf(r@),
        forall|i: int|
            0 <= i < r@.len() ==> (width > 0 ==> 0 <= (#[trigger] r@[i]).position.x < width) && (
            height > 0 ==> 0 <= r@[i].position.y < height),
        forall|i: int|
            0 <= i < r@.len() ==> {
                let d = (#[trigger] r@[i]).enemy.direction;
                (d.x == 0 && d.y == 0) || near_unit(d)
            },
{
    let mut draws: Vec<u32> = Vec::new();
    let mut k: usize = 0;
    while k < NUMBER_OF_ENEMIES * DRAWS_PER_ENEMY
        invariant
            k <= NUMBER_OF_ENEMIES * DRAWS_PER_ENEMY,
            draws@.len() == k,
        decreases NUMBER_OF_ENEMIES * DRAWS_PER_ENEMY - k,
    {
        let v: u32 = rand::random::<u32>();
        draws.push(v);
        k = k + 1;
    }
    let r = spawn_enemies_from(width, height, &draws);
    assert forall|i: int| 0 <= i < r@.len() implies {
        let d = (#[trigger] r@[i]).enemy.direction;
        (d.x == 0 && d.y == 0) || near_unit(d)
    } by {
        let g = draws@.subrange(4 * i, 4 * i + 4);
        assert(spawned_ok(r@[i], width as int, height as int, g));
        let rdx = g[2] as int;
        let rdy = g[3] as int;
        if rdx != 0 || rdy != 0 {
            lemma_spawned_direction_near_unit(r@[i].enemy.direction, rdx, rdy);
        }
    }
    assert(spawned_from(r@, width as int, height as int, draws@));
    r
}

/// Moves every enemy along its direction at `ENEMY_SPEED` for `dt_us`
/// microseconds.
pub fn enemy_movement(enemies: &mut Vec<EnemyEntity>, dt_us: u32)
    requires
        all_movable(old(enemies)@),
    ensures
        final(enemies)@.len() == old(enemies)@.len(),
        forall|i: int|
            0 <= i < old(enemies)@.len() ==> #[trigger] final(enemies)@[i] == move_spec(
                old(enemies)@[i],
                dt_us as int,
            ),
{
    let n: usize = enemies.len();
    let mut i: usize = 0;
    while i < n
        invariant
            n == enemies@.len(),
            enemies@.len() == old(enemies)@.len(),
            i <= n,
            all_movable(old(enemies)@),
            forall|j: int| i <= j < n ==> #[trigger] enemies@[j] == old(enemies)@[j],
            forall|j: int|
                0 <= j < i ==> #[trigger] enemies@[j] == move_spec(old(enemies)@[j], dt_us as int),
        decreases n - i,
    {
        let e: EnemyEntity = enemies[i];
        assert(enemy_wf(old(enemies)@[i as int]));
        let position = translate(e.position, e.enemy.direction, ENEMY_SPEED, dt_us);
        enemies.set(i, EnemyEntity { position, enemy: e.enemy });
        i = i + 1;
    }
}

/// Negates each direction component of every enemy that lies outside the
/// window rectangle on that axis. The rectangle is the window inset by half
/// the player sprite.
pub fn update_enemy_direction(enemies: &mut Vec<EnemyEntity>, width: i64, height: i64)
    requires
        valid_window(width, height),
        all_wf(old(enemies)@),
    ensures
        final(enemies)@.len() == old(enemies)@.len(),
        all_wf(final(enemies)@),
        forall|i: int|
            0 <= i < old(enemies)@.len() ==> #[trigger] final(enemies)@[i] == reflect_spec(
                old(enemies)@[i],
                enemy_bounds(width as int, height as int),
            ),
{
    let b: Bounds = window_bounds(width, height, HALF_PLAYER_SIZE);
    let n: usize = enemies.len();
    let mut i: usize = 0;
    while i < n
        invariant
            n == enemies@.len(),
            enemies@.len() == old(enemies)@.len(),
            i <= n,
            b == enemy_bounds(width as int, height as int),
            all_wf(old(enemies)@),
            forall|j: int| i <= j < n ==> #[trigger] enemies@[j] == old(enemies)@[j],
            forall|j: int| 0 <= j < i ==> #[trigger] enemies@[j] == reflect_spec(old(enemies)@[j], b),
            forall|j: int| 0 <= j < i ==> #[trigger] enemy_wf(enemies@[j]),
        decreases n - i,
    {
        let e: EnemyEntity = enemies[i];
        assert(enemy_wf(old(enemies)@[i as int]));
        let mut direction = e.enemy.direction;
        if e.position.x < b.x_min || e.position.x > b.x_max {
            direction.x = -direction.x;
        }
        if e.position.y < b.y_min || e.position.y > b.y_max {
            direction.y = -direction.y;
        }
        enemies.set(i, EnemyEntity { position: e.position, enemy: Enemy { direction } });
        i = i + 1;
    }
}

/// Clamps every enemy into the window rectangle, inset by half the player
/// sprite, each axis on its own.
pub fn confine_enemy(enemies: &mut Vec<EnemyEntity>, width: i64, height: i64)
    requires
        valid_window(width, height),
    ensures
        final(enemies)@.len() == old(enemies)@.len(),
        forall|i: int|
            0 <= i < old(enemies)@.len() ==> #[trigger] final(enemies)@[i] == confine_enemy_spec(
                old(enemies)@[i],
                enemy_bounds(width as int, height as int),
            ),
{
    let b: Bounds = window_bounds(width, height, HALF_PLAYER_SIZE);
    let n: usize = enemies.len();
    let mut i: usize = 0;
    while i < n
        invariant
            n == enemies@.len(),
            enemies@.len() == old(enemies)@.len(),
            i <= n,
            b == enemy_bounds(width as int, height as int),
            forall|j: int| i <= j < n ==> #[trigger] enemies@[j] == old(enemies)@[j],
            forall|j: int|
                0 <= j < i ==> #[trigger] enemies@[j] == confine_enemy_spec(old(enemies)@[j], b),
        decreases n - i,
    {
        let e: EnemyEntity = enemies[i];
        let position = confine(e.position, b);
        enemies.set(i, EnemyEntity { position, enemy: e.enemy });
        i = i + 1;
    }
}

/// An enemy past the low edge of an axis and heading toward it turns around
/// on that axis: one update negates that component once, so it now points
/// back into the window.
pub proof fn lemma_reflect_turns_back(e: EnemyEntity, b: Bounds)
    requires
        enemy_wf(e),
        e.position.x < b.x_min,
        e.enemy.direction.x < 0,
    ensures
        reflect_spec(e, b).enemy.direction.x == -e.enemy.direction.x,
        reflect_spec(e, b).enemy.direction.x > 0,
        reflect_spec(e, b).enemy.direction.y == e.enemy.direction.y || reflect_spec(
            e,
            b,
        ).enemy.direction.y == -e.enemy.direction.y,
        reflect_spec(e, b).position == e.position,
{
}

/// After confinement an enemy lies inside a window at least one player
/// sprite wide and high, wherever it stood before.
pub proof fn lemma_enemy_confined(e: EnemyEntity, width: i64, height: i64)
    requires
        valid_window(width, height),
        2 * HALF_PLAYER_SIZE <= width,
        2 * HALF_PLAYER_SIZE <= height,
    ensures
        ({
            let p = confine_enemy_spec(e, enemy_bounds(width as int, height as int)).position;
            HALF_PLAYER_SIZE <= p.x <= width - HALF_PLAYER_SIZE && HALF_PLAYER_SIZE <= p.y <= height
                - HALF_PLAYER_SIZE
        }),
{
    crate::geometry::lemma_window_confinement(e.position, width, height, HALF_PLAYER_SIZE);
}

/// Normalizing a non-zero pair of direction draws gives a vector of unit
/// length, within the fixed-point resolution.
pub proof fn lemma_spawned_direction_near_unit(d: Vec2i, rdx: int, rdy: int)
    requires
        0 <= rdx,
        0 <= rdy,
        rdx != 0 || rdy != 0,
        spawned_direction_ok(d, rdx, rdy),
    ensures
        near_unit(d),
{
    let a = rdx;
    let b = rdy;
    let s = a * a + b * b;
    let k = DIRECTION_ONE as int;
    let x = d.x as int;
    let y = d.y as int;
    assert(s > 0) by (nonlinear_arith)
        requires s == a * a + b * b, a != 0 || b != 0;
    let qx = x * x;
    let qy = y * y;
    let kk0 = k * k;
    assert(a * a * k * k == (a * a) * kk0 && b * b * k * k == (b * b) * kk0) by (nonlinear_arith)
        requires kk0 == k * k;
    assert(x * x * s == qx * s && y * y * s == qy * s) by (nonlinear_arith)
        requires qx == x * x, qy == y * y;
    assert(qx * s + qy * s == (qx + qy) * s) by (nonlinear_arith);
    assert((a * a) * kk0 + (b * b) * kk0 == s * kk0) by (nonlinear_arith)
        requires s == a * a + b * b;
    assert((qx + qy) * s <= s * kk0);
    assert(qx + qy <= kk0) by (nonlinear_arith)
        requires (qx + qy) * s <= s * kk0, s > 0;
    assert(x <= k) by (nonlinear_arith)
        requires x * x + y * y <= k * k, x >= 0, k > 0;
    assert(y <= k) by (nonlinear_arith)
        requires x * x + y * y <= k * k, y >= 0, k > 0;
    let px = (x + 1) * (x + 1);
    let py = (y + 1) * (y + 1);
    let kk = k * k;
    assert(a * a * k * k == (a * a) * kk && b * b * k * k == (b * b) * kk) by (nonlinear_arith)
        requires kk == k * k;
    assert(px * s + py * s == (px + py) * s) by (nonlinear_arith);
    assert((a * a) * kk + (b * b) * kk == s * kk) by (nonlinear_arith)
        requires s == a * a + b * b;
    assert(s * kk < (px + py) * s);
    assert(kk < px + py) by (nonlinear_arith)
        requires s * kk < (px + py) * s, s > 0;
    assert(x * x + y * y >= k * k - 5 * k) by (nonlinear_arith)
        requires
            (x + 1) * (x + 1) + (y + 1) * (y + 1) > k * k,
            0 <= x <= k,
            0 <= y <= k,
            k == 1_000_000_000,
    ;
}

} // verus!
