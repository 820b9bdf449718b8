use puffy::enemy::{
    confine_enemy, enemy_movement, spawn_enemies, spawn_enemies_from, spawn_enemy,
    update_enemy_direction, Enemy, EnemyEntity, NUMBER_OF_ENEMIES,
};
use puffy::geometry::{Vec2i, DIRECTION_ONE, POSITION_ONE};
use puffy::player::confine_player;

fn u(world: i64) -> i64 {
    world * POSITION_ONE
}

fn entity(x: i64, y: i64, dx: i64, dy: i64) -> EnemyEntity {
    EnemyEntity { position: Vec2i::new(x, y), enemy: Enemy { direction: Vec2i::new(dx, dy) } }
}

fn length(d: Vec2i) -> f64 {
    ((d.x as f64).powi(2) + (d.y as f64).powi(2)).sqrt() / DIRECTION_ONE as f64
}

fn seeded_draws(seed: u64, n: usize) -> Vec<u32> {
    let mut state = seed;
    let mut out = Vec::new();
    for _ in 0..n {
        state = state.wrapping_mul(6364136223846793005).wrapping_add(1442695040888963407);
        out.push((state >> 32) as u32);
    }
    out
}

#[test]
fn seeded_batch_has_six_unit_enemies_in_window() {
    let draws = seeded_draws(42, 24);
    let batch = spawn_enemies_from(u(800), u(600), &draws);
    assert_eq!(batch.len(), 6);
    for (i, e) in batch.iter().enumerate() {
        assert!((length(e.enemy.direction) - 1.0).abs() <= 1e-6, "{:?}", e);
        assert!(0 <= e.position.x && e.position.x < u(800));
        assert!(0 <= e.position.y && e.position.y < u(600));
        assert_eq!(*e, spawn_enemy(u(800), u(600), draws[4 * i], draws[4 * i + 1], draws[4 * i + 2], draws[4 * i + 3]));
    }
}

#[test]
fn random_batch_has_six_enemies_in_window() {
    let batch = spawn_enemies(u(800), u(600));
    assert_eq!(batch.len(), NUMBER_OF_ENEMIES);
    for e in &batch {
        let l = length(e.enemy.direction);
        assert!(l == 0.0 || (l - 1.0).abs() <= 1e-6, "{:?}", e);
        assert!(0 <= e.position.x && e.position.x < u(800));
        assert!(0 <= e.position.y && e.position.y < u(600));
    }
}

#[test]
fn spawn_maps_draws_to_places_and_directions() {
    let e = spawn_enemy(u(800), u(600), 0x8000_0000, 0, 0xFFFF_F000, 0);
    assert_eq!(e.position, Vec2i::new(u(400), 0));
    assert_eq!(e.enemy.direction, Vec2i::new(DIRECTION_ONE, 0));
    let e = spawn_enemy(u(800), u(600), 0xFFFF_FFFF, 0xFFFF_FFFF, 0x1234_5000, 0x1234_5000);
    assert_eq!(e.position, Vec2i::new(799_999_999, 599_999_999));
    assert_eq!(e.enemy.direction, Vec2i::new(707_106_781, 707_106_781));
    assert!((length(e.enemy.direction) - 1.0).abs() <= 1e-6);
    let e = spawn_enemy(u(800), u(600), 0, 0, 3 << 12, 4 << 12);
    assert_eq!(e.enemy.direction, Vec2i::new(600_000_000, 800_000_000));
    let e = spawn_enemy(u(800), u(600), 0, 0, 3, 4);
    assert_eq!(e.enemy.direction, Vec2i::new(600_000_000, 800_000_000));
}

#[test]
fn small_direction_draws_keep_their_heading() {
    let e = spawn_enemy(u(800), u(600), 0, 0, 4095, 4095);
    assert_eq!(e.enemy.direction, Vec2i::new(707_106_781, 707_106_781));
    let e = spawn_enemy(u(800), u(600), 0, 0, 4095, 4096);
    assert_eq!(e.enemy.direction, Vec2i::new(707_020_448, 707_193_103));
    assert!((length(e.enemy.direction) - 1.0).abs() <= 1e-6);
    let e = spawn_enemy(u(800), u(600), 0, 0, 1, 0);
    assert_eq!(e.enemy.direction, Vec2i::new(DIRECTION_ONE, 0));
    let e = spawn_enemy(u(800), u(600), 0, 0, 1, 1);
    assert_eq!(e.enemy.direction, Vec2i::new(707_106_781, 707_106_781));
}

#[test]
fn half_draw_in_odd_window_is_exact() {
    let e = spawn_enemy(u(801), u(601), 0x8000_0000, 0x8000_0000, 1 << 12, 0);
    assert_eq!(e.position, Vec2i::new(400_500_000, 300_500_000));
}

#[test]
fn degenerate_direction_draw_gives_zero() {
    let e = spawn_enemy(u(800), u(600), 1, 2, 0, 0);
    assert_eq!(e.enemy.direction, Vec2i::new(0, 0));
}

#[test]
fn trailing_draws_are_unused() {
    let draws = seeded_draws(7, 11);
    assert_eq!(spawn_enemies_from(u(800), u(600), &draws).len(), 2);
    assert_eq!(spawn_enemies_from(u(800), u(600), &Vec::new()).len(), 0);
}

#[test]
fn zero_window_puts_enemies_at_origin() {
    let e = spawn_enemy(0, 0, 0xFFFF_FFFF, 0x1234_5678, 1 << 20, 1 << 20);
    assert_eq!(e.position, Vec2i::new(0, 0));
}

#[test]
fn enemy_at_right_edge_moves_reflects_and_is_clamped() {
    let mut enemies = vec![entity(u(790), u(300), DIRECTION_ONE, 0)];
    enemy_movement(&mut enemies, 100_000);
    assert_eq!(enemies[0].position, Vec2i::new(u(810), u(300)));
    update_enemy_direction(&mut enemies, u(800), u(600));
    assert_eq!(enemies[0].enemy.direction, Vec2i::new(-DIRECTION_ONE, 0));
    confine_enemy(&mut enemies, u(800), u(600));
    assert_eq!(enemies[0].position, Vec2i::new(u(784), u(300)));
    assert_eq!(enemies[0].enemy.direction, Vec2i::new(-DIRECTION_ONE, 0));
}

#[test]
fn enemy_past_left_edge_flips_once() {
    let mut enemies = vec![entity(u(10), u(300), -DIRECTION_ONE, 0)];
    update_enemy_direction(&mut enemies, u(800), u(600));
    assert_eq!(enemies[0].enemy.direction, Vec2i::new(DIRECTION_ONE, 0));
}

#[test]
fn reflection_happens_before_clamping() {
    // Outside on both axes: both components flip, position is untouched by
    // the update and only then clamped.
    let mut enemies = vec![
        entity(-u(5), u(700), -600_000_000, 800_000_000),
        entity(u(400), u(300), 600_000_000, 800_000_000),
    ];
    update_enemy_direction(&mut enemies, u(800), u(600));
    assert_eq!(enemies[0], entity(-u(5), u(700), 600_000_000, -800_000_000));
    assert_eq!(enemies[1], entity(u(400), u(300), 600_000_000, 800_000_000));
    confine_enemy(&mut enemies, u(800), u(600));
    assert_eq!(enemies[0], entity(u(16), u(584), 600_000_000, -800_000_000));
    assert_eq!(enemies[1], entity(u(400), u(300), 600_000_000, 800_000_000));
}

#[test]
fn enemy_on_edge_keeps_direction() {
    let mut enemies = vec![entity(u(784), u(16), DIRECTION_ONE, 0)];
    update_enemy_direction(&mut enemies, u(800), u(600));
    assert_eq!(enemies[0].enemy.direction, Vec2i::new(DIRECTION_ONE, 0));
}

#[test]
fn diagonal_enemy_moves_by_exact_components() {
    let mut enemies = vec![entity(u(100), u(100), 600_000_000, -800_000_000), entity(0, 0, 0, 0)];
    enemy_movement(&mut enemies, 1_000_000);
    assert_eq!(enemies[0].position, Vec2i::new(u(220), -u(60)));
    assert_eq!(enemies[1].position, Vec2i::new(0, 0));
    let mut enemies = vec![entity(0, 0, 600_000_000, 800_000_000)];
    enemy_movement(&mut enemies, 10_000);
    // 1.2 and 1.6 world units
    assert_eq!(enemies[0].position, Vec2i::new(1_200_000, 1_600_000));
}

#[test]
fn enemy_moves_at_high_frame_rates() {
    let mut enemies = vec![entity(u(400), u(300), DIRECTION_ONE, 0)];
    // one frame at 240 fps: 200 * 0.004167 = 0.8334 units
    enemy_movement(&mut enemies, 4_167);
    assert_eq!(enemies[0].position, Vec2i::new(u(400) + 833_400, u(300)));
}

#[test]
fn enemies_are_confined_with_the_player_half_extent() {
    // Enemy bounds use the player's half extent, not one of their own.
    for (x, y) in [(-u(50), u(700)), (u(900), -u(3)), (u(400), u(300)), (u(799), u(1))] {
        let mut enemies = vec![entity(x, y, DIRECTION_ONE, 0)];
        confine_enemy(&mut enemies, u(800), u(600));
        let mut p = Vec2i::new(x, y);
        confine_player(&mut p, u(800), u(600));
        assert_eq!(enemies[0].position, p);
    }
    let mut enemies = vec![entity(u(799), u(599), DIRECTION_ONE, 0)];
    confine_enemy(&mut enemies, u(800), u(600));
    assert_eq!(enemies[0].position, Vec2i::new(u(784), u(584)));
}
