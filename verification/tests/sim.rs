use falcon_core::components::{
    ExplosionTimer, ExplosionToSpawn, Falcon, FromEnemy, FromFalcon, Laser, Movable, PlayerState,
    Score, SpriteSize, Vec2i, Velocity, WinSize,
};
use falcon_core::game::{EnemyShip, ExplosionAnim, FalconShip, Game, LaserShot};
use falcon_core::components::Explosion;
use falcon_core::path::{Path, PathMaker};

fn test_win() -> WinSize {
    WinSize { w: 598_000, h: 676_000 }
}

fn plain_path(start: Vec2i, pivot: Vec2i, radius: Vec2i) -> Path {
    Path { start, pivot, radius, angle: 0, speed: 100_000 }
}

fn enemy_at(x: i64, y: i64) -> EnemyShip {
    EnemyShip {
        tag: falcon_core::components::Enemy,
        pos: Vec2i { x, y },
        // effective box 20x20 pixels once halved and scaled
        size: SpriteSize { w: 40_000, h: 40_000 },
        path: plain_path(
            Vec2i { x: -399_000, y: 438_000 },
            Vec2i { x: 0, y: 100_000 },
            Vec2i { x: 120_000, y: 80_000 },
        ),
    }
}

fn falcon_laser_at(x: i64, y: i64) -> LaserShot {
    LaserShot {
        tag: Laser,
        from_falcon: Some(FromFalcon),
        from_enemy: None,
        pos: Vec2i { x, y },
        // effective box 5x5 pixels once halved and scaled
        size: SpriteSize { w: 10_000, h: 10_000 },
        vel: Velocity { x: 0, y: 1_000 },
        movable: Movable { auto_despawn: true },
    }
}

fn enemy_laser_at(x: i64, y: i64) -> LaserShot {
    LaserShot {
        tag: Laser,
        from_falcon: None,
        from_enemy: Some(FromEnemy),
        pos: Vec2i { x, y },
        size: SpriteSize { w: 17_000, h: 55_000 },
        vel: Velocity { x: 0, y: -1_000 },
        movable: Movable { auto_despawn: true },
    }
}

fn falcon_at(x: i64, y: i64) -> FalconShip {
    FalconShip {
        tag: Falcon,
        pos: Vec2i { x, y },
        vel: Velocity { x: 0, y: 0 },
        size: SpriteSize { w: 200_000, h: 141_000 },
        movable: Movable { auto_despawn: false },
    }
}

fn base_game() -> Game {
    Game::new(test_win())
}

#[test]
fn p9_projectile_hits_enemy() {
    let mut g = base_game();
    g.lasers.push(falcon_laser_at(100_000, 100_000));
    g.enemies.push(enemy_at(105_000, 105_000));
    g.enemy_count = 1;
    g.falcon_hits_star_fighter_system();
    assert_eq!(g.enemies.len(), 0);
    assert_eq!(g.enemy_count, 0);
    assert_eq!(g.lasers.len(), 0);
    assert_eq!(g.score.0, 100);
    assert_eq!(g.explosion_requests.len(), 1);
    assert_eq!(g.explosion_requests[0].0, Vec2i { x: 105_000, y: 105_000 });
}

#[test]
fn miss_leaves_everything_alive() {
    let mut g = base_game();
    g.lasers.push(falcon_laser_at(100_000, 100_000));
    g.enemies.push(enemy_at(200_000, 100_000));
    g.enemy_count = 1;
    g.falcon_hits_star_fighter_system();
    assert_eq!(g.enemies.len(), 1);
    assert_eq!(g.enemy_count, 1);
    assert_eq!(g.lasers.len(), 1);
    assert_eq!(g.score.0, 0);
    assert_eq!(g.explosion_requests.len(), 0);
}

#[test]
fn exactly_once_two_lasers_one_enemy() {
    let mut g = base_game();
    g.lasers.push(falcon_laser_at(100_000, 100_000));
    g.lasers.push(falcon_laser_at(101_000, 101_000));
    g.enemies.push(enemy_at(105_000, 105_000));
    g.enemy_count = 1;
    g.falcon_hits_star_fighter_system();
    // kills bounded by min(enemies, lasers) = 1; one laser survives
    assert_eq!(g.enemies.len(), 0);
    assert_eq!(g.lasers.len(), 1);
    assert_eq!(g.score.0, 100);
    assert_eq!(g.explosion_requests.len(), 1);
}

#[test]
fn exactly_once_one_laser_two_enemies() {
    let mut g = base_game();
    g.lasers.push(falcon_laser_at(100_000, 100_000));
    g.enemies.push(enemy_at(102_000, 102_000));
    g.enemies.push(enemy_at(98_000, 98_000));
    g.enemy_count = 2;
    g.falcon_hits_star_fighter_system();
    // a projectile destroys only the first enemy it matches
    assert_eq!(g.enemies.len(), 1);
    assert_eq!(g.enemy_count, 1);
    assert_eq!(g.score.0, 100);
    // the surviving enemy is the second one
    assert_eq!(g.enemies[0].pos, Vec2i { x: 98_000, y: 98_000 });
}

#[test]
fn score_after_three_kills() {
    let mut g = base_game();
    for _ in 0..3 {
        g.lasers.push(falcon_laser_at(100_000, 100_000));
        g.enemies.push(enemy_at(100_000, 100_000));
        g.enemy_count = 1;
        g.falcon_hits_star_fighter_system();
    }
    assert_eq!(g.score.0, 300);
}

#[test]
fn score_saturates_at_counter_capacity() {
    let mut g = base_game();
    g.score = Score(u32::MAX - 50);
    g.lasers.push(falcon_laser_at(100_000, 100_000));
    g.enemies.push(enemy_at(100_000, 100_000));
    g.enemy_count = 1;
    g.falcon_hits_star_fighter_system();
    assert_eq!(g.score.0, u32::MAX);
}

#[test]
fn score_reset_on_player_hit() {
    let mut g = base_game();
    g.score = Score(12_345);
    g.falcon = Some(falcon_at(0, -290_000));
    g.player_state = PlayerState { on: true, last_shot: -1 };
    g.lasers.push(enemy_laser_at(10_000, -280_000));
    g.star_fighter_hits_falcon_system(5_000_000);
    assert_eq!(g.score.0, 0);
    assert!(g.falcon.is_none());
    assert!(!g.player_state.on);
    assert_eq!(g.player_state.last_shot, 5_000_000);
    assert_eq!(g.lasers.len(), 0);
    assert_eq!(g.explosion_requests.len(), 1);
}

#[test]
fn player_hit_ignores_own_lasers() {
    let mut g = base_game();
    g.falcon = Some(falcon_at(0, -290_000));
    g.player_state = PlayerState { on: true, last_shot: -1 };
    g.lasers.push(falcon_laser_at(0, -290_000));
    g.star_fighter_hits_falcon_system(5_000_000);
    assert!(g.falcon.is_some());
    assert!(g.player_state.on);
    assert_eq!(g.lasers.len(), 1);
}

#[test]
fn respawn_gating() {
    let mut g = base_game();
    g.player_state = PlayerState { on: false, last_shot: 1_000_000 };
    // strictly before the delay has elapsed: no respawn
    g.falcon_spawn_system(2_999_999);
    assert!(g.falcon.is_none());
    g.falcon_spawn_system(3_000_000);
    assert!(g.falcon.is_none());
    // strictly after: respawn
    g.falcon_spawn_system(3_000_001);
    assert!(g.falcon.is_some());
    assert!(g.player_state.on);
    assert_eq!(g.player_state.last_shot, -1);
}

#[test]
fn first_spawn_needs_no_delay() {
    let mut g = base_game();
    g.falcon_spawn_system(0);
    assert!(g.falcon.is_some());
    let f = g.falcon.unwrap();
    assert_eq!(f.pos, Vec2i { x: 0, y: -338_000 + 40_250 });
    // a second call while alive does nothing
    g.falcon_spawn_system(1);
    assert!(g.player_state.on);
}

#[test]
fn explosion_lifecycle_terminates() {
    let mut g = base_game();
    g.explosion_requests.push(ExplosionToSpawn(Vec2i { x: 1_000, y: 2_000 }));
    g.spawn_explosion_system();
    assert_eq!(g.explosion_requests.len(), 0);
    assert_eq!(g.explosions.len(), 1);
    assert_eq!(g.explosions[0].frame, 0);
    assert_eq!(g.explosions[0].pos, Vec2i { x: 1_000, y: 2_000 });
    // tick at exactly the frame interval: frame k after k ticks
    for k in 1..16u32 {
        g.explode_aircraft_system(50_000);
        assert_eq!(g.explosions.len(), 1, "gone too early at tick {}", k);
        assert_eq!(g.explosions[0].frame, k);
    }
    // the sixteenth tick destroys it: 16 * 0.05 s of simulated time
    g.explode_aircraft_system(50_000);
    assert_eq!(g.explosions.len(), 0);
}

#[test]
fn explosion_timer_shorter_ticks() {
    let mut g = base_game();
    g.explosions.push(ExplosionAnim {
        tag: Explosion,
        pos: Vec2i { x: 0, y: 0 },
        frame: 0,
        timer: ExplosionTimer::default(),
    });
    // half an interval: no frame advance yet
    g.explode_aircraft_system(25_000);
    assert_eq!(g.explosions[0].frame, 0);
    assert_eq!(g.explosions[0].timer.elapsed_us, 25_000);
    g.explode_aircraft_system(25_000);
    assert_eq!(g.explosions[0].frame, 1);
    assert_eq!(g.explosions[0].timer.elapsed_us, 0);
}

#[test]
fn path_zero_delta_keeps_position() {
    // the stated scenario: enemy at (0,500), radius (120,80), speed 100,
    // pivot (0,300); integrating with zero elapsed time changes nothing
    let mut path = plain_path(
        Vec2i { x: -399_000, y: 438_000 },
        Vec2i { x: 0, y: 300_000 },
        Vec2i { x: 120_000, y: 80_000 },
    );
    let pos = Vec2i { x: 0, y: 500_000 };
    let path_before = path;
    let r = falcon_core::path::path_step(pos, &mut path, 0);
    assert_eq!(r, pos);
    assert_eq!(path, path_before);
}

#[test]
fn path_converges_to_orbit() {
    let mut path = plain_path(
        Vec2i { x: -399_000, y: 438_000 },
        Vec2i { x: 0, y: 300_000 },
        Vec2i { x: 120_000, y: 80_000 },
    );
    let mut pos = Vec2i { x: 0, y: 500_000 };
    for _ in 0..2_000 {
        pos = falcon_core::path::path_step(pos, &mut path, 16_667);
    }
    // after a large cumulative elapsed time the enemy sits on the orbit
    // ellipse around the pivot (within a couple of pixels)
    assert!(pos.x.abs() <= 122_000, "x = {}", pos.x);
    assert!((pos.y - 300_000).abs() <= 82_000, "y = {}", pos.y);
    // and well inside nothing: it is near the boundary, not at the pivot
    let dx = pos.x as f64 / 120_000.0;
    let dy = (pos.y - 300_000) as f64 / 80_000.0;
    let e = dx * dx + dy * dy;
    assert!(e > 0.9 && e < 1.1, "ellipse residual {}", e);
}

#[test]
fn angle_frozen_while_far() {
    let mut path = plain_path(
        Vec2i { x: -399_000, y: 438_000 },
        Vec2i { x: 0, y: 300_000 },
        Vec2i { x: 120_000, y: 80_000 },
    );
    let mut pos = Vec2i { x: 0, y: 500_000 };
    // tiny ticks: the travel budget stays far smaller than the distance
    // to the target, so the angle must not advance
    for _ in 0..100 {
        pos = falcon_core::path::path_step(pos, &mut path, 1_000);
        assert_eq!(path.angle, 0);
    }
}

#[test]
fn enemy_fire_step_decides_on_roll() {
    let e = enemy_at(40_000, 250_000);
    let l = falcon_core::game::enemy_fire_step(&e, 0).unwrap();
    assert_eq!(l.pos, Vec2i { x: 40_000, y: 235_000 });
    assert!(l.from_enemy.is_some());
    assert!(l.from_falcon.is_none());
    assert_eq!(l.vel, Velocity { x: 0, y: -1_000 });
    assert!(l.movable.auto_despawn);
    assert!(falcon_core::game::enemy_fire_step(&e, 7).is_none());
    assert!(falcon_core::game::enemy_fire_step(&e, 59).is_none());
}

#[test]
fn population_bounded_under_spawns() {
    let mut g = base_game();
    for _ in 0..5 {
        g.star_fighter_spawn_system();
        assert!(g.enemy_count <= 2);
        assert_eq!(g.enemy_count as usize, g.enemies.len());
    }
    assert_eq!(g.enemy_count, 2);
    // killing one frees a slot
    let epos = g.enemies[0].pos;
    g.lasers.push(falcon_laser_at(epos.x, epos.y));
    g.falcon_hits_star_fighter_system();
    assert_eq!(g.enemy_count, 1);
    assert_eq!(g.enemies.len(), 1);
    g.star_fighter_spawn_system();
    assert_eq!(g.enemy_count, 2);
    assert_eq!(g.enemies.len(), 2);
}

#[test]
fn spawn_alternates_sides() {
    let mut g = base_game();
    g.star_fighter_spawn_system();
    g.star_fighter_spawn_system();
    assert!(g.enemies[0].path.start.x < 0);
    assert!(g.enemies[1].path.start.x > 0);
    // both appear outside the top edge, at the plan's start point
    for e in [&g.enemies[0], &g.enemies[1]] {
        assert_eq!(e.pos, e.path.start);
        assert_eq!(e.pos.y, 676_000 / 2 + 100_000);
        assert_eq!(e.path.angle, 0);
        assert!(e.path.radius.x >= 80_000 && e.path.radius.x <= 150_000);
        assert!(e.path.radius.y >= 50_000 && e.path.radius.y <= 100_000);
        // the orbit fits inside the screen with its margin
        assert!(e.path.pivot.x - e.path.radius.x >= -(598_000 / 2) + 20_000);
        assert!(e.path.pivot.x + e.path.radius.x <= 598_000 / 2 - 20_000);
        assert!(e.path.pivot.y >= 0);
        assert!(e.path.pivot.y + e.path.radius.y <= 676_000 / 2 - 20_000);
    }
}

#[test]
fn full_ticks_keep_invariants() {
    let mut g = base_game();
    let input = falcon_core::tick::TickInput {
        enemy_spawn_due: true,
        falcon_spawn_due: true,
        fire_just_pressed: true,
        left_pressed: true,
        right_pressed: false,
    };
    let mut now: i64 = 0;
    for _ in 0..300 {
        now += 16_667;
        g.tick(16_667, now, input);
        assert!(g.enemy_count <= 2);
        assert_eq!(g.enemy_count as usize, g.enemies.len());
        assert_eq!(g.player_state.on, g.falcon.is_some());
    }
}
