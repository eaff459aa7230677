use falcon_core::components::{
    Movable, PlayerState, SpriteSize, Vec2i, Velocity, WinSize, ExplosionTimer,
};
use falcon_core::game::Game;
use falcon_core::geom::{collide, isqrt};
use falcon_core::path::PathMaker;
use falcon_core::trig::{angle_add, cos_milli, sin_milli};

#[test]
fn trig_cardinal_values() {
    assert_eq!(sin_milli(0), 0);
    assert_eq!(cos_milli(0), 1000);
    assert_eq!(sin_milli(1571), 1000);
    assert_eq!(cos_milli(1571), 0);
    assert_eq!(sin_milli(3142), 0);
    assert_eq!(cos_milli(3142), -1000);
    assert_eq!(sin_milli(4712), -999);
    assert_eq!(cos_milli(4712), 0);
    // an eighth of a turn: close to sqrt(2)/2
    assert_eq!(sin_milli(785), 705);
    assert_eq!(cos_milli(785), 706);
}

#[test]
fn trig_stays_bounded() {
    let mut a: i64 = 0;
    while a < 6283 {
        let s = sin_milli(a);
        let c = cos_milli(a);
        assert!(-1000 <= s && s <= 1000);
        assert!(-1000 <= c && c <= 1000);
        a += 13;
    }
}

#[test]
fn angle_add_wraps() {
    assert_eq!(angle_add(6_000, 500), 217);
    assert_eq!(angle_add(100, -500), 5_883);
    assert_eq!(angle_add(100, 500), 600);
}

#[test]
fn isqrt_values() {
    assert_eq!(isqrt(0), 0);
    assert_eq!(isqrt(1), 1);
    assert_eq!(isqrt(15), 3);
    assert_eq!(isqrt(16), 4);
    assert_eq!(isqrt(1_000_000), 1_000);
    assert_eq!(isqrt(999_999), 999);
    assert_eq!(isqrt(u64::MAX), 4_294_967_295);
}

#[test]
fn collide_closed_boxes() {
    let a = Vec2i { x: 0, y: 0 };
    let sa = SpriteSize { w: 10_000, h: 10_000 };
    // effective half extent: 10_000 * 1000 / 2000 = 5_000
    let touching = Vec2i { x: 10_000, y: 0 };
    assert!(collide(a, sa, 1_000, touching, sa, 1_000));
    let apart = Vec2i { x: 10_001, y: 0 };
    assert!(!collide(a, sa, 1_000, apart, sa, 1_000));
    // scale halves the boxes
    assert!(!collide(a, sa, 500, touching, sa, 500));
}

#[test]
fn movable_moves_and_despawns() {
    let mut g = Game::new(WinSize { w: 598_000, h: 676_000 });
    g.lasers.push(falcon_core::game::LaserShot {
        tag: falcon_core::components::Laser,
        from_falcon: Some(falcon_core::components::FromFalcon),
        from_enemy: None,
        pos: Vec2i { x: 0, y: 0 },
        vel: Velocity { x: 0, y: 1_000 },
        size: SpriteSize { w: 9_000, h: 54_000 },
        movable: Movable { auto_despawn: true },
    });
    g.movable_system(16_667);
    // 1.0 unit * 500 px/s * 16.667 ms = 8.3335 px, truncated to milli-pixels
    assert_eq!(g.lasers[0].pos.y, 8_333);
    assert_eq!(g.lasers[0].pos.x, 0);
    // push it beyond the top margin: h/2 + 200 px
    g.lasers[0].pos.y = 538_000;
    g.movable_system(16_667);
    assert_eq!(g.lasers.len(), 0);
}

#[test]
fn player_is_never_auto_despawned() {
    let mut g = Game::new(WinSize { w: 598_000, h: 676_000 });
    g.falcon_spawn_system(0);
    let mut f = g.falcon.unwrap();
    f.pos = Vec2i { x: 10_000_000, y: 0 };
    f.vel = Velocity { x: 1_000, y: 0 };
    g.falcon = Some(f);
    g.movable_system(16_667);
    let f2 = g.falcon.unwrap();
    assert_eq!(f2.pos.x, 10_008_333);
}

#[test]
fn falcon_laser_pair() {
    let mut g = Game::new(WinSize { w: 598_000, h: 676_000 });
    g.falcon_spawn_system(0);
    g.falcon_laser_system(false);
    assert_eq!(g.lasers.len(), 0);
    g.falcon_laser_system(true);
    assert_eq!(g.lasers.len(), 2);
    let f = g.falcon.unwrap();
    // wingtip offset: 200 px * 0.5 / 2 - 5 px = 45 px
    assert_eq!(g.lasers[0].pos, Vec2i { x: f.pos.x + 45_000, y: f.pos.y + 15_000 });
    assert_eq!(g.lasers[1].pos, Vec2i { x: f.pos.x - 45_000, y: f.pos.y + 15_000 });
    for l in [&g.lasers[0], &g.lasers[1]] {
        assert!(l.from_falcon.is_some());
        assert!(l.from_enemy.is_none());
        assert_eq!(l.vel, Velocity { x: 0, y: 1_000 });
        assert!(l.movable.auto_despawn);
    }
}

#[test]
fn no_laser_without_player() {
    let mut g = Game::new(WinSize { w: 598_000, h: 676_000 });
    g.falcon_laser_system(true);
    assert_eq!(g.lasers.len(), 0);
}

#[test]
fn falcon_input_sets_velocity() {
    let mut g = Game::new(WinSize { w: 598_000, h: 676_000 });
    g.falcon_spawn_system(0);
    g.falcon_input_system(true, false);
    assert_eq!(g.falcon.unwrap().vel.x, -1_000);
    g.falcon_input_system(false, true);
    assert_eq!(g.falcon.unwrap().vel.x, 1_000);
    g.falcon_input_system(false, false);
    assert_eq!(g.falcon.unwrap().vel.x, 0);
    // left wins over right when both keys are held
    g.falcon_input_system(true, true);
    assert_eq!(g.falcon.unwrap().vel.x, -1_000);
}

#[test]
fn path_maker_alternates_and_stays_inside() {
    let win = WinSize { w: 598_000, h: 676_000 };
    let mut maker = PathMaker::default();
    assert!(maker.next_left);
    let p1 = maker.make(&win);
    assert!(p1.start.x < 0);
    assert!(p1.pivot.x <= 0);
    let p2 = maker.make(&win);
    assert!(p2.start.x > 0);
    assert!(p2.pivot.x >= 0);
    for p in [&p1, &p2] {
        assert_eq!(p.angle, 0);
        assert_eq!(p.speed, 100_000);
        assert_eq!(p.start.y, 676_000 / 2 + 100_000);
        assert!(p.radius.x >= 80_000 && p.radius.x <= 150_000);
        assert!(p.radius.y >= 50_000 && p.radius.y <= 100_000);
        assert!(p.pivot.x - p.radius.x >= -(598_000 / 2) + 20_000);
        assert!(p.pivot.x + p.radius.x <= 598_000 / 2 - 20_000);
        assert!(p.pivot.y + p.radius.y <= 676_000 / 2 - 20_000);
    }
}

#[test]
fn sprite_size_from_pair() {
    let s = SpriteSize::from((144_000, 75_000));
    assert_eq!(s.w, 144_000);
    assert_eq!(s.h, 75_000);
}

#[test]
fn player_state_transitions() {
    let mut s = PlayerState::default();
    assert!(!s.on);
    assert_eq!(s.last_shot, -1);
    s.spawned();
    assert!(s.on);
    assert_eq!(s.last_shot, -1);
    s.shot(7_000_000);
    assert!(!s.on);
    assert_eq!(s.last_shot, 7_000_000);
}

#[test]
fn explosion_timer_default() {
    let t = ExplosionTimer::default();
    assert_eq!(t.interval_us, 50_000);
    assert_eq!(t.elapsed_us, 0);
}

#[test]
fn game_new_initial_state() {
    let g = Game::new(WinSize { w: 598_000, h: 676_000 });
    assert_eq!(g.score.0, 0);
    assert_eq!(g.enemy_count, 0);
    assert!(g.falcon.is_none());
    assert!(!g.player_state.on);
    assert!(g.enemies.is_empty());
    assert!(g.lasers.is_empty());
    assert!(g.explosions.is_empty());
    assert!(g.explosion_requests.is_empty());
}

#[test]
fn enemy_fire_adds_at_most_one_laser_per_enemy() {
    let mut g = Game::new(WinSize { w: 598_000, h: 676_000 });
    g.star_fighter_spawn_system();
    g.star_fighter_spawn_system();
    for _ in 0..600 {
        let before = g.lasers.len();
        g.star_fighter_fire_system();
        let added = g.lasers.len() - before;
        assert!(added <= g.enemies.len());
        // every added laser is enemy-owned, below some enemy, moving down
        for l in &g.lasers[before..] {
            assert!(l.from_enemy.is_some());
            assert_eq!(l.vel, Velocity { x: 0, y: -1_000 });
            assert!(g.enemies.iter().any(|e| e.pos.x == l.pos.x && e.pos.y - 15_000 == l.pos.y));
        }
    }
}
