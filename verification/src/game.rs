use vstd::prelude::*;
use crate::components::{
    Enemy, Explosion, ExplosionTimer, ExplosionToSpawn, Falcon, FromEnemy, FromFalcon, Laser,
    Movable, PlayerState, Score, SpriteSize, Vec2i, Velocity, WinSize, BASE_SPEED, DESPAWN_MARGIN,
    DT_LIMIT, EXPLOSION_LEN, FALCON_RESPAWN_DELAY_US, POS_LIMIT, SPRITE_SCALE, STAR_FIGHTER_MAX,
    VEL_LIMIT,
};
use crate::geom::size_wf;
use crate::path::{Path, PathMaker, ENEMY_POS_LIMIT, START_OFF};
use crate::components::FIRE_ODDS;
use crate::rng::sample_below;

verus! {

/// Unscaled sprite extents, in milli-pixels.
pub const FALCON_SIZE_W: i64 = 200_000;

pub const FALCON_SIZE_H: i64 = 141_000;

pub const FALCON_LASER_W: i64 = 9_000;

pub const FALCON_LASER_H: i64 = 54_000;

pub const STAR_FIGHTER_W: i64 = 144_000;

pub const STAR_FIGHTER_H: i64 = 75_000;

pub const STAR_FIGHTER_LASER_W: i64 = 17_000;

pub const STAR_FIGHTER_LASER_H: i64 = 55_000;

/// Coordinate bound for projectiles: spawned a fixed offset away from a
/// craft, then clamped back under `POS_LIMIT` by the motion integrator.
pub const LASER_POS_LIMIT: i64 = 1_000_000_100_000;

/// The player craft.
#[derive(Clone, Copy, PartialEq, Eq, Structural, Debug)]
pub struct FalconShip {
    pub tag: Falcon,
    pub pos: Vec2i,
    pub vel: Velocity,
    pub size: SpriteSize,
    pub movable: Movable,
}

/// An enemy craft with its owned flight plan.
#[derive(Clone, Copy, PartialEq, Eq, Structural, Debug)]
pub struct EnemyShip {
    pub tag: Enemy,
    pub pos: Vec2i,
    pub size: SpriteSize,
    pub path: Path,
}

/// A projectile; exactly one owner tag is present.
#[derive(Clone, Copy, PartialEq, Eq, Structural, Debug)]
pub struct LaserShot {
    pub tag: Laser,
    pub from_falcon: Option<FromFalcon>,
    pub from_enemy: Option<FromEnemy>,
    pub pos: Vec2i,
    pub vel: Velocity,
    pub size: SpriteSize,
    pub movable: Movable,
}

/// A running explosion animation.
#[derive(Clone, Copy, PartialEq, Eq, Structural, Debug)]
pub struct ExplosionAnim {
    pub tag: Explosion,
    pub pos: Vec2i,
    pub frame: u32,
    pub timer: ExplosionTimer,
}

pub open spec fn falcon_wf(f: FalconShip) -> bool {
    &&& size_wf(f.size)
    &&& -POS_LIMIT <= f.pos.x <= POS_LIMIT
    &&& -POS_LIMIT <= f.pos.y <= POS_LIMIT
    &&& -VEL_LIMIT <= f.vel.x <= VEL_LIMIT
    &&& -VEL_LIMIT <= f.vel.y <= VEL_LIMIT
}

pub open spec fn enemy_wf(e: EnemyShip) -> bool {
    &&& size_wf(e.size)
    &&& e.path.wf()
    &&& -ENEMY_POS_LIMIT <= e.pos.x <= ENEMY_POS_LIMIT
    &&& -ENEMY_POS_LIMIT <= e.pos.y <= ENEMY_POS_LIMIT
}

pub open spec fn laser_wf(l: LaserShot) -> bool {
    &&& l.from_falcon.is_some() != l.from_enemy.is_some()
    &&& size_wf(l.size)
    &&& -LASER_POS_LIMIT <= l.pos.x <= LASER_POS_LIMIT
    &&& -LASER_POS_LIMIT <= l.pos.y <= LASER_POS_LIMIT
    &&& -VEL_LIMIT <= l.vel.x <= VEL_LIMIT
    &&& -VEL_LIMIT <= l.vel.y <= VEL_LIMIT
}

pub open spec fn explosion_wf(x: ExplosionAnim) -> bool {
    &&& x.frame < EXPLOSION_LEN
    &&& x.timer.wf()
    &&& -LASER_POS_LIMIT <= x.pos.x <= LASER_POS_LIMIT
    &&& -LASER_POS_LIMIT <= x.pos.y <= LASER_POS_LIMIT
}

/// The whole simulation state for one session.
pub struct Game {
    pub win: WinSize,
    pub score: Score,
    pub player_state: PlayerState,
    pub enemy_count: u32,
    pub path_maker: PathMaker,
    pub falcon: Option<FalconShip>,
    pub enemies: Vec<EnemyShip>,
    pub lasers: Vec<LaserShot>,
    pub explosion_requests: Vec<ExplosionToSpawn>,
    pub explosions: Vec<ExplosionAnim>,
}

impl Game {
    /// Session invariant: the population counter matches the live enemy
    /// entities and stays within its bound, the player-alive record
    /// matches the player entity, and every entity is well formed.
    pub open spec fn wf(self) -> bool {
        &&& self.win.wf()
        &&& self.player_state.wf()
        &&& self.enemy_count as int == self.enemies@.len()
        &&& self.enemy_count <= STAR_FIGHTER_MAX
        &&& self.player_state.on == self.falcon.is_some()
        &&& match self.falcon {
            Some(f) => falcon_wf(f),
            None => true,
        }
        &&& forall|i: int|
            0 <= i < self.enemies@.len() ==> enemy_wf(#[trigger] self.enemies@[i])
        &&& forall|i: int| 0 <= i < self.lasers@.len() ==> laser_wf(#[trigger] self.lasers@[i])
        &&& forall|i: int|
            0 <= i < self.explosions@.len() ==> explosion_wf(#[trigger] self.explosions@[i])
        &&& forall|i: int|
            0 <= i < self.explosion_requests@.len() ==> {
                let p = (#[trigger] self.explosion_requests@[i]).0;
                -LASER_POS_LIMIT <= p.x <= LASER_POS_LIMIT && -LASER_POS_LIMIT <= p.y
                    <= LASER_POS_LIMIT
            }
    }

    /// A fresh session: empty playfield, score zero, player not yet
    /// spawned, the first enemy to come from the left.
    pub fn new(win: WinSize) -> (r: Game)
        requires
            win.wf(),
        ensures
            r.wf(),
            r.win == win,
            r.score.0 == 0,
            r.player_state.on == false,
            r.player_state.last_shot == -1,
            r.enemy_count == 0,
            r.path_maker.next_left == true,
            r.falcon is None,
            r.enemies@.len() == 0,
            r.lasers@.len() == 0,
            r.explosion_requests@.len() == 0,
            r.explosions@.len() == 0,
    {
        Game {
            win,
            score: Score(0),
            player_state: PlayerState::default(),
            enemy_count: 0,
            path_maker: PathMaker::default(),
            falcon: None,
            enemies: Vec::new(),
            lasers: Vec::new(),
            explosion_requests: Vec::new(),
            explosions: Vec::new(),
        }
    }
}

/// Signed displacement of the linear motion integrator over one tick,
/// truncated toward zero as the executable arithmetic truncates.
pub open spec fn move_delta(v: int, delta_us: int) -> int {
    let p = v * delta_us * BASE_SPEED;
    if p >= 0 {
        p / 1_000_000
    } else {
        -((-p) / 1_000_000)
    }
}

pub open spec fn clamp_pos(c: int) -> int {
    if c > POS_LIMIT {
        POS_LIMIT as int
    } else if c < -POS_LIMIT {
        -POS_LIMIT as int
    } else {
        c
    }
}

/// One coordinate after the linear motion integrator: translated by the
/// velocity over the elapsed time, kept within the coordinate bound.
pub open spec fn moved_coord(c: int, v: int, delta_us: int) -> int {
    clamp_pos(c + move_delta(v, delta_us))
}

pub open spec fn moved_laser(l: LaserShot, delta_us: int) -> LaserShot {
    LaserShot {
        pos: Vec2i {
            x: moved_coord(l.pos.x as int, l.vel.x as int, delta_us) as i64,
            y: moved_coord(l.pos.y as int, l.vel.y as int, delta_us) as i64,
        },
        ..l
    }
}

/// The position lies beyond the screen plus the despawn margin.
pub open spec fn out_of_bounds(pos: Vec2i, win: WinSize) -> bool {
    ||| pos.y > win.h / 2 + DESPAWN_MARGIN
    ||| pos.y < -(win.h / 2) - DESPAWN_MARGIN
    ||| pos.x > win.w / 2 + DESPAWN_MARGIN
    ||| pos.x < -(win.w / 2) - DESPAWN_MARGIN
}

/// All projectiles after one pass of the linear motion integrator: each
/// is translated, and the auto-despawning ones that left the playfield
/// are removed, order otherwise kept.
pub open spec fn step_lasers(s: Seq<LaserShot>, win: WinSize, delta_us: int) -> Seq<LaserShot>
    decreases s.len(),
{
    if s.len() == 0 {
        Seq::empty()
    } else {
        let rest = step_lasers(s.drop_last(), win, delta_us);
        let m = moved_laser(s.last(), delta_us);
        if m.movable.auto_despawn && out_of_bounds(m.pos, win) {
            rest
        } else {
            rest.push(m)
        }
    }
}

/// One coordinate of the linear motion integrator.
fn move_coord_exec(c: i64, v: i64, delta_us: i64) -> (r: i64)
    requires
        -LASER_POS_LIMIT <= c <= LASER_POS_LIMIT,
        -VEL_LIMIT <= v <= VEL_LIMIT,
        0 <= delta_us <= DT_LIMIT,
    ensures
        r == moved_coord(c as int, v as int, delta_us as int),
        -POS_LIMIT <= r <= POS_LIMIT,
{
    proof {
        assert(-100_000_000_000_000int <= v * delta_us <= 100_000_000_000_000int)
            by (nonlinear_arith)
            requires
                -VEL_LIMIT <= v <= VEL_LIMIT,
                0 <= delta_us <= DT_LIMIT,
                VEL_LIMIT == 100_000,
                DT_LIMIT == 1_000_000_000,
        ;
    }
    let p: i64 = v * delta_us * BASE_SPEED;
    let d: i64 = if p >= 0 {
        crate::path::div_nn(p, 1_000_000)
    } else {
        -crate::path::div_nn(-p, 1_000_000)
    };
    let sum: i64 = c + d;
    if sum > POS_LIMIT {
        POS_LIMIT
    } else if sum < -POS_LIMIT {
        -POS_LIMIT
    } else {
        sum
    }
}

impl Game {
    /// Linear motion integrator: translate the player craft and every
    /// projectile by velocity over the elapsed time; auto-despawning
    /// projectiles that left the playfield margin are destroyed.  The
    /// player, which never auto-despawns, is only translated.
    pub fn movable_system(&mut self, delta_us: i64)
        requires
            old(self).wf(),
            0 <= delta_us <= DT_LIMIT,
        ensures
            movable_rel(*old(self), *final(self), delta_us as int),
    {
        let ghost ls0 = self.lasers@;
        match &self.falcon {
            Some(f) => {
                let moved = FalconShip {
                    pos: Vec2i {
                        x: move_coord_exec(f.pos.x, f.vel.x, delta_us),
                        y: move_coord_exec(f.pos.y, f.vel.y, delta_us),
                    },
                    ..*f
                };
                self.falcon = Some(moved);
            },
            None => {},
        }
        let mut out: Vec<LaserShot> = Vec::new();
        let mut i: usize = 0;
        while i < self.lasers.len()
            invariant
                self.wf(),
                i <= self.lasers@.len(),
                self.lasers@ == ls0,
                0 <= delta_us <= DT_LIMIT,
                out@ == step_lasers(ls0.take(i as int), self.win, delta_us as int),
                forall|k: int| 0 <= k < out@.len() ==> laser_wf(#[trigger] out@[k]),
            decreases self.lasers@.len() - i,
        {
            let l = self.lasers[i];
            let m = LaserShot {
                pos: Vec2i {
                    x: move_coord_exec(l.pos.x, l.vel.x, delta_us),
                    y: move_coord_exec(l.pos.y, l.vel.y, delta_us),
                },
                ..l
            };
            let half_h: i64 = crate::path::div_nn(self.win.h, 2);
            let half_w: i64 = crate::path::div_nn(self.win.w, 2);
            let gone = m.pos.y > half_h + DESPAWN_MARGIN || m.pos.y < -half_h - DESPAWN_MARGIN
                || m.pos.x > half_w + DESPAWN_MARGIN || m.pos.x < -half_w - DESPAWN_MARGIN;
            if !(m.movable.auto_despawn && gone) {
                out.push(m);
            }
            proof {
                assert(ls0.take(i as int + 1).drop_last() =~= ls0.take(i as int));
                assert(ls0.take(i as int + 1).last() == ls0[i as int]);
            }
            i = i + 1;
        }
        proof {
            assert(ls0.take(ls0.len() as int) =~= ls0);
        }
        self.lasers = out;
    }

    /// Path follower: advance every enemy along its flight plan.
    pub fn star_fighter_path_system(&mut self, delta_us: i64)
        requires
            old(self).wf(),
            0 <= delta_us <= DT_LIMIT,
        ensures
            star_fighter_path_rel(*old(self), *final(self), delta_us as int),
    {
        let ghost es0 = self.enemies@;
        let mut i: usize = 0;
        while i < self.enemies.len()
            invariant
                self.wf(),
                i <= es0.len(),
                self.enemies@.len() == es0.len(),
                0 <= delta_us <= DT_LIMIT,
                forall|k: int| i <= k < es0.len() ==> #[trigger] self.enemies@[k] == es0[k],
                forall|k: int|
                    0 <= k < i ==> {
                        let e0 = es0[k];
                        #[trigger] self.enemies@[k] == EnemyShip {
                            pos: Vec2i {
                                x: crate::path::next_x_spec(e0.pos, e0.path, delta_us as int)
                                    as i64,
                                y: crate::path::next_y_spec(e0.pos, e0.path, delta_us as int)
                                    as i64,
                            },
                            path: Path {
                                angle: crate::path::next_angle_spec(
                                    e0.pos,
                                    e0.path,
                                    delta_us as int,
                                ) as i64,
                                ..e0.path
                            },
                            ..e0
                        }
                    },
                self.win == old(self).win,
                self.score == old(self).score,
                self.player_state == old(self).player_state,
                self.enemy_count == old(self).enemy_count,
                self.path_maker == old(self).path_maker,
                self.falcon == old(self).falcon,
                self.lasers@ == old(self).lasers@,
                self.explosion_requests@ == old(self).explosion_requests@,
                self.explosions@ == old(self).explosions@,
            decreases es0.len() - i,
        {
            let e = self.enemies[i];
            let mut path = e.path;
            let npos = crate::path::path_step(e.pos, &mut path, delta_us);
            let updated = EnemyShip { pos: npos, path, ..e };
            self.enemies[i] = updated;
            i = i + 1;
        }
    }

    /// Spawner: create one enemy on a fresh flight plan when the
    /// population is below its bound; the host calls this on its spawn
    /// timer.  The new enemy appears at the plan's start point, outside
    /// the top edge, on the side the maker alternates.
    pub fn star_fighter_spawn_system(&mut self)
        requires
            old(self).wf(),
        ensures
            star_fighter_spawn_rel(*old(self), *final(self)),
    {
        if self.enemy_count < STAR_FIGHTER_MAX {
            let win = self.win;
            let plan = self.path_maker.make(&win);
            let e = EnemyShip {
                tag: Enemy,
                pos: plan.start,
                size: SpriteSize { w: STAR_FIGHTER_W, h: STAR_FIGHTER_H },
                path: plan,
            };
            let ghost es0 = self.enemies@;
            self.enemies.push(e);
            self.enemy_count = self.enemy_count + 1;
            proof {
                assert(self.enemies@.take(es0.len() as int) =~= es0);
            }
        }
    }

    /// Fire control: each enemy independently fires with a fixed small
    /// per-tick probability, producing one enemy-owned projectile moving
    /// downward from just below that enemy.  Whatever the draws, the
    /// appended projectiles are, in order, the shots of a strictly
    /// increasing selection of the enemies: at most one from each enemy.
    pub fn star_fighter_fire_system(&mut self)
        requires
            old(self).wf(),
        ensures
            star_fighter_fire_rel(*old(self), *final(self)),
    {
        let ghost ls0 = self.lasers@;
        let ghost mut sel: Seq<int> = Seq::empty();
        let mut i: usize = 0;
        while i < self.enemies.len()
            invariant
                self.wf(),
                i <= self.enemies@.len(),
                sel.len() + ls0.len() == self.lasers@.len(),
                self.lasers@.len() <= ls0.len() + i,
                self.lasers@.take(ls0.len() as int) == ls0,
                forall|k: int| 0 <= k < sel.len() ==> 0 <= #[trigger] sel[k] < i,
                forall|k: int| 0 < k < sel.len() ==> sel[k - 1] < #[trigger] sel[k],
                forall|k: int|
                    0 <= k < sel.len() ==> self.lasers@[ls0.len() + k] == enemy_laser_of(
                        old(self).enemies@[#[trigger] sel[k]],
                    ),
                self.win == old(self).win,
                self.score == old(self).score,
                self.player_state == old(self).player_state,
                self.enemy_count == old(self).enemy_count,
                self.path_maker == old(self).path_maker,
                self.falcon == old(self).falcon,
                self.enemies@ == old(self).enemies@,
                self.explosion_requests@ == old(self).explosion_requests@,
                self.explosions@ == old(self).explosions@,
            decreases self.enemies@.len() - i,
        {
            let roll = sample_below(FIRE_ODDS);
            let e = self.enemies[i];
            match enemy_fire_step(&e, roll) {
                Some(l) => {
                    let ghost before = self.lasers@;
                    self.lasers.push(l);
                    proof {
                        sel = sel.push(i as int);
                        assert(self.lasers@.take(ls0.len() as int) =~= ls0);
                        assert(self.lasers@[before.len() as int] == enemy_laser_of(
                            old(self).enemies@[i as int],
                        ));
                    }
                },
                None => {},
            }
            i = i + 1;
        }
        proof {
            let appended = self.lasers@.skip(ls0.len() as int);
            assert(appended.len() == sel.len());
            assert forall|k: int| 0 <= k < sel.len() implies appended[k] == enemy_laser_of(
                old(self).enemies@[#[trigger] sel[k]],
            ) by {
                assert(appended[k] == self.lasers@[ls0.len() + k]);
            }
            assert(fire_selection_ok(sel, appended, old(self).enemies@));
            assert(fired_in_enemy_order(appended, old(self).enemies@));
        }
    }

    /// Spawner: bring the player craft back at the bottom of the screen
    /// when it is not alive and either it never spawned or the respawn
    /// delay has fully elapsed since the last death; the host calls this
    /// on its respawn timer.
    pub fn falcon_spawn_system(&mut self, now_us: i64)
        requires
            old(self).wf(),
            0 <= now_us <= 1_000_000_000_000_000,
        ensures
            falcon_spawn_rel(*old(self), *final(self), now_us as int),
    {
        let due = !self.player_state.on && (self.player_state.last_shot == -1
            || now_us > self.player_state.last_shot + FALCON_RESPAWN_DELAY_US);
        if due {
            let half_h = crate::path::div_nn(self.win.h, 2);
            self.falcon = Some(
                FalconShip {
                    tag: Falcon,
                    pos: Vec2i { x: 0, y: -half_h + FALCON_SIZE_H * SPRITE_SCALE / 2000 + 5_000 },
                    vel: Velocity { x: 0, y: 0 },
                    size: SpriteSize { w: FALCON_SIZE_W, h: FALCON_SIZE_H },
                    movable: Movable { auto_despawn: false },
                },
            );
            self.player_state.spawned();
        }
    }

    /// Steering input: set the player's horizontal velocity from the
    /// held direction keys; left wins over right, neither stops the
    /// craft.  Without a live player nothing changes.
    pub fn falcon_input_system(&mut self, left: bool, right: bool)
        requires
            old(self).wf(),
        ensures
            falcon_input_rel(*old(self), *final(self), left, right),
    {
        match &self.falcon {
            Some(f) => {
                let vx: i64 = if left {
                    -1_000
                } else if right {
                    1_000
                } else {
                    0
                };
                let updated = FalconShip { vel: Velocity { x: vx, y: f.vel.y }, ..*f };
                self.falcon = Some(updated);
            },
            None => {},
        }
    }

    /// Player fire: on a fresh fire press with a live player, spawn two
    /// player-owned projectiles moving upward from the craft's wingtips.
    pub fn falcon_laser_system(&mut self, fire_just_pressed: bool)
        requires
            old(self).wf(),
        ensures
            falcon_laser_rel(*old(self), *final(self), fire_just_pressed),
    {
        match &self.falcon {
            Some(f) => {
                if fire_just_pressed {
                    let x_off: i64 = FALCON_SIZE_W * SPRITE_SCALE / 2000 - 5_000;
                    let pos = f.pos;
                    let l1 = LaserShot {
                        tag: Laser,
                        from_falcon: Some(FromFalcon),
                        from_enemy: None,
                        pos: Vec2i { x: pos.x + x_off, y: pos.y + 15_000 },
                        vel: Velocity { x: 0, y: 1_000 },
                        size: SpriteSize { w: FALCON_LASER_W, h: FALCON_LASER_H },
                        movable: Movable { auto_despawn: true },
                    };
                    let l2 = LaserShot { pos: Vec2i { x: pos.x - x_off, y: pos.y + 15_000 }, ..l1 };
                    self.lasers.push(l1);
                    self.lasers.push(l2);
                }
            },
            None => {},
        }
    }
}

/// The chosen enemy indices are strictly increasing, and the projectiles
/// are those enemies' shots, in that order.
pub open spec fn fire_selection_ok(
    sel: Seq<int>,
    appended: Seq<LaserShot>,
    es: Seq<EnemyShip>,
) -> bool {
    &&& sel.len() == appended.len()
    &&& forall|k: int| 0 <= k < sel.len() ==> 0 <= #[trigger] sel[k] < es.len()
    &&& forall|k: int| 0 < k < sel.len() ==> sel[k - 1] < #[trigger] sel[k]
    &&& forall|k: int| 0 <= k < sel.len() ==> appended[k] == enemy_laser_of(es[#[trigger] sel[k]])
}

/// The projectiles are, in order, the shots of a strictly increasing
/// selection of the enemies: at most one from each enemy, in enemy order.
pub open spec fn fired_in_enemy_order(appended: Seq<LaserShot>, es: Seq<EnemyShip>) -> bool {
    exists|sel: Seq<int>| fire_selection_ok(sel, appended, es)
}

/// The projectile an enemy fires: enemy-owned, just below the enemy,
/// moving straight down, auto-despawning.
pub open spec fn enemy_laser_of(e: EnemyShip) -> LaserShot {
    LaserShot {
        tag: Laser,
        from_falcon: None,
        from_enemy: Some(FromEnemy),
        pos: Vec2i { x: e.pos.x, y: (e.pos.y - 15_000) as i64 },
        vel: Velocity { x: 0, y: -1_000i64 },
        size: SpriteSize { w: STAR_FIGHTER_LASER_W, h: STAR_FIGHTER_LASER_H },
        movable: Movable { auto_despawn: true },
    }
}

/// The projectiles the player fires: player-owned, offset to a wingtip,
/// moving straight up, auto-despawning.
pub open spec fn falcon_laser_of(f: FalconShip, right_wing: bool) -> LaserShot {
    let x_off = FALCON_SIZE_W * SPRITE_SCALE / 2000 - 5_000;
    LaserShot {
        tag: Laser,
        from_falcon: Some(FromFalcon),
        from_enemy: None,
        pos: Vec2i {
            x: (if right_wing {
                f.pos.x + x_off
            } else {
                f.pos.x - x_off
            }) as i64,
            y: (f.pos.y + 15_000) as i64,
        },
        vel: Velocity { x: 0, y: 1_000 },
        size: SpriteSize { w: FALCON_LASER_W, h: FALCON_LASER_H },
        movable: Movable { auto_despawn: true },
    }
}

/// One enemy's fire decision for one drawn value: the enemy fires
/// exactly on a zero roll, producing its projectile.
pub fn enemy_fire_step(e: &EnemyShip, roll: u64) -> (r: Option<LaserShot>)
    requires
        enemy_wf(*e),
    ensures
        r == if roll == 0 {
            Some(enemy_laser_of(*e))
        } else {
            None::<LaserShot>
        },
{
    if roll == 0 {
        Some(
            LaserShot {
                tag: Laser,
                from_falcon: None,
                from_enemy: Some(FromEnemy),
                pos: Vec2i { x: e.pos.x, y: e.pos.y - 15_000 },
                vel: Velocity { x: 0, y: -1_000 },
                size: SpriteSize { w: STAR_FIGHTER_LASER_W, h: STAR_FIGHTER_LASER_H },
                movable: Movable { auto_despawn: true },
            },
        )
    } else {
        None
    }
}

/// Where a respawned player craft appears: centered horizontally, just
/// above the bottom edge.
pub open spec fn falcon_spawn_of(win: WinSize) -> FalconShip {
    FalconShip {
        tag: Falcon,
        pos: Vec2i { x: 0, y: (-(win.h / 2) + FALCON_SIZE_H * SPRITE_SCALE / 2000 + 5_000) as i64 },
        vel: Velocity { x: 0, y: 0 },
        size: SpriteSize { w: FALCON_SIZE_W, h: FALCON_SIZE_H },
        movable: Movable { auto_despawn: false },
    }
}

pub open spec fn star_fighter_fire_rel(pre: Game, post: Game) -> bool {
    &&& post.wf()
    &&& post.lasers@.len() >= pre.lasers@.len()
    &&& post.lasers@.len() <= pre.lasers@.len() + pre.enemies@.len()
    &&& post.lasers@.take(pre.lasers@.len() as int) == pre.lasers@
    &&& fired_in_enemy_order(post.lasers@.skip(pre.lasers@.len() as int), pre.enemies@)
    &&& post.win == pre.win
    &&& post.score == pre.score
    &&& post.player_state == pre.player_state
    &&& post.enemy_count == pre.enemy_count
    &&& post.path_maker == pre.path_maker
    &&& post.falcon == pre.falcon
    &&& post.enemies@ == pre.enemies@
    &&& post.explosion_requests@ == pre.explosion_requests@
    &&& post.explosions@ == pre.explosions@
}

pub open spec fn movable_rel(pre: Game, post: Game, delta_us: int) -> bool {
    &&& post.wf()
    &&& post.lasers@ == step_lasers(pre.lasers@, pre.win, delta_us)
    &&& match (pre.falcon, post.falcon) {
        (Some(f0), Some(f1)) => f1 == FalconShip {
            pos: Vec2i {
                x: moved_coord(f0.pos.x as int, f0.vel.x as int, delta_us) as i64,
                y: moved_coord(f0.pos.y as int, f0.vel.y as int, delta_us) as i64,
            },
            ..f0
        },
        (None, None) => true,
        _ => false,
    }
    &&& post.win == pre.win
    &&& post.score == pre.score
    &&& post.player_state == pre.player_state
    &&& post.enemy_count == pre.enemy_count
    &&& post.path_maker == pre.path_maker
    &&& post.enemies@ == pre.enemies@
    &&& post.explosion_requests@ == pre.explosion_requests@
    &&& post.explosions@ == pre.explosions@
}

pub open spec fn star_fighter_path_rel(pre: Game, post: Game, delta_us: int) -> bool {
    &&& post.wf()
    &&& post.enemies@.len() == pre.enemies@.len()
    &&& forall|i: int|
        0 <= i < pre.enemies@.len() ==> {
            let e0 = pre.enemies@[i];
            #[trigger] post.enemies@[i] == EnemyShip {
                pos: Vec2i {
                    x: crate::path::next_x_spec(e0.pos, e0.path, delta_us) as i64,
                    y: crate::path::next_y_spec(e0.pos, e0.path, delta_us) as i64,
                },
                path: Path {
                    angle: crate::path::next_angle_spec(e0.pos, e0.path, delta_us)
                        as i64,
                    ..e0.path
                },
                ..e0
            }
        }
    &&& post.win == pre.win
    &&& post.score == pre.score
    &&& post.player_state == pre.player_state
    &&& post.enemy_count == pre.enemy_count
    &&& post.path_maker == pre.path_maker
    &&& post.falcon == pre.falcon
    &&& post.lasers@ == pre.lasers@
    &&& post.explosion_requests@ == pre.explosion_requests@
    &&& post.explosions@ == pre.explosions@
}

pub open spec fn star_fighter_spawn_rel(pre: Game, post: Game) -> bool {
    &&& post.wf()
    &&& pre.enemy_count >= STAR_FIGHTER_MAX ==> post == pre
    &&& pre.enemy_count < STAR_FIGHTER_MAX ==> {
        &&& post.enemy_count == pre.enemy_count + 1
        &&& post.enemies@.len() == pre.enemies@.len() + 1
        &&& post.enemies@.take(pre.enemies@.len() as int) == pre.enemies@
        &&& {
            let e = post.enemies@.last();
            &&& e.pos == e.path.start
            &&& e.path.wf()
            &&& e.path.angle == 0
            &&& e.path.speed == crate::path::PATH_SPEED
            &&& e.size == SpriteSize { w: STAR_FIGHTER_W, h: STAR_FIGHTER_H }
            &&& e.path.start.y == pre.win.h / 2 + START_OFF
            &&& (pre.path_maker.next_left ==> e.path.start.x < 0)
            &&& (!pre.path_maker.next_left ==> e.path.start.x > 0)
            &&& 80_000 <= e.path.radius.x <= 150_000
            &&& 50_000 <= e.path.radius.y <= 100_000
            &&& e.path.pivot.x - e.path.radius.x >= -(pre.win.w / 2)
                + crate::path::ORBIT_MARGIN
            &&& e.path.pivot.x + e.path.radius.x <= pre.win.w / 2
                - crate::path::ORBIT_MARGIN
            &&& e.path.pivot.y >= 0
            &&& e.path.pivot.y + e.path.radius.y <= pre.win.h / 2
                - crate::path::ORBIT_MARGIN
        }
        &&& post.path_maker.next_left == !pre.path_maker.next_left
    }
    &&& post.win == pre.win
    &&& post.score == pre.score
    &&& post.player_state == pre.player_state
    &&& post.falcon == pre.falcon
    &&& post.lasers@ == pre.lasers@
    &&& post.explosion_requests@ == pre.explosion_requests@
    &&& post.explosions@ == pre.explosions@
}

pub open spec fn falcon_spawn_rel(pre: Game, post: Game, now_us: int) -> bool {
    &&& post.wf()
    &&& ({
        let due = !pre.player_state.on && (pre.player_state.last_shot == -1
            || now_us > pre.player_state.last_shot + FALCON_RESPAWN_DELAY_US);
        if due {
            &&& post.falcon == Some(falcon_spawn_of(pre.win))
            &&& post.player_state.on == true
            &&& post.player_state.last_shot == -1
        } else {
            post == pre
        }
    })
    &&& post.win == pre.win
    &&& post.score == pre.score
    &&& post.enemy_count == pre.enemy_count
    &&& post.path_maker == pre.path_maker
    &&& post.enemies@ == pre.enemies@
    &&& post.lasers@ == pre.lasers@
    &&& post.explosion_requests@ == pre.explosion_requests@
    &&& post.explosions@ == pre.explosions@
}

pub open spec fn falcon_input_rel(pre: Game, post: Game, left: bool, right: bool) -> bool {
    &&& post.wf()
    &&& match (pre.falcon, post.falcon) {
        (Some(f0), Some(f1)) => f1 == FalconShip {
            vel: Velocity {
                x: if left {
                    -1_000i64
                } else if right {
                    1_000i64
                } else {
                    0i64
                },
                y: f0.vel.y,
            },
            ..f0
        },
        (None, None) => true,
        _ => false,
    }
    &&& post.win == pre.win
    &&& post.score == pre.score
    &&& post.player_state == pre.player_state
    &&& post.enemy_count == pre.enemy_count
    &&& post.path_maker == pre.path_maker
    &&& post.enemies@ == pre.enemies@
    &&& post.lasers@ == pre.lasers@
    &&& post.explosion_requests@ == pre.explosion_requests@
    &&& post.explosions@ == pre.explosions@
}

pub open spec fn falcon_laser_rel(pre: Game, post: Game, fire_just_pressed: bool) -> bool {
    &&& post.wf()
    &&& match pre.falcon {
        Some(f) => {
            if fire_just_pressed {
                post.lasers@ == pre.lasers@.push(
                    falcon_laser_of(f, true),
                ).push(falcon_laser_of(f, false))
            } else {
                post.lasers@ == pre.lasers@
            }
        },
        None => post.lasers@ == pre.lasers@,
    }
    &&& post.win == pre.win
    &&& post.score == pre.score
    &&& post.player_state == pre.player_state
    &&& post.enemy_count == pre.enemy_count
    &&& post.path_maker == pre.path_maker
    &&& post.falcon == pre.falcon
    &&& post.enemies@ == pre.enemies@
    &&& post.explosion_requests@ == pre.explosion_requests@
    &&& post.explosions@ == pre.explosions@
}

} // verus!
