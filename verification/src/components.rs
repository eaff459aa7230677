use vstd::prelude::*;

verus! {

// Positions and sizes are carried in milli-pixels, velocities in
// milli-units (a unit vector component is 1000), times in microseconds,
// and angles in milliradians.  All coordinates are screen-centered:
// x grows rightward, y grows upward, the origin is the screen center.

/// Pixels-per-second applied to a unit velocity by the linear motion integrator.
pub const BASE_SPEED: i64 = 500;

/// Scale applied to every sprite, in milli (500 = one half).
pub const SPRITE_SCALE: i64 = 500;

/// Largest number of enemy craft alive at once.
pub const STAR_FIGHTER_MAX: u32 = 2;

/// Cooldown between a player death and the next respawn, in microseconds.
pub const FALCON_RESPAWN_DELAY_US: i64 = 2_000_000;

/// Score awarded for one downed enemy.
pub const KILL_SCORE: u32 = 100;

/// Number of animation frames in the explosion sprite sheet.
pub const EXPLOSION_LEN: u32 = 16;

/// Interval between explosion animation frames, in microseconds.
pub const EXPLOSION_FRAME_US: i64 = 50_000;

/// Out-of-screen margin beyond which auto-despawning entities are removed,
/// in milli-pixels.
pub const DESPAWN_MARGIN: i64 = 200_000;

/// One-in-N chance, per enemy and per tick, of that enemy firing.
pub const FIRE_ODDS: u64 = 60;

/// Saturation bound for coordinates moved by the linear motion integrator,
/// in milli-pixels; far beyond any reachable screen.
pub const POS_LIMIT: i64 = 1_000_000_000_000;

/// Upper bound accepted for one tick's elapsed time, in microseconds.
pub const DT_LIMIT: i64 = 1_000_000_000;

/// Bound on velocity components accepted by the motion integrator, in
/// milli-units.
pub const VEL_LIMIT: i64 = 100_000;

/// A 2D point or extent in milli-pixels.
#[derive(Clone, Copy, PartialEq, Eq, Structural, Debug)]
pub struct Vec2i {
    pub x: i64,
    pub y: i64,
}

/// Velocity in milli-units; the motion integrator multiplies it by
/// `BASE_SPEED` and the elapsed time.
#[derive(Clone, Copy, PartialEq, Eq, Structural, Debug)]
pub struct Velocity {
    pub x: i64,
    pub y: i64,
}

/// Marks an entity moved by the linear motion integrator; `auto_despawn`
/// selects removal once the entity leaves the playfield margin.
#[derive(Clone, Copy, PartialEq, Eq, Structural, Debug)]
pub struct Movable {
    pub auto_despawn: bool,
}

/// Capability tag: the entity is a projectile.
#[derive(Clone, Copy, PartialEq, Eq, Structural, Debug)]
pub struct Laser;

/// Unscaled sprite extent in milli-pixels; the collision box halves it and
/// applies the sprite scale.
#[derive(Clone, Copy, PartialEq, Eq, Structural, Debug)]
pub struct SpriteSize {
    pub w: i64,
    pub h: i64,
}

impl From<(i64, i64)> for SpriteSize {
    fn from(val: (i64, i64)) -> (r: Self) {
        SpriteSize { w: val.0, h: val.1 }
    }
}

impl vstd::std_specs::convert::FromSpecImpl<(i64, i64)> for SpriteSize {
    open spec fn obeys_from_spec() -> bool {
        true
    }

    open spec fn from_spec(val: (i64, i64)) -> Self {
        SpriteSize { w: val.0, h: val.1 }
    }
}

/// Capability tag: the player craft.
#[derive(Clone, Copy, PartialEq, Eq, Structural, Debug)]
pub struct Falcon;

/// Owner tag: a projectile fired by the player.
#[derive(Clone, Copy, PartialEq, Eq, Structural, Debug)]
pub struct FromFalcon;

/// Capability tag: an enemy craft.
#[derive(Clone, Copy, PartialEq, Eq, Structural, Debug)]
pub struct Enemy;

/// Owner tag: a projectile fired by an enemy.
#[derive(Clone, Copy, PartialEq, Eq, Structural, Debug)]
pub struct FromEnemy;

/// The running score.
#[derive(Clone, Copy, PartialEq, Eq, Structural, Debug)]
pub struct Score(pub u32);

/// Capability tag: an explosion animation entity.
#[derive(Clone, Copy, PartialEq, Eq, Structural, Debug)]
pub struct Explosion;

/// Transient request, consumed the tick it is processed, to start an
/// explosion animation at a position.
#[derive(Clone, Copy, PartialEq, Eq, Structural, Debug)]
pub struct ExplosionToSpawn(pub Vec2i);

/// Repeating frame timer for an explosion animation.
#[derive(Clone, Copy, PartialEq, Eq, Structural, Debug)]
pub struct ExplosionTimer {
    pub interval_us: i64,
    pub elapsed_us: i64,
}

impl ExplosionTimer {
    /// The timer is between frames: some of the interval may have elapsed,
    /// but the frame boundary has not been crossed.
    pub open spec fn wf(self) -> bool {
        self.interval_us == EXPLOSION_FRAME_US && 0 <= self.elapsed_us < self.interval_us
    }
}

impl Default for ExplosionTimer {
    /// A fresh repeating timer with the standard frame interval.
    fn default() -> (r: Self)
        ensures
            r.interval_us == EXPLOSION_FRAME_US,
            r.elapsed_us == 0,
            r.wf(),
    {
        ExplosionTimer { interval_us: EXPLOSION_FRAME_US, elapsed_us: 0 }
    }
}

/// Screen extent in milli-pixels.
#[derive(Clone, Copy, PartialEq, Eq, Structural, Debug)]
pub struct WinSize {
    pub w: i64,
    pub h: i64,
}

impl WinSize {
    /// Large enough to lay an orbit inside and small enough for all the
    /// fixed-point arithmetic to stay in range.
    pub open spec fn wf(self) -> bool {
        400_000 <= self.w <= 100_000_000 && 400_000 <= self.h <= 100_000_000
    }
}

/// Whether the player craft is alive, and when it was last shot down.
#[derive(Clone, Copy, PartialEq, Eq, Structural, Debug)]
pub struct PlayerState {
    /// The player craft is currently alive.
    pub on: bool,
    /// Time of the last death in microseconds, or -1 if never shot down.
    pub last_shot: i64,
}

impl PlayerState {
    pub open spec fn wf(self) -> bool {
        self.last_shot == -1 || (0 <= self.last_shot <= 1_000_000_000_000_000)
    }

    /// Record a player death at the given time.
    pub fn shot(&mut self, time: i64)
        requires
            0 <= time <= 1_000_000_000_000_000,
        ensures
            final(self).on == false,
            final(self).last_shot == time,
            final(self).wf(),
    {
        self.on = false;
        self.last_shot = time;
    }

    /// Record a player respawn.
    pub fn spawned(&mut self)
        ensures
            final(self).on == true,
            final(self).last_shot == -1,
            final(self).wf(),
    {
        self.on = true;
        self.last_shot = -1;
    }
}

impl Default for PlayerState {
    /// Before the first spawn: not alive, never shot down.
    fn default() -> (r: Self)
        ensures
            r.on == false,
            r.last_shot == -1,
            r.wf(),
    {
        PlayerState { on: false, last_shot: -1 }
    }
}

} // verus!
