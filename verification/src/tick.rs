use vstd::prelude::*;
use crate::combat::{falcon_hits_star_fighter_rel, star_fighter_hits_falcon_rel};
use crate::components::DT_LIMIT;
use crate::game::{
    falcon_input_rel, falcon_laser_rel, falcon_spawn_rel, movable_rel, star_fighter_fire_rel,
    star_fighter_path_rel, star_fighter_spawn_rel, Game,
};
use crate::lifecycle::{explode_aircraft_rel, spawn_explosion_rel};

verus! {

/// What the host hands the core each frame: the timers it runs and the
/// input edges it polled.
#[derive(Clone, Copy, PartialEq, Eq, Structural, Debug)]
pub struct TickInput {
    /// The enemy-spawn interval timer fired this frame.
    pub enemy_spawn_due: bool,
    /// The player-respawn interval timer fired this frame.
    pub falcon_spawn_due: bool,
    /// The fire button was freshly pressed this frame.
    pub fire_just_pressed: bool,
    /// The steer-left key is held.
    pub left_pressed: bool,
    /// The steer-right key is held.
    pub right_pressed: bool,
}

/// The chain of the per-tick stages through ten intermediate states:
/// each consecutive pair is related by that stage's own postcondition,
/// in the fixed order — spawners and fire control, then the path
/// follower and the linear motion integrator, then the two collision
/// passes, then the explosion lifecycle.
pub open spec fn tick_chain(
    pre: Game,
    mids: Seq<Game>,
    post: Game,
    delta_us: int,
    now_us: int,
    input: TickInput,
) -> bool {
    &&& mids.len() == 10
    &&& if input.enemy_spawn_due {
        star_fighter_spawn_rel(pre, mids[0])
    } else {
        mids[0] == pre
    }
    &&& if input.falcon_spawn_due {
        falcon_spawn_rel(mids[0], mids[1], now_us)
    } else {
        mids[1] == mids[0]
    }
    &&& falcon_input_rel(mids[1], mids[2], input.left_pressed, input.right_pressed)
    &&& falcon_laser_rel(mids[2], mids[3], input.fire_just_pressed)
    &&& star_fighter_fire_rel(mids[3], mids[4])
    &&& star_fighter_path_rel(mids[4], mids[5], delta_us)
    &&& movable_rel(mids[5], mids[6], delta_us)
    &&& falcon_hits_star_fighter_rel(mids[6], mids[7])
    &&& star_fighter_hits_falcon_rel(mids[7], mids[8], now_us)
    &&& spawn_explosion_rel(mids[8], mids[9])
    &&& explode_aircraft_rel(mids[9], post, delta_us)
}

/// One tick relates the old and new session states as the composition
/// of the stage contracts.
pub open spec fn tick_rel(
    pre: Game,
    post: Game,
    delta_us: int,
    now_us: int,
    input: TickInput,
) -> bool {
    exists|mids: Seq<Game>| tick_chain(pre, mids, post, delta_us, now_us, input)
}

impl Game {
    /// Advance the whole simulation by one tick: the new state is the
    /// composition of the stage contracts in the fixed order, so later
    /// stages observe state the earlier ones mutated within the same
    /// tick.  The session invariant holds afterwards — in particular
    /// the population bound and counter consistency — and every pending
    /// explosion request has been consumed within the tick.
    pub fn tick(&mut self, delta_us: i64, now_us: i64, input: TickInput)
        requires
            old(self).wf(),
            0 <= delta_us <= DT_LIMIT,
            0 <= now_us <= 1_000_000_000_000_000,
        ensures
            final(self).wf(),
            tick_rel(*old(self), *final(self), delta_us as int, now_us as int, input),
            final(self).win == old(self).win,
            final(self).explosion_requests@.len() == 0,
    {
        let ghost g0 = *self;
        if input.enemy_spawn_due {
            self.star_fighter_spawn_system();
        }
        let ghost m0 = *self;
        if input.falcon_spawn_due {
            self.falcon_spawn_system(now_us);
        }
        let ghost m1 = *self;
        self.falcon_input_system(input.left_pressed, input.right_pressed);
        let ghost m2 = *self;
        self.falcon_laser_system(input.fire_just_pressed);
        let ghost m3 = *self;
        self.star_fighter_fire_system();
        let ghost m4 = *self;
        self.star_fighter_path_system(delta_us);
        let ghost m5 = *self;
        self.movable_system(delta_us);
        let ghost m6 = *self;
        self.falcon_hits_star_fighter_system();
        let ghost m7 = *self;
        self.star_fighter_hits_falcon_system(now_us);
        let ghost m8 = *self;
        self.spawn_explosion_system();
        let ghost m9 = *self;
        self.explode_aircraft_system(delta_us);
        proof {
            let mids = seq![m0, m1, m2, m3, m4, m5, m6, m7, m8, m9];
            assert(mids.len() == 10);
            assert(mids[0] == m0 && mids[1] == m1 && mids[2] == m2 && mids[3] == m3 && mids[4]
                == m4 && mids[5] == m5 && mids[6] == m6 && mids[7] == m7 && mids[8] == m8
                && mids[9] == m9);
            assert(tick_chain(g0, mids, *self, delta_us as int, now_us as int, input));
        }
    }
}

} // verus!
