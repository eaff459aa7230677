use vstd::prelude::*;
use crate::components::{
    Explosion, ExplosionTimer, ExplosionToSpawn, Vec2i, DT_LIMIT, EXPLOSION_FRAME_US,
    EXPLOSION_LEN,
};
use crate::game::{explosion_wf, ExplosionAnim, Game};

verus! {

/// The animation entity a spawn request turns into: frame zero, a fresh
/// frame timer, at the requested position.
pub open spec fn explosion_of(req: ExplosionToSpawn) -> ExplosionAnim {
    ExplosionAnim {
        tag: Explosion,
        pos: req.0,
        frame: 0,
        timer: ExplosionTimer { interval_us: EXPLOSION_FRAME_US, elapsed_us: 0 },
    }
}

/// One tick of an explosion's repeating frame timer: accumulate the
/// elapsed time; on crossing the interval, advance one frame and keep
/// the remainder.
pub open spec fn step_explosion(x: ExplosionAnim, delta_us: int) -> ExplosionAnim {
    let el = x.timer.elapsed_us + delta_us;
    if el >= x.timer.interval_us {
        ExplosionAnim {
            frame: (x.frame + 1) as u32,
            timer: ExplosionTimer {
                elapsed_us: (el % (x.timer.interval_us as int)) as i64,
                ..x.timer
            },
            ..x
        }
    } else {
        ExplosionAnim { timer: ExplosionTimer { elapsed_us: el as i64, ..x.timer }, ..x }
    }
}

/// All explosions after one tick: each is ticked, and those whose frame
/// index reached the sprite-sheet length are destroyed, order kept.
pub open spec fn step_explosions(s: Seq<ExplosionAnim>, delta_us: int) -> Seq<ExplosionAnim>
    decreases s.len(),
{
    if s.len() == 0 {
        Seq::empty()
    } else {
        let rest = step_explosions(s.drop_last(), delta_us);
        let m = step_explosion(s.last(), delta_us);
        if m.frame >= EXPLOSION_LEN {
            rest
        } else {
            rest.push(m)
        }
    }
}

/// An explosion after `k` ticks of equal elapsed time, or nothing once
/// it was destroyed.
pub open spec fn explosion_life(x: ExplosionAnim, delta_us: int, k: nat) -> Option<ExplosionAnim>
    decreases k,
{
    if k == 0 {
        Some(x)
    } else {
        match explosion_life(x, delta_us, (k - 1) as nat) {
            None => None,
            Some(y) => {
                let m = step_explosion(y, delta_us);
                if m.frame >= EXPLOSION_LEN {
                    None
                } else {
                    Some(m)
                }
            },
        }
    }
}

/// Explosion termination: an explosion ticked at exactly its frame
/// interval lives through the first `EXPLOSION_LEN - 1` ticks, showing
/// frame `k` after `k` ticks, and is destroyed on tick `EXPLOSION_LEN`
/// and thereafter — after exactly `EXPLOSION_LEN * EXPLOSION_FRAME_US`
/// of simulated time, never earlier.
pub proof fn lemma_explosion_termination(pos: Vec2i, k: nat)
    ensures
        ({
            let x0 = ExplosionAnim {
                tag: Explosion,
                pos,
                frame: 0,
                timer: ExplosionTimer { interval_us: EXPLOSION_FRAME_US, elapsed_us: 0 },
            };
            &&& k < EXPLOSION_LEN ==> explosion_life(x0, EXPLOSION_FRAME_US as int, k) == Some(
                ExplosionAnim { frame: k as u32, ..x0 },
            )
            &&& k >= EXPLOSION_LEN ==> explosion_life(x0, EXPLOSION_FRAME_US as int, k) is None
        }),
    decreases k,
{
    let x0 = ExplosionAnim {
        tag: Explosion,
        pos,
        frame: 0,
        timer: ExplosionTimer { interval_us: EXPLOSION_FRAME_US, elapsed_us: 0 },
    };
    if k > 0 {
        lemma_explosion_termination(pos, (k - 1) as nat);
        if k - 1 < EXPLOSION_LEN {
            let y = ExplosionAnim { frame: (k - 1) as u32, ..x0 };
            assert(step_explosion(y, EXPLOSION_FRAME_US as int) == ExplosionAnim {
                frame: k as u32,
                ..x0
            }) by {
                assert(EXPLOSION_FRAME_US as int % EXPLOSION_FRAME_US as int == 0);
            }
        }
    }
}

impl Game {
    /// Explosion spawner: turn every pending explosion request into a
    /// fresh animation entity at the requested position and consume the
    /// requests, all within the same tick they were emitted.
    pub fn spawn_explosion_system(&mut self)
        requires
            old(self).wf(),
        ensures
            spawn_explosion_rel(*old(self), *final(self)),
    {
        let ghost rq0 = self.explosion_requests@;
        let mut i: usize = 0;
        proof {
            assert(rq0.take(0).map_values(|r: ExplosionToSpawn| explosion_of(r))
                =~= Seq::<ExplosionAnim>::empty());
            assert(self.explosions@ =~= old(self).explosions@ + Seq::<ExplosionAnim>::empty());
        }
        while i < self.explosion_requests.len()
            invariant
                self.wf(),
                i <= rq0.len(),
                self.explosion_requests@ == rq0,
                self.explosions@ == old(self).explosions@ + rq0.take(i as int).map_values(
                    |r: ExplosionToSpawn| explosion_of(r),
                ),
                self.win == old(self).win,
                self.score == old(self).score,
                self.player_state == old(self).player_state,
                self.enemy_count == old(self).enemy_count,
                self.path_maker == old(self).path_maker,
                self.falcon == old(self).falcon,
                self.enemies@ == old(self).enemies@,
                self.lasers@ == old(self).lasers@,
            decreases rq0.len() - i,
        {
            let req = self.explosion_requests[i];
            let x = ExplosionAnim {
                tag: Explosion,
                pos: req.0,
                frame: 0,
                timer: ExplosionTimer::default(),
            };
            self.explosions.push(x);
            proof {
                assert(rq0.take(i as int + 1).map_values(|r: ExplosionToSpawn| explosion_of(r))
                    =~= rq0.take(i as int).map_values(|r: ExplosionToSpawn| explosion_of(r)).push(
                    explosion_of(rq0[i as int]),
                ));
            }
            i = i + 1;
        }
        proof {
            assert(rq0.take(rq0.len() as int) =~= rq0);
        }
        self.explosion_requests.clear();
    }

    /// Explosion lifecycle: advance every explosion's frame timer by the
    /// elapsed time; an explosion whose frame index reaches the
    /// sprite-sheet length is destroyed at once.
    pub fn explode_aircraft_system(&mut self, delta_us: i64)
        requires
            old(self).wf(),
            0 <= delta_us <= DT_LIMIT,
        ensures
            explode_aircraft_rel(*old(self), *final(self), delta_us as int),
    {
        let ghost xs0 = self.explosions@;
        let mut out: Vec<ExplosionAnim> = Vec::new();
        let mut i: usize = 0;
        proof {
            assert(xs0.take(0) =~= Seq::<ExplosionAnim>::empty());
        }
        while i < self.explosions.len()
            invariant
                self.wf(),
                i <= xs0.len(),
                self.explosions@ == xs0,
                0 <= delta_us <= DT_LIMIT,
                out@ == step_explosions(xs0.take(i as int), delta_us as int),
                forall|k: int| 0 <= k < out@.len() ==> explosion_wf(#[trigger] out@[k]),
            decreases xs0.len() - i,
        {
            let x = self.explosions[i];
            let el: i64 = x.timer.elapsed_us + delta_us;
            let m: ExplosionAnim;
            if el >= x.timer.interval_us {
                let rem: i64 = ((el as u64) % (x.timer.interval_us as u64)) as i64;
                m = ExplosionAnim {
                    frame: x.frame + 1,
                    timer: ExplosionTimer { elapsed_us: rem, ..x.timer },
                    ..x
                };
            } else {
                m = ExplosionAnim { timer: ExplosionTimer { elapsed_us: el, ..x.timer }, ..x };
            }
            if m.frame < EXPLOSION_LEN {
                out.push(m);
            }
            proof {
                assert(xs0.take(i as int + 1).drop_last() =~= xs0.take(i as int));
                assert(xs0.take(i as int + 1).last() == xs0[i as int]);
            }
            i = i + 1;
        }
        proof {
            assert(xs0.take(xs0.len() as int) =~= xs0);
        }
        self.explosions = out;
    }
}

pub open spec fn spawn_explosion_rel(pre: Game, post: Game) -> bool {
    &&& post.wf()
    &&& post.explosions@ == pre.explosions@ + pre.explosion_requests@.map_values(
        |r: ExplosionToSpawn| explosion_of(r),
    )
    &&& post.explosion_requests@.len() == 0
    &&& post.win == pre.win
    &&& post.score == pre.score
    &&& post.player_state == pre.player_state
    &&& post.enemy_count == pre.enemy_count
    &&& post.path_maker == pre.path_maker
    &&& post.falcon == pre.falcon
    &&& post.enemies@ == pre.enemies@
    &&& post.lasers@ == pre.lasers@
}

pub open spec fn explode_aircraft_rel(pre: Game, post: Game, delta_us: int) -> bool {
    &&& post.wf()
    &&& post.explosions@ == step_explosions(pre.explosions@, delta_us)
    &&& post.win == pre.win
    &&& post.score == pre.score
    &&& post.player_state == pre.player_state
    &&& post.enemy_count == pre.enemy_count
    &&& post.path_maker == pre.path_maker
    &&& post.falcon == pre.falcon
    &&& post.enemies@ == pre.enemies@
    &&& post.lasers@ == pre.lasers@
    &&& post.explosion_requests@ == pre.explosion_requests@
}

} // verus!
