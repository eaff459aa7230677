use vstd::prelude::*;
use crate::components::{ExplosionToSpawn, KILL_SCORE, SPRITE_SCALE};
use crate::game::{enemy_wf, laser_wf, EnemyShip, FalconShip, Game, LaserShot};
use crate::geom::{boxes_collide, collide};

verus! {

/// A player projectile and an enemy craft overlap.
pub open spec fn laser_hits_enemy(l: LaserShot, e: EnemyShip) -> bool {
    boxes_collide(l.pos, l.size, SPRITE_SCALE as int, e.pos, e.size, SPRITE_SCALE as int)
}

/// An enemy projectile and the player craft overlap.
pub open spec fn laser_hits_falcon(l: LaserShot, f: FalconShip) -> bool {
    boxes_collide(l.pos, l.size, SPRITE_SCALE as int, f.pos, f.size, SPRITE_SCALE as int)
}

/// Index of the first enemy at or after `j` that is not yet consumed
/// this tick and overlaps the projectile.
pub open spec fn first_live_hit(
    l: LaserShot,
    es: Seq<EnemyShip>,
    killed: Seq<bool>,
    j: int,
) -> Option<int>
    decreases es.len() - j,
{
    if j < 0 || j >= es.len() {
        None
    } else if !killed[j] && laser_hits_enemy(l, es[j]) {
        Some(j)
    } else {
        first_live_hit(l, es, killed, j + 1)
    }
}

/// Outcome of the player-projectiles-versus-enemies pass: which enemies
/// were consumed, which projectiles were consumed, how many kills were
/// scored, and the explosion requests emitted, in order.
pub struct PassA {
    pub killed: Seq<bool>,
    pub consumed: Seq<bool>,
    pub kills: nat,
    pub requests: Seq<ExplosionToSpawn>,
}

/// The pass, one projectile at a time in spawn order: a player-owned
/// projectile consumes the first not-yet-consumed enemy it overlaps, and
/// is itself consumed; each consumption also emits one explosion request
/// at the enemy's position and one kill.  Consumed entities are excluded
/// from every later test within the tick.
pub open spec fn pass_a_rec(ls: Seq<LaserShot>, es: Seq<EnemyShip>) -> PassA
    decreases ls.len(),
{
    if ls.len() == 0 {
        PassA {
            killed: Seq::new(es.len(), |i: int| false),
            consumed: Seq::empty(),
            kills: 0,
            requests: Seq::empty(),
        }
    } else {
        let st = pass_a_rec(ls.drop_last(), es);
        let l = ls.last();
        if l.from_falcon.is_some() {
            match first_live_hit(l, es, st.killed, 0) {
                Some(j) => PassA {
                    killed: st.killed.update(j, true),
                    consumed: st.consumed.push(true),
                    kills: st.kills + 1,
                    requests: st.requests.push(ExplosionToSpawn(es[j].pos)),
                },
                None => PassA { consumed: st.consumed.push(false), ..st },
            }
        } else {
            PassA { consumed: st.consumed.push(false), ..st }
        }
    }
}

/// The enemies left over after the pass, in order.
pub open spec fn remove_killed(es: Seq<EnemyShip>, killed: Seq<bool>) -> Seq<EnemyShip>
    decreases es.len(),
{
    if es.len() == 0 {
        Seq::empty()
    } else {
        let rest = remove_killed(es.drop_last(), killed.drop_last());
        if killed[es.len() - 1] {
            rest
        } else {
            rest.push(es.last())
        }
    }
}

/// The projectiles left over after the pass, in order.
pub open spec fn remove_consumed(ls: Seq<LaserShot>, consumed: Seq<bool>) -> Seq<LaserShot>
    decreases ls.len(),
{
    if ls.len() == 0 {
        Seq::empty()
    } else {
        let rest = remove_consumed(ls.drop_last(), consumed.drop_last());
        if consumed[ls.len() - 1] {
            rest
        } else {
            rest.push(ls.last())
        }
    }
}

/// One kill's worth of score: the fixed award, saturating at the
/// counter's capacity.
pub open spec fn score_bump(s: int) -> int {
    if s + KILL_SCORE <= u32::MAX {
        s + KILL_SCORE
    } else {
        u32::MAX as int
    }
}

/// The score after `k` kills.
pub open spec fn score_iter(s: int, k: nat) -> int
    decreases k,
{
    if k == 0 {
        s
    } else {
        score_bump(score_iter(s, (k - 1) as nat))
    }
}

pub open spec fn count_true(s: Seq<bool>) -> nat
    decreases s.len(),
{
    if s.len() == 0 {
        0
    } else {
        (count_true(s.drop_last()) + if s.last() {
            1nat
        } else {
            0nat
        }) as nat
    }
}

proof fn lemma_count_true_le(s: Seq<bool>)
    ensures
        count_true(s) <= s.len(),
    decreases s.len(),
{
    if s.len() > 0 {
        lemma_count_true_le(s.drop_last());
    }
}

proof fn lemma_count_true_update(s: Seq<bool>, j: int)
    requires
        0 <= j < s.len(),
        !s[j],
    ensures
        count_true(s.update(j, true)) == count_true(s) + 1,
    decreases s.len(),
{
    let u = s.update(j, true);
    if j == s.len() - 1 {
        assert(u.drop_last() =~= s.drop_last());
        assert(u.last());
    } else {
        assert(u.drop_last() =~= s.drop_last().update(j, true));
        assert(u.last() == s.last());
        lemma_count_true_update(s.drop_last(), j);
    }
}

/// The result of `first_live_hit` is a not-yet-consumed overlapping
/// enemy within range.
proof fn lemma_first_live_hit(l: LaserShot, es: Seq<EnemyShip>, killed: Seq<bool>, j: int)
    requires
        0 <= j,
    ensures
        match first_live_hit(l, es, killed, j) {
            Some(h) => j <= h < es.len() && !killed[h] && laser_hits_enemy(l, es[h]),
            None => true,
        },
    decreases es.len() - j,
{
    if j < es.len() {
        if !(!killed[j] && laser_hits_enemy(l, es[j])) {
            lemma_first_live_hit(l, es, killed, j + 1);
        }
    }
}

/// Exactly-once consumption: the pass never scores more kills than there
/// are enemies, nor more than there are projectiles; the consumed-enemy
/// flags account for every kill exactly once, and every kill emits
/// exactly one explosion request.
pub proof fn lemma_pass_a_bounds(ls: Seq<LaserShot>, es: Seq<EnemyShip>)
    ensures
        ({
            let st = pass_a_rec(ls, es);
            &&& st.killed.len() == es.len()
            &&& st.consumed.len() == ls.len()
            &&& st.kills == count_true(st.killed)
            &&& st.kills <= es.len()
            &&& st.kills <= ls.len()
            &&& st.requests.len() == st.kills
        }),
    decreases ls.len(),
{
    let st = pass_a_rec(ls, es);
    if ls.len() == 0 {
        assert(count_true(st.killed) == 0 && st.killed.len() == es.len()) by {
            lemma_count_true_new(es.len() as nat);
        }
    } else {
        lemma_pass_a_bounds(ls.drop_last(), es);
        let prev = pass_a_rec(ls.drop_last(), es);
        let l = ls.last();
        if l.from_falcon.is_some() {
            match first_live_hit(l, es, prev.killed, 0) {
                Some(j) => {
                    lemma_first_live_hit(l, es, prev.killed, 0);
                    lemma_count_true_update(prev.killed, j);
                    lemma_count_true_le(st.killed);
                },
                None => {},
            }
        }
    }
}

/// Removing the flagged enemies leaves exactly the unflagged ones.
proof fn lemma_remove_killed_len(es: Seq<EnemyShip>, killed: Seq<bool>)
    requires
        killed.len() == es.len(),
    ensures
        remove_killed(es, killed).len() == es.len() - count_true(killed),
    decreases es.len(),
{
    if es.len() > 0 {
        lemma_remove_killed_len(es.drop_last(), killed.drop_last());
        lemma_count_true_le(killed.drop_last());
    }
}

proof fn lemma_count_true_new(n: nat)
    ensures
        count_true(Seq::new(n, |i: int| false)) == 0,
    decreases n,
{
    let s = Seq::new(n, |i: int| false);
    if n > 0 {
        lemma_count_true_new((n - 1) as nat);
        assert(s.drop_last() =~= Seq::new((n - 1) as nat, |i: int| false));
    }
}

/// Index of the first enemy-owned projectile at or after `j` that
/// overlaps the player craft.
pub open spec fn first_falcon_hit(ls: Seq<LaserShot>, f: FalconShip, j: int) -> Option<int>
    decreases ls.len() - j,
{
    if j < 0 || j >= ls.len() {
        None
    } else if ls[j].from_enemy.is_some() && laser_hits_falcon(ls[j], f) {
        Some(j)
    } else {
        first_falcon_hit(ls, f, j + 1)
    }
}

impl Game {
    /// Collision pass A: player projectiles versus enemies.  Each
    /// surviving projectile is tested against the enemies in spawn
    /// order; the first overlap consumes both entities exactly once,
    /// decrements the enemy population, emits an explosion request at
    /// the enemy's position, and awards the kill score.
    pub fn falcon_hits_star_fighter_system(&mut self)
        requires
            old(self).wf(),
        ensures
            falcon_hits_star_fighter_rel(*old(self), *final(self)),
    {
        let ghost ls0 = self.lasers@;
        let ghost es0 = self.enemies@;
        let n_en: usize = self.enemies.len();
        let mut killed: Vec<bool> = vec![false; n_en];
        let mut out_lasers: Vec<LaserShot> = Vec::new();
        let mut kills: u32 = 0;
        let mut i: usize = 0;
        proof {
            assert(ls0.take(0) =~= Seq::<LaserShot>::empty());
            assert(killed@ =~= Seq::new(es0.len(), |k: int| false));
            assert(self.explosion_requests@ =~= old(self).explosion_requests@
                + Seq::<ExplosionToSpawn>::empty());
        }
        while i < self.lasers.len()
            invariant
                self.wf(),
                i <= ls0.len(),
                n_en == es0.len(),
                self.lasers@ == ls0,
                self.enemies@ == es0,
                self.win == old(self).win,
                self.player_state == old(self).player_state,
                self.path_maker == old(self).path_maker,
                self.falcon == old(self).falcon,
                self.enemy_count == old(self).enemy_count,
                self.explosions@ == old(self).explosions@,
                killed@.len() == es0.len(),
                ({
                    let st = pass_a_rec(ls0.take(i as int), es0);
                    &&& killed@ == st.killed
                    &&& out_lasers@ == remove_consumed(ls0.take(i as int), st.consumed)
                    &&& kills as nat == st.kills
                    &&& self.explosion_requests@ == old(self).explosion_requests@ + st.requests
                    &&& self.score.0 as int == score_iter(old(self).score.0 as int, st.kills)
                }),
                kills as int <= es0.len(),
                forall|k: int| 0 <= k < out_lasers@.len() ==> laser_wf(#[trigger] out_lasers@[k]),
            decreases ls0.len() - i,
        {
            let ghost st_i = pass_a_rec(ls0.take(i as int), es0);
            proof {
                lemma_pass_a_bounds(ls0.take(i as int), es0);
                assert(ls0.take(i as int + 1).drop_last() =~= ls0.take(i as int));
                assert(ls0.take(i as int + 1).last() == ls0[i as int]);
            }
            let l = self.lasers[i];
            let mut found: bool = false;
            let mut hit_j: usize = 0;
            if l.from_falcon.is_some() {
                let mut j: usize = 0;
                while j < n_en && !found
                    invariant
                        j <= n_en,
                        n_en == es0.len(),
                        killed@.len() == es0.len(),
                        self.enemies@ == es0,
                        self.wf(),
                        laser_wf(l),
                        found ==> (hit_j < n_en && first_live_hit(l, es0, killed@, 0) == Some(
                            hit_j as int,
                        )),
                        !found ==> first_live_hit(l, es0, killed@, 0) == first_live_hit(
                            l,
                            es0,
                            killed@,
                            j as int,
                        ),
                    decreases n_en - j + (if found {
                        0int
                    } else {
                        1int
                    }),
                {
                    let e = self.enemies[j];
                    if !killed[j] && collide(
                        l.pos,
                        l.size,
                        SPRITE_SCALE,
                        e.pos,
                        e.size,
                        SPRITE_SCALE,
                    ) {
                        found = true;
                        hit_j = j;
                    } else {
                        j = j + 1;
                    }
                }
                proof {
                    if !found {
                        assert(first_live_hit(l, es0, killed@, n_en as int) is None);
                    }
                }
            }
            if found {
                killed[hit_j] = true;
                kills = kills + 1;
                let epos = self.enemies[hit_j].pos;
                self.explosion_requests.push(ExplosionToSpawn(epos));
                if self.score.0 <= u32::MAX - KILL_SCORE {
                    self.score = crate::components::Score(self.score.0 + KILL_SCORE);
                } else {
                    self.score = crate::components::Score(u32::MAX);
                }
                proof {
                    let st1 = pass_a_rec(ls0.take(i as int + 1), es0);
                    lemma_pass_a_bounds(ls0.take(i as int + 1), es0);
                    assert(st1.consumed.drop_last() =~= st_i.consumed);
                    assert(st1.killed == st_i.killed.update(hit_j as int, true));
                    assert(out_lasers@ == remove_consumed(ls0.take(i as int + 1), st1.consumed));
                }
            } else {
                out_lasers.push(l);
                proof {
                    let st1 = pass_a_rec(ls0.take(i as int + 1), es0);
                    assert(st1.consumed.drop_last() =~= st_i.consumed);
                    assert(out_lasers@ == remove_consumed(ls0.take(i as int + 1), st1.consumed));
                }
            }
            i = i + 1;
        }
        proof {
            assert(ls0.take(ls0.len() as int) =~= ls0);
            lemma_pass_a_bounds(ls0, es0);
            lemma_remove_killed_len(es0, killed@);
        }
        self.lasers = out_lasers;
        self.enemy_count = self.enemy_count - kills;
        let ghost kfin = killed@;
        let mut out_en: Vec<EnemyShip> = Vec::new();
        let mut j2: usize = 0;
        proof {
            assert(es0.take(0) =~= Seq::<EnemyShip>::empty());
            assert(kfin.take(0) =~= Seq::<bool>::empty());
        }
        while j2 < self.enemies.len()
            invariant
                j2 <= es0.len(),
                self.enemies@ == es0,
                killed@ == kfin,
                kfin.len() == es0.len(),
                out_en@ == remove_killed(es0.take(j2 as int), kfin.take(j2 as int)),
                forall|k: int| 0 <= k < out_en@.len() ==> enemy_wf(#[trigger] out_en@[k]),
                forall|k: int| 0 <= k < es0.len() ==> enemy_wf(#[trigger] es0[k]),
            decreases es0.len() - j2,
        {
            proof {
                assert(es0.take(j2 as int + 1).drop_last() =~= es0.take(j2 as int));
                assert(kfin.take(j2 as int + 1).drop_last() =~= kfin.take(j2 as int));
                assert(es0.take(j2 as int + 1).last() == es0[j2 as int]);
                assert(kfin.take(j2 as int + 1)[es0.take(j2 as int + 1).len() - 1] == kfin[j2 as int]);
            }
            let was_killed = killed[j2];
            if !was_killed {
                out_en.push(self.enemies[j2]);
            }
            j2 = j2 + 1;
        }
        proof {
            assert(es0.take(es0.len() as int) =~= es0);
            assert(kfin.take(kfin.len() as int) =~= kfin);
        }
        self.enemies = out_en;
    }

    /// Collision pass B: enemy projectiles versus the player.  With a
    /// live player, the first overlapping enemy projectile in spawn
    /// order destroys the player and itself, records the death time,
    /// emits an explosion request at the player's position, and resets
    /// the score to zero; later projectiles are not considered.
    pub fn star_fighter_hits_falcon_system(&mut self, now_us: i64)
        requires
            old(self).wf(),
            0 <= now_us <= 1_000_000_000_000_000,
        ensures
            star_fighter_hits_falcon_rel(*old(self), *final(self), now_us as int),
    {
        let ghost ls0 = self.lasers@;
        let f = match &self.falcon {
            Some(f) => *f,
            None => {
                return ;
            },
        };
        let n = self.lasers.len();
        let mut j: usize = 0;
        let mut found: bool = false;
        let mut hit_j: usize = 0;
        while j < n && !found
            invariant
                j <= n,
                n == ls0.len(),
                self.lasers@ == ls0,
                self.wf(),
                *self == *old(self),
                old(self).falcon == Some(f),
                found ==> (hit_j < n && first_falcon_hit(ls0, f, 0) == Some(hit_j as int)),
                !found ==> first_falcon_hit(ls0, f, 0) == first_falcon_hit(ls0, f, j as int),
            decreases n - j + (if found {
                0int
            } else {
                1int
            }),
        {
            let l = self.lasers[j];
            if l.from_enemy.is_some() && collide(
                l.pos,
                l.size,
                SPRITE_SCALE,
                f.pos,
                f.size,
                SPRITE_SCALE,
            ) {
                found = true;
                hit_j = j;
            } else {
                j = j + 1;
            }
        }
        if found {
            self.falcon = None;
            self.player_state.shot(now_us);
            self.lasers.remove(hit_j);
            self.explosion_requests.push(ExplosionToSpawn(f.pos));
            self.score = crate::components::Score(0);
        }
    }
}

pub open spec fn falcon_hits_star_fighter_rel(pre: Game, post: Game) -> bool {
    &&& post.wf()
    &&& ({
        let st = pass_a_rec(pre.lasers@, pre.enemies@);
        &&& post.enemies@ == remove_killed(pre.enemies@, st.killed)
        &&& post.lasers@ == remove_consumed(pre.lasers@, st.consumed)
        &&& post.explosion_requests@ == pre.explosion_requests@
            + st.requests
        &&& post.score.0 as int == score_iter(pre.score.0 as int, st.kills)
        &&& post.enemy_count as int == pre.enemy_count - st.kills
        &&& st.kills <= pre.enemies@.len()
        &&& st.kills <= pre.lasers@.len()
    })
    &&& post.win == pre.win
    &&& post.player_state == pre.player_state
    &&& post.path_maker == pre.path_maker
    &&& post.falcon == pre.falcon
    &&& post.explosions@ == pre.explosions@
}

pub open spec fn star_fighter_hits_falcon_rel(pre: Game, post: Game, now_us: int) -> bool {
    &&& post.wf()
    &&& ({
        match pre.falcon {
            Some(f) => match first_falcon_hit(pre.lasers@, f, 0) {
                Some(j) => {
                    &&& post.falcon is None
                    &&& post.player_state.on == false
                    &&& post.player_state.last_shot == now_us
                    &&& post.score.0 == 0
                    &&& post.lasers@ == pre.lasers@.remove(j)
                    &&& post.explosion_requests@ == pre.explosion_requests@.push(
                        ExplosionToSpawn(f.pos),
                    )
                },
                None => post == pre,
            },
            None => post == pre,
        }
    })
    &&& post.win == pre.win
    &&& post.enemy_count == pre.enemy_count
    &&& post.path_maker == pre.path_maker
    &&& post.enemies@ == pre.enemies@
    &&& post.explosions@ == pre.explosions@
}

} // verus!
