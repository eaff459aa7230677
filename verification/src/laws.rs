use vstd::prelude::*;
use crate::combat::score_iter;
use crate::components::{KILL_SCORE, STAR_FIGHTER_MAX};
use crate::game::Game;

verus! {

/// Bounded population: in every well-formed session state, the enemy
/// population counter equals the number of live enemy entities and
/// never exceeds its bound.  Every system of the session preserves
/// well-formedness, so this holds after every tick.
pub proof fn lemma_bounded_population(g: Game)
    requires
        g.wf(),
    ensures
        g.enemy_count as int == g.enemies@.len(),
        g.enemy_count <= STAR_FIGHTER_MAX,
{
}

/// Score monotonicity under kills: starting from zero, `k` consecutive
/// kill awards (with no player death in between) yield exactly `k`
/// times the kill score, as long as the counter does not saturate.
pub proof fn lemma_score_after_kills(k: nat)
    requires
        k * KILL_SCORE <= u32::MAX,
    ensures
        score_iter(0, k) == k * KILL_SCORE,
    decreases k,
{
    if k > 0 {
        assert((k - 1) * KILL_SCORE == k * KILL_SCORE - KILL_SCORE) by (nonlinear_arith);
        lemma_score_after_kills((k - 1) as nat);
    }
}

/// Kill awards compose: `a` kills followed by `b` kills award as `a + b`
/// consecutive kills, so the per-tick kill counts of successive
/// collision passes add up.
pub proof fn lemma_score_iter_add(s: int, a: nat, b: nat)
    ensures
        score_iter(score_iter(s, a), b) == score_iter(s, a + b),
    decreases b,
{
    if b > 0 {
        lemma_score_iter_add(s, a, (b - 1) as nat);
        assert(a + b - 1 == (a + (b - 1) as nat));
    }
}

/// A kill award never decreases the score.
pub proof fn lemma_score_monotonic(s: int, k: nat)
    requires
        0 <= s <= u32::MAX,
    ensures
        score_iter(s, k) >= s,
    decreases k,
{
    if k > 0 {
        lemma_score_monotonic(s, (k - 1) as nat);
    }
}

} // verus!
