//! The weighted spawner: a per-spawn-point timer plus a weighted random
//! choice among entity kinds. A `None` table entry is a selectable outcome
//! meaning "no spawn".

use vstd::prelude::*;

use crate::components::SpawnableType;
use crate::constants::ARENA_MAX_X;
use crate::constants::ARENA_MIN_X;
use crate::constants::ARENA_SPAWN_OFFSET;
use crate::math::sat_sub;
use crate::math::sat_sub_i64;
use crate::rng::gen_range_i64;
use crate::rng::new_thread_rng;

verus! {

/// Table of spawn outcomes with their relative weights. The weights need
/// not sum to any particular value; an entry's chance is its weight over
/// the total.
pub type SpawnProbabilities = Vec<(Option<SpawnableType>, i64)>;

/// All weights in the table are nonnegative.
pub open spec fn weights_nonneg(s: Seq<(Option<SpawnableType>, i64)>) -> bool {
    forall|i: int| 0 <= i < s.len() ==> (#[trigger] s[i]).1 >= 0
}

/// Sum of the weights of the entries from index `i` on.
pub open spec fn weight_sum_from(s: Seq<(Option<SpawnableType>, i64)>, i: int) -> int
    decreases s.len() - i,
{
    if i < 0 || i >= s.len() {
        0
    } else {
        s[i].1 + weight_sum_from(s, i + 1)
    }
}

/// Total weight of the table.
pub open spec fn total_weight(s: Seq<(Option<SpawnableType>, i64)>) -> int {
    weight_sum_from(s, 0)
}

pub proof fn lemma_weight_sum_from_nonneg(s: Seq<(Option<SpawnableType>, i64)>, i: int)
    requires
        weights_nonneg(s),
    ensures
        weight_sum_from(s, i) >= 0,
    decreases s.len() - i,
{
    if 0 <= i < s.len() {
        lemma_weight_sum_from_nonneg(s, i + 1);
    }
}

/// The entry selected by a draw of `pos`, walking the table from entry `i`
/// with `acc` weight already accumulated: the first entry whose cumulative
/// weight strictly exceeds `pos`, the last entry as a fallback.
pub open spec fn chosen_from(
    s: Seq<(Option<SpawnableType>, i64)>,
    pos: int,
    i: int,
    acc: int,
) -> Option<SpawnableType>
    decreases s.len() - i,
{
    if i < 0 || i >= s.len() {
        s[s.len() - 1].0
    } else if acc + s[i].1 > pos {
        s[i].0
    } else {
        chosen_from(s, pos, i + 1, acc + s[i].1)
    }
}

/// The entry a uniform draw of `pos` from `[0, total_weight)` selects.
pub open spec fn spec_chosen(s: Seq<(Option<SpawnableType>, i64)>, pos: int) -> Option<
    SpawnableType,
> {
    chosen_from(s, pos, 0, 0)
}

/// Total weight of the table, computed by one pass.
pub fn calculate_total_probabilities(probs: &SpawnProbabilities) -> (r: i64)
    requires
        weights_nonneg(probs@),
        total_weight(probs@) <= i64::MAX,
    ensures
        r as int == total_weight(probs@),
{
    let ghost s = probs@;
    let mut acc: i64 = 0;
    let mut i: usize = 0;
    while i < probs.len()
        invariant
            0 <= i <= s.len(),
            probs@ == s,
            weights_nonneg(s),
            total_weight(s) <= i64::MAX,
            acc >= 0,
            acc as int == total_weight(s) - weight_sum_from(s, i as int),
        decreases s.len() - i,
    {
        proof {
            lemma_weight_sum_from_nonneg(s, i + 1);
        }
        acc = acc + probs[i].1;
        i = i + 1;
    }
    acc
}

/// The table entry selected by the already-drawn `pos`, against the
/// precomputed total weight.
pub fn choose_entity_precalculated(
    total_probs: i64,
    probs: &SpawnProbabilities,
    pos: i64,
) -> (r: Option<SpawnableType>)
    requires
        probs@.len() > 0,
        weights_nonneg(probs@),
        total_probs as int == total_weight(probs@),
    ensures
        r == spec_chosen(probs@, pos as int),
{
    let ghost s = probs@;
    let mut acc: i64 = 0;
    let mut i: usize = 0;
    while i < probs.len()
        invariant
            0 <= i <= s.len(),
            s.len() > 0,
            probs@ == s,
            weights_nonneg(s),
            total_probs as int == total_weight(s),
            acc >= 0,
            acc as int == total_weight(s) - weight_sum_from(s, i as int),
            spec_chosen(s, pos as int) == chosen_from(s, pos as int, i as int, acc as int),
        decreases s.len() - i,
    {
        proof {
            lemma_weight_sum_from_nonneg(s, i + 1);
        }
        let w: i64 = probs[i].1;
        if acc + w > pos {
            return probs[i].0;
        }
        acc = acc + w;
        i = i + 1;
    }
    probs[probs.len() - 1].0
}

/// A random table entry, drawn uniformly by weight.
pub fn choose_random_entity(probs: &SpawnProbabilities) -> (r: Option<SpawnableType>)
    requires
        probs@.len() > 0,
        weights_nonneg(probs@),
        total_weight(probs@) > 0,
        total_weight(probs@) <= i64::MAX,
    ensures
        exists|pos: i64|
            0 <= pos < total_weight(probs@) && r == spec_chosen(probs@, pos as int),
{
    let total: i64 = calculate_total_probabilities(probs);
    let mut rng = new_thread_rng();
    let pos: i64 = gen_range_i64(&mut rng, 0, total);
    let r = choose_entity_precalculated(total, probs, pos);
    proof {
        assert(0 <= pos < total_weight(probs@) && r == spec_chosen(probs@, pos as int));
    }
    r
}

/// A spawn x-position drawn uniformly from the arena width minus the edge
/// margin on each side.
pub fn choose_position() -> (r: i64)
    ensures
        ARENA_MIN_X + ARENA_SPAWN_OFFSET <= r < ARENA_MAX_X - ARENA_SPAWN_OFFSET,
{
    let low: i64 = ARENA_MIN_X + ARENA_SPAWN_OFFSET;
    let high: i64 = ARENA_MAX_X - ARENA_SPAWN_OFFSET;
    let mut rng = new_thread_rng();
    gen_range_i64(&mut rng, low, high)
}

/// Mathematical state of a spawn point.
pub ghost struct SpawnerView {
    pub probabilities: Seq<(Option<SpawnableType>, i64)>,
    pub period: int,
    pub timer: int,
    pub prob_space: int,
}

/// Well-formedness of a spawner: a non-empty table of nonnegative weights
/// whose positive total is cached in `prob_space`, and a positive period.
pub open spec fn spawner_inv(v: SpawnerView) -> bool {
    &&& v.probabilities.len() > 0
    &&& weights_nonneg(v.probabilities)
    &&& v.prob_space == total_weight(v.probabilities)
    &&& v.prob_space > 0
    &&& v.period > 0
}

/// The spawner fires a sample exactly when its timer has reached zero.
pub open spec fn spawner_fires(v: SpawnerView) -> bool {
    v.timer <= 0
}

/// The state after a call that found the timer still positive: the timer is
/// decremented by the elapsed time.
pub open spec fn spawner_after_miss(v: SpawnerView, dt: int) -> SpawnerView {
    SpawnerView { timer: sat_sub(v.timer, dt), ..v }
}

/// The state after a call that fired: the timer is increased by the period,
/// not reset to it, so overshoot accumulates and later fires come sooner
/// until a long tick has been caught up.
pub open spec fn spawner_after_fire(v: SpawnerView) -> SpawnerView {
    SpawnerView { timer: v.timer + v.period, ..v }
}

/// One spawn point: a probability table, a spawn period, and the countdown
/// timer toward the next spawn.
pub struct SpawnerComponent {
    probabilities: SpawnProbabilities,
    period: i64,
    timer: i64,
    prob_space: i64,
}

impl View for SpawnerComponent {
    type V = SpawnerView;

    closed spec fn view(&self) -> SpawnerView {
        SpawnerView {
            probabilities: self.probabilities@,
            period: self.period as int,
            timer: self.timer as int,
            prob_space: self.prob_space as int,
        }
    }
}

impl SpawnerComponent {
    /// A spawner over `probabilities`, firing every `period` once the first
    /// period has elapsed. The caller must bring a table with positive
    /// total weight.
    pub fn new(probabilities: SpawnProbabilities, period: i64) -> (s: Self)
        requires
            weights_nonneg(probabilities@),
            total_weight(probabilities@) > 0,
            total_weight(probabilities@) <= i64::MAX,
            period > 0,
        ensures
            s@.probabilities == probabilities@,
            s@.period == period as int,
            s@.timer == period as int,
            s@.prob_space == total_weight(probabilities@),
            spawner_inv(s@),
    {
        proof {
            if probabilities@.len() == 0 {
                assert(total_weight(probabilities@) == 0);
            }
        }
        let prob_space: i64 = calculate_total_probabilities(&probabilities);
        SpawnerComponent { probabilities, period, timer: period, prob_space }
    }

    /// Like `new`, but rejecting a table whose total weight is not positive
    /// instead of requiring the caller to rule it out.
    pub fn try_new(probabilities: SpawnProbabilities, period: i64) -> (r: Option<Self>)
        requires
            weights_nonneg(probabilities@),
            total_weight(probabilities@) <= i64::MAX,
            period > 0,
        ensures
            r is Some <==> total_weight(probabilities@) > 0,
            r matches Some(s) ==> {
                &&& s@.probabilities == probabilities@
                &&& s@.period == period as int
                &&& s@.timer == period as int
                &&& s@.prob_space == total_weight(probabilities@)
                &&& spawner_inv(s@)
            },
    {
        let total: i64 = calculate_total_probabilities(&probabilities);
        if total > 0 {
            Some(SpawnerComponent::new(probabilities, period))
        } else {
            None
        }
    }

    /// The current countdown value.
    pub fn timer_value(&self) -> (r: i64)
        ensures
            r as int == self@.timer,
    {
        self.timer
    }

    /// Advance the spawn timer by `dt` and, if it has run out, draw one
    /// sample: a uniform spawn x-position and a weighted choice from the
    /// table. While the timer is still positive nothing is returned.
    pub fn spawn_with_position(&mut self, dt: i64) -> (r: Option<(i64, Option<SpawnableType>)>)
        requires
            spawner_inv(old(self)@),
            dt >= 0,
        ensures
            spawner_inv(final(self)@),
            final(self)@.probabilities == old(self)@.probabilities,
            final(self)@.period == old(self)@.period,
            final(self)@.prob_space == old(self)@.prob_space,
            !spawner_fires(old(self)@) ==> r is None && final(self)@ == spawner_after_miss(
                old(self)@,
                dt as int,
            ),
            spawner_fires(old(self)@) ==> {
                &&& final(self)@ == spawner_after_fire(old(self)@)
                &&& r matches Some((x, kind)) && ARENA_MIN_X + ARENA_SPAWN_OFFSET <= x
                    < ARENA_MAX_X - ARENA_SPAWN_OFFSET && exists|pos: i64|
                    0 <= pos < old(self)@.prob_space && kind == spec_chosen(
                        old(self)@.probabilities,
                        pos as int,
                    )
            },
    {
        if self.timer > 0 {
            self.timer = sat_sub_i64(self.timer, dt);
            None
        } else {
            self.timer = self.timer + self.period;
            let x: i64 = choose_position();
            let kind: Option<SpawnableType> = choose_random_entity(&self.probabilities);
            Some((x, kind))
        }
    }
}

/// The catch-up accumulator: when one long tick drives the timer below
/// zero by at least a full period, the next call fires, and because a fire
/// only adds the period back instead of resetting the timer, the call
/// after that fires again immediately.
pub proof fn lemma_spawner_catch_up(v: SpawnerView, dt: int)
    requires
        spawner_inv(v),
        dt >= 0,
        !spawner_fires(v),
        sat_sub(v.timer, dt) + v.period <= 0,
    ensures
        spawner_fires(spawner_after_miss(v, dt)),
        spawner_fires(spawner_after_fire(spawner_after_miss(v, dt))),
{
}

} // verus!
