//! Deferred entity commands. Components never create or delete entities
//! mid-tick: they record requests here, and the requests are applied at a
//! single barrier before the next tick begins.

use vstd::prelude::*;

use crate::components::EffectType;
use crate::components::Position;

verus! {

/// A request to create a visual-effect entity, resolved to a renderable
/// shape by an external collaborator.
#[derive(Clone, Copy, Debug, PartialEq, Eq, Structural)]
pub struct EffectSpawnCommand {
    pub effect_type: EffectType,
    pub position: Position,
}

/// The per-tick buffer of deferred create and delete requests.
pub struct CommandBuffer {
    deletions: Vec<usize>,
    effects: Vec<EffectSpawnCommand>,
}

impl CommandBuffer {
    pub fn new() -> (r: Self)
        ensures
            r.deletions_view() == Seq::<usize>::empty(),
            r.effects_view() == Seq::<EffectSpawnCommand>::empty(),
    {
        CommandBuffer { deletions: Vec::new(), effects: Vec::new() }
    }

    /// The entities whose deletion has been requested this tick, in request
    /// order; an entity may appear more than once.
    pub closed spec fn deletions_view(&self) -> Seq<usize> {
        self.deletions@
    }

    /// The effect creations requested this tick, in request order.
    pub closed spec fn effects_view(&self) -> Seq<EffectSpawnCommand> {
        self.effects@
    }

    /// Request the deletion of `entity` at the tick barrier. Requesting an
    /// already-requested entity again is harmless: deletion is idempotent.
    pub fn request_delete(&mut self, entity: usize)
        ensures
            final(self).deletions_view() == old(self).deletions_view().push(entity),
            final(self).effects_view() == old(self).effects_view(),
    {
        self.deletions.push(entity);
    }

    /// Request the creation of an effect entity at the tick barrier.
    pub fn request_effect(&mut self, command: EffectSpawnCommand)
        ensures
            final(self).effects_view() == old(self).effects_view().push(command),
            final(self).deletions_view() == old(self).deletions_view(),
    {
        self.effects.push(command);
    }

    /// The recorded deletions, for the integrator applying the barrier.
    pub fn deletions(&self) -> (r: &Vec<usize>)
        ensures
            r@ == self.deletions_view(),
    {
        &self.deletions
    }

    /// The recorded effect creations, for the integrator applying the
    /// barrier.
    pub fn effects(&self) -> (r: &Vec<EffectSpawnCommand>)
        ensures
            r@ == self.effects_view(),
    {
        &self.effects
    }
}

/// Some entry among the first `i` of `dels` requests the deletion of `j`.
pub open spec fn delete_requested_in(dels: Seq<usize>, i: int, j: usize) -> bool {
    exists|k: int| 0 <= k < i && (#[trigger] dels[k]) == j
}

/// Apply the buffered deletions to the liveness flags at the tick barrier.
/// An entity stays alive iff it was alive and nobody requested its
/// deletion; deleting the same entity twice is a no-op, not an error.
pub fn apply_deletions(alive: &mut Vec<bool>, deletions: &Vec<usize>)
    requires
        forall|i: int| 0 <= i < deletions@.len() ==> (#[trigger] deletions@[i]) < old(alive)@.len(),
    ensures
        final(alive)@.len() == old(alive)@.len(),
        forall|j: usize| #![trigger final(alive)@[j as int]]
            (j as int) < old(alive)@.len() ==> final(alive)@[j as int] == (old(alive)@[j as int]
                && !delete_requested_in(deletions@, deletions@.len() as int, j)),
{
    let ghost a0 = old(alive)@;
    let mut i: usize = 0;
    while i < deletions.len()
        invariant
            0 <= i <= deletions@.len(),
            alive@.len() == a0.len(),
            forall|k: int| 0 <= k < deletions@.len() ==> (#[trigger] deletions@[k]) < a0.len(),
            forall|j: usize| #![trigger a0[j as int]]
                (j as int) < a0.len() ==> alive@[j as int] == (a0[j as int]
                    && !delete_requested_in(deletions@, i as int, j)),
        decreases deletions@.len() - i,
    {
        let d: usize = deletions[i];
        let ghost iprev = i as int;
        let ghost aprev = alive@;
        alive[d] = false;
        i = i + 1;
        proof {
            assert forall|j: usize| #![trigger a0[j as int]]
                (j as int) < a0.len() implies alive@[j as int] == (a0[j as int]
                && !delete_requested_in(deletions@, i as int, j)) by {
                assert(aprev[j as int] == (a0[j as int] && !delete_requested_in(
                    deletions@,
                    iprev,
                    j,
                )));
                if j == d {
                    assert(0 <= iprev < i as int && deletions@[iprev] == j);
                    assert(delete_requested_in(deletions@, i as int, j));
                    assert(alive@[j as int] == false);
                } else {
                    assert(alive@[j as int] == aprev[j as int]);
                    if delete_requested_in(deletions@, i as int, j) {
                        let k = choose|k: int|
                            0 <= k < i as int && (#[trigger] deletions@[k]) == j;
                        assert(k < iprev);
                        assert(delete_requested_in(deletions@, iprev, j));
                    }
                }
            }
        }
    }
}

} // verus!
