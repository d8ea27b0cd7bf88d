//! The border/despawn rule: each tick, every entity with configured
//! per-side border offsets is checked against the arena bounds. Crossing
//! any configured side requests the entity's deletion; crossing the bottom
//! additionally reports an escaped enemy to the defense-pool collaborator.

use vstd::prelude::*;

use crate::commands::CommandBuffer;
use crate::components::DespawnAtBorderComponent;
use crate::components::EnemyComponent;
use crate::components::Position;
use crate::constants::ARENA_MAX_X;
use crate::constants::ARENA_MAX_Y;
use crate::constants::ARENA_MIN_X;
use crate::constants::ARENA_MIN_Y;
use crate::events::EnemyReachedBottomEvent;
use crate::events::EventChannel;

verus! {

/// The entity sits beyond the top border plus its configured offset.
pub open spec fn crossed_top(border: DespawnAtBorderComponent, t: Position) -> bool {
    border.top_offset is Some && t.y > ARENA_MAX_Y + border.top_offset->0
}

/// The entity sits below the bottom border plus its configured offset.
pub open spec fn crossed_bottom(border: DespawnAtBorderComponent, t: Position) -> bool {
    border.bottom_offset is Some && t.y < ARENA_MIN_Y + border.bottom_offset->0
}

/// The entity sits beyond the left border plus its configured offset.
pub open spec fn crossed_left(border: DespawnAtBorderComponent, t: Position) -> bool {
    border.left_offset is Some && t.x < ARENA_MIN_X + border.left_offset->0
}

/// The entity sits beyond the right border plus its configured offset.
pub open spec fn crossed_right(border: DespawnAtBorderComponent, t: Position) -> bool {
    border.right_offset is Some && t.x > ARENA_MAX_X + border.right_offset->0
}

/// Deletions and escape events contributed by one entity: each configured
/// side is checked independently, in the order top, bottom, left, right.
/// Only an enemy crossing the bottom emits an event, and it emits exactly
/// one, carrying its configured defense damage.
pub open spec fn despawn_step(
    despawns: Seq<Option<DespawnAtBorderComponent>>,
    transforms: Seq<Option<Position>>,
    enemies: Seq<Option<EnemyComponent>>,
    deletions: Seq<usize>,
    events: Seq<EnemyReachedBottomEvent>,
    j: usize,
) -> (Seq<usize>, Seq<EnemyReachedBottomEvent>) {
    let ji = j as int;
    if despawns[ji] is Some && transforms[ji] is Some {
        let border = despawns[ji]->0;
        let t = transforms[ji]->0;
        let d1 = if crossed_top(border, t) {
            deletions.push(j)
        } else {
            deletions
        };
        let e2 = if crossed_bottom(border, t) && enemies[ji] is Some {
            events.push(EnemyReachedBottomEvent { damage: (enemies[ji]->0).defense_damage })
        } else {
            events
        };
        let d2 = if crossed_bottom(border, t) {
            d1.push(j)
        } else {
            d1
        };
        let d3 = if crossed_left(border, t) {
            d2.push(j)
        } else {
            d2
        };
        let d4 = if crossed_right(border, t) {
            d3.push(j)
        } else {
            d3
        };
        (d4, e2)
    } else {
        (deletions, events)
    }
}

/// The border rule's outputs after checking the entities from index `j`
/// on.
pub open spec fn despawn_run(
    despawns: Seq<Option<DespawnAtBorderComponent>>,
    transforms: Seq<Option<Position>>,
    enemies: Seq<Option<EnemyComponent>>,
    deletions: Seq<usize>,
    events: Seq<EnemyReachedBottomEvent>,
    j: int,
) -> (Seq<usize>, Seq<EnemyReachedBottomEvent>)
    decreases despawns.len() - j,
{
    if j < 0 || j >= despawns.len() {
        (deletions, events)
    } else {
        let stepped = despawn_step(despawns, transforms, enemies, deletions, events, j as usize);
        despawn_run(despawns, transforms, enemies, stepped.0, stepped.1, j + 1)
    }
}

/// The border rule, entity by entity: an enemy crossing the bottom offset
/// emits exactly one escape event carrying its configured defense damage
/// and is deleted; any entity crossing only the top or a side offset is
/// deleted with no event; an entity crossing nothing is left alone.
pub proof fn lemma_border_crossing(
    despawns: Seq<Option<DespawnAtBorderComponent>>,
    transforms: Seq<Option<Position>>,
    enemies: Seq<Option<EnemyComponent>>,
    deletions: Seq<usize>,
    events: Seq<EnemyReachedBottomEvent>,
    j: usize,
)
    requires
        (j as int) < despawns.len(),
        despawns[j as int] is Some,
        transforms[j as int] is Some,
    ensures
        ({
            let border = despawns[j as int]->0;
            let t = transforms[j as int]->0;
            let stepped = despawn_step(despawns, transforms, enemies, deletions, events, j);
            &&& (crossed_bottom(border, t) && enemies[j as int] is Some) ==> stepped.1
                == events.push(
                EnemyReachedBottomEvent { damage: (enemies[j as int]->0).defense_damage },
            )
            &&& (!crossed_bottom(border, t) || enemies[j as int] is None) ==> stepped.1 == events
            &&& (crossed_top(border, t) || crossed_bottom(border, t) || crossed_left(border, t)
                || crossed_right(border, t)) ==> stepped.0.contains(j)
            &&& (!crossed_top(border, t) && !crossed_bottom(border, t) && !crossed_left(border, t)
                && !crossed_right(border, t)) ==> stepped == (deletions, events)
        }),
{
    let border = despawns[j as int]->0;
    let t = transforms[j as int]->0;
    let stepped = despawn_step(despawns, transforms, enemies, deletions, events, j);
    if crossed_top(border, t) || crossed_bottom(border, t) || crossed_left(border, t)
        || crossed_right(border, t) {
        assert(stepped.0.contains(j)) by {
            let d1 = if crossed_top(border, t) {
                deletions.push(j)
            } else {
                deletions
            };
            let d2 = if crossed_bottom(border, t) {
                d1.push(j)
            } else {
                d1
            };
            let d3 = if crossed_left(border, t) {
                d2.push(j)
            } else {
                d2
            };
            if crossed_right(border, t) {
                assert(stepped.0[d3.len() as int] == j);
            } else if crossed_left(border, t) {
                assert(stepped.0[d2.len() as int] == j);
            } else if crossed_bottom(border, t) {
                assert(stepped.0[d1.len() as int] == j);
            } else {
                assert(stepped.0[deletions.len() as int] == j);
            }
        }
    }
}

/// The per-tick border check over all entities.
pub struct DespawnAtBorderSystem;

impl DespawnAtBorderSystem {
    /// Check every entity with border offsets and a position against the
    /// arena bounds, requesting deletions and reporting escaped enemies.
    pub fn run(
        &self,
        despawn_borders: &Vec<Option<DespawnAtBorderComponent>>,
        transforms: &Vec<Option<Position>>,
        enemies: &Vec<Option<EnemyComponent>>,
        commands: &mut CommandBuffer,
        enemy_reached_bottom_event_channel: &mut EventChannel<EnemyReachedBottomEvent>,
    )
        requires
            transforms@.len() == despawn_borders@.len(),
            enemies@.len() == despawn_borders@.len(),
        ensures
            (final(commands).deletions_view(), final(enemy_reached_bottom_event_channel)@)
                == despawn_run(
                despawn_borders@,
                transforms@,
                enemies@,
                old(commands).deletions_view(),
                old(enemy_reached_bottom_event_channel)@,
                0,
            ),
            final(commands).effects_view() == old(commands).effects_view(),
    {
        let ghost de = despawn_borders@;
        let ghost tr = transforms@;
        let ghost en = enemies@;
        let ghost d0 = old(commands).deletions_view();
        let ghost e0 = old(enemy_reached_bottom_event_channel)@;
        let ghost f0 = old(commands).effects_view();
        let n: usize = despawn_borders.len();

        let mut j: usize = 0;
        while j < n
            invariant
                despawn_borders@ == de,
                transforms@ == tr,
                enemies@ == en,
                de.len() == n && tr.len() == n && en.len() == n,
                0 <= j <= n,
                commands.effects_view() == f0,
                despawn_run(de, tr, en, d0, e0, 0) == despawn_run(
                    de,
                    tr,
                    en,
                    commands.deletions_view(),
                    enemy_reached_bottom_event_channel@,
                    j as int,
                ),
            decreases n - j,
        {
            let ghost jprev = j as int;
            let ghost dprev = commands.deletions_view();
            let ghost eprev = enemy_reached_bottom_event_channel@;

            if let Some(despawn_border) = despawn_borders[j] {
                if let Some(transform) = transforms[j] {
                    if let Some(top_border_offset) = despawn_border.top_offset {
                        if (transform.y as i128) > (ARENA_MAX_Y as i128) + (
                        top_border_offset as i128) {
                            commands.request_delete(j);
                        }
                    }

                    if let Some(bottom_border_offset) = despawn_border.bottom_offset {
                        if (transform.y as i128) < (ARENA_MIN_Y as i128) + (
                        bottom_border_offset as i128) {
                            if let Some(enemy) = enemies[j] {
                                enemy_reached_bottom_event_channel.single_write(
                                    EnemyReachedBottomEvent::new(enemy.defense_damage),
                                );
                            }
                            commands.request_delete(j);
                        }
                    }

                    if let Some(left_border_offset) = despawn_border.left_offset {
                        if (transform.x as i128) < (ARENA_MIN_X as i128) + (
                        left_border_offset as i128) {
                            commands.request_delete(j);
                        }
                    }

                    if let Some(right_border_offset) = despawn_border.right_offset {
                        if (transform.x as i128) > (ARENA_MAX_X as i128) + (
                        right_border_offset as i128) {
                            commands.request_delete(j);
                        }
                    }
                }
            }
            j = j + 1;

            proof {
                assert((commands.deletions_view(), enemy_reached_bottom_event_channel@)
                    == despawn_step(de, tr, en, dprev, eprev, jprev as usize));
                assert(despawn_run(de, tr, en, dprev, eprev, jprev) == despawn_run(
                    de,
                    tr,
                    en,
                    commands.deletions_view(),
                    enemy_reached_bottom_event_channel@,
                    j as int,
                ));
            }
        }
    }
}

} // verus!
