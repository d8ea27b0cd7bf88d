//! The broad-phase collision detector: each tick, every ordered pair of
//! distinct entities that both carry a hitbox and a position is tested
//! with the overlap predicate, and one categorized event per overlapping
//! pair and subject role is emitted. Detection is read-only: all reaction
//! is deferred to the resolvers.

use vstd::prelude::*;

use crate::collision::hitbox_collide;
use crate::collision::spec_hitbox_collide;
use crate::components::BarrierComponent;
use crate::components::BlastComponent;
use crate::components::ConsumableComponent;
use crate::components::EnemyComponent;
use crate::components::Hitbox2DComponent;
use crate::components::ItemComponent;
use crate::components::Motion2DComponent;
use crate::components::PlayerComponent;
use crate::components::Position;
use crate::events::EnemyCollisionEvent;
use crate::events::EventChannel;
use crate::events::PlayerCollisionEvent;
use crate::math::sat_sub;
use crate::math::sat_sub_i64;

verus! {

/// Both entities carry a hitbox and a position, and the offset-adjusted
/// boxes overlap.
pub open spec fn pair_overlaps(
    hitboxes: Seq<Option<Hitbox2DComponent>>,
    transforms: Seq<Option<Position>>,
    i: int,
    j: int,
) -> bool {
    &&& hitboxes[i] is Some
    &&& transforms[i] is Some
    &&& hitboxes[j] is Some
    &&& transforms[j] is Some
    &&& spec_hitbox_collide(
        (transforms[i]->0).x as int,
        (transforms[i]->0).y as int,
        (transforms[j]->0).x as int,
        (transforms[j]->0).y as int,
        (hitboxes[i]->0).width as int,
        (hitboxes[i]->0).height as int,
        (hitboxes[j]->0).width as int,
        (hitboxes[j]->0).height as int,
        (hitboxes[i]->0).offset_x as int,
        (hitboxes[i]->0).offset_y as int,
        (hitboxes[j]->0).offset_x as int,
        (hitboxes[j]->0).offset_y as int,
    )
}

/// Velocity of entity `j` relative to entity `i`, recorded only when both
/// carry motion.
pub open spec fn relative_velocity(
    motions: Seq<Option<Motion2DComponent>>,
    i: int,
    j: int,
) -> Option<(i64, i64)> {
    if motions[i] is Some && motions[j] is Some {
        let mi = motions[i]->0;
        let mj = motions[j]->0;
        Some(
            (
                sat_sub(mj.velocity_x as int, mi.velocity_x as int) as i64,
                sat_sub(mj.velocity_y as int, mi.velocity_y as int) as i64,
            ),
        )
    } else {
        None
    }
}

/// The colliding entity is flagged immovable.
pub open spec fn object_immovable(motions: Seq<Option<Motion2DComponent>>, j: int) -> bool {
    motions[j] is Some && (motions[j]->0).immovable
}

/// The object categories monitored for a player subject.
pub open spec fn player_monitored_object(
    enemies: Seq<Option<EnemyComponent>>,
    blasts: Seq<Option<BlastComponent>>,
    items: Seq<Option<ItemComponent>>,
    consumables: Seq<Option<ConsumableComponent>>,
    barriers: Seq<Option<BarrierComponent>>,
    j: int,
) -> bool {
    ||| enemies[j] is Some
    ||| blasts[j] is Some
    ||| items[j] is Some
    ||| consumables[j] is Some
    ||| barriers[j] is Some
}

/// The object categories monitored for an enemy subject.
pub open spec fn enemy_monitored_object(
    players: Seq<Option<PlayerComponent>>,
    enemies: Seq<Option<EnemyComponent>>,
    blasts: Seq<Option<BlastComponent>>,
    barriers: Seq<Option<BarrierComponent>>,
    j: int,
) -> bool {
    ||| players[j] is Some
    ||| enemies[j] is Some
    ||| blasts[j] is Some
    ||| barriers[j] is Some
}

/// Events contributed by the ordered pair `(i, j)`: at most one per
/// subject role, emitted only when the pair is distinct, overlapping and
/// in a monitored category pairing.
pub open spec fn detect_pair(
    players: Seq<Option<PlayerComponent>>,
    enemies: Seq<Option<EnemyComponent>>,
    blasts: Seq<Option<BlastComponent>>,
    items: Seq<Option<ItemComponent>>,
    consumables: Seq<Option<ConsumableComponent>>,
    barriers: Seq<Option<BarrierComponent>>,
    hitboxes: Seq<Option<Hitbox2DComponent>>,
    transforms: Seq<Option<Position>>,
    motions: Seq<Option<Motion2DComponent>>,
    player_events: Seq<PlayerCollisionEvent>,
    enemy_events: Seq<EnemyCollisionEvent>,
    i: usize,
    j: usize,
) -> (Seq<PlayerCollisionEvent>, Seq<EnemyCollisionEvent>) {
    if i != j && pair_overlaps(hitboxes, transforms, i as int, j as int) {
        let velocity = relative_velocity(motions, i as int, j as int);
        let immovable = object_immovable(motions, j as int);
        let p2 = if players[i as int] is Some && player_monitored_object(
            enemies,
            blasts,
            items,
            consumables,
            barriers,
            j as int,
        ) {
            player_events.push(
                PlayerCollisionEvent {
                    player_entity: i,
                    colliding_entity: j,
                    collision_velocity: velocity,
                    collider_immovable: immovable,
                },
            )
        } else {
            player_events
        };
        let e2 = if enemies[i as int] is Some && enemy_monitored_object(
            players,
            enemies,
            blasts,
            barriers,
            j as int,
        ) {
            enemy_events.push(
                EnemyCollisionEvent {
                    enemy_entity: i,
                    colliding_entity: j,
                    collision_velocity: velocity,
                    collider_immovable: immovable,
                },
            )
        } else {
            enemy_events
        };
        (p2, e2)
    } else {
        (player_events, enemy_events)
    }
}

/// The two event logs after scanning the ordered pairs from `(i, j)` on,
/// in lexicographic order.
pub open spec fn detect_from(
    players: Seq<Option<PlayerComponent>>,
    enemies: Seq<Option<EnemyComponent>>,
    blasts: Seq<Option<BlastComponent>>,
    items: Seq<Option<ItemComponent>>,
    consumables: Seq<Option<ConsumableComponent>>,
    barriers: Seq<Option<BarrierComponent>>,
    hitboxes: Seq<Option<Hitbox2DComponent>>,
    transforms: Seq<Option<Position>>,
    motions: Seq<Option<Motion2DComponent>>,
    player_events: Seq<PlayerCollisionEvent>,
    enemy_events: Seq<EnemyCollisionEvent>,
    i: int,
    j: int,
) -> (Seq<PlayerCollisionEvent>, Seq<EnemyCollisionEvent>)
    decreases players.len() - i, players.len() - j,
{
    if i < 0 || i >= players.len() {
        (player_events, enemy_events)
    } else if j < 0 || j >= players.len() {
        detect_from(
            players,
            enemies,
            blasts,
            items,
            consumables,
            barriers,
            hitboxes,
            transforms,
            motions,
            player_events,
            enemy_events,
            i + 1,
            0,
        )
    } else {
        let stepped = detect_pair(
            players,
            enemies,
            blasts,
            items,
            consumables,
            barriers,
            hitboxes,
            transforms,
            motions,
            player_events,
            enemy_events,
            i as usize,
            j as usize,
        );
        detect_from(
            players,
            enemies,
            blasts,
            items,
            consumables,
            barriers,
            hitboxes,
            transforms,
            motions,
            stepped.0,
            stepped.1,
            i,
            j + 1,
        )
    }
}

/// The per-tick broad-phase detector.
pub struct CollisionDetectionSystem;

impl CollisionDetectionSystem {
    /// Test every ordered pair of distinct entities in the monitored
    /// category pairings and emit one categorized event per overlap and
    /// subject role. Nothing is mutated but the two event logs.
    #[allow(clippy::too_many_arguments)]
    pub fn run(
        &self,
        players: &Vec<Option<PlayerComponent>>,
        enemies: &Vec<Option<EnemyComponent>>,
        blasts: &Vec<Option<BlastComponent>>,
        items: &Vec<Option<ItemComponent>>,
        consumables: &Vec<Option<ConsumableComponent>>,
        barriers: &Vec<Option<BarrierComponent>>,
        hitboxes: &Vec<Option<Hitbox2DComponent>>,
        transforms: &Vec<Option<Position>>,
        motions: &Vec<Option<Motion2DComponent>>,
        player_collision_channel: &mut EventChannel<PlayerCollisionEvent>,
        enemy_collision_channel: &mut EventChannel<EnemyCollisionEvent>,
    )
        requires
            enemies@.len() == players@.len(),
            blasts@.len() == players@.len(),
            items@.len() == players@.len(),
            consumables@.len() == players@.len(),
            barriers@.len() == players@.len(),
            hitboxes@.len() == players@.len(),
            transforms@.len() == players@.len(),
            motions@.len() == players@.len(),
        ensures
            (final(player_collision_channel)@, final(enemy_collision_channel)@) == detect_from(
                players@,
                enemies@,
                blasts@,
                items@,
                consumables@,
                barriers@,
                hitboxes@,
                transforms@,
                motions@,
                old(player_collision_channel)@,
                old(enemy_collision_channel)@,
                0,
                0,
            ),
    {
        let ghost pl = players@;
        let ghost en = enemies@;
        let ghost bl = blasts@;
        let ghost it = items@;
        let ghost co = consumables@;
        let ghost ba = barriers@;
        let ghost hb = hitboxes@;
        let ghost tr = transforms@;
        let ghost mo = motions@;
        let ghost p0 = old(player_collision_channel)@;
        let ghost e0 = old(enemy_collision_channel)@;
        let n: usize = players.len();

        let mut i: usize = 0;
        while i < n
            invariant
                players@ == pl && enemies@ == en && blasts@ == bl && items@ == it,
                consumables@ == co && barriers@ == ba && hitboxes@ == hb && transforms@ == tr,
                motions@ == mo,
                pl.len() == n && en.len() == n && bl.len() == n && it.len() == n,
                co.len() == n && ba.len() == n && hb.len() == n && tr.len() == n && mo.len() == n,
                0 <= i <= n,
                detect_from(pl, en, bl, it, co, ba, hb, tr, mo, p0, e0, 0, 0) == detect_from(
                    pl,
                    en,
                    bl,
                    it,
                    co,
                    ba,
                    hb,
                    tr,
                    mo,
                    player_collision_channel@,
                    enemy_collision_channel@,
                    i as int,
                    0,
                ),
            decreases n - i,
        {
            let mut j: usize = 0;
            while j < n
                invariant
                    players@ == pl && enemies@ == en && blasts@ == bl && items@ == it,
                    consumables@ == co && barriers@ == ba && hitboxes@ == hb && transforms@ == tr,
                    motions@ == mo,
                    pl.len() == n && en.len() == n && bl.len() == n && it.len() == n,
                    co.len() == n && ba.len() == n && hb.len() == n && tr.len() == n && mo.len()
                        == n,
                    0 <= i < n,
                    0 <= j <= n,
                    detect_from(pl, en, bl, it, co, ba, hb, tr, mo, p0, e0, 0, 0) == detect_from(
                        pl,
                        en,
                        bl,
                        it,
                        co,
                        ba,
                        hb,
                        tr,
                        mo,
                        player_collision_channel@,
                        enemy_collision_channel@,
                        i as int,
                        j as int,
                    ),
                decreases n - j,
            {
                let ghost jprev = j as int;
                let ghost pprev = player_collision_channel@;
                let ghost eprev = enemy_collision_channel@;

                if i != j {
                    let hbi: Option<Hitbox2DComponent> = hitboxes[i];
                    let tri: Option<Position> = transforms[i];
                    let hbj: Option<Hitbox2DComponent> = hitboxes[j];
                    let trj: Option<Position> = transforms[j];
                    if hbi.is_some() && tri.is_some() && hbj.is_some() && trj.is_some() {
                        let hb1: Hitbox2DComponent = hbi.unwrap();
                        let t1: Position = tri.unwrap();
                        let hb2: Hitbox2DComponent = hbj.unwrap();
                        let t2: Position = trj.unwrap();
                        if hitbox_collide(
                            t1.x,
                            t1.y,
                            t2.x,
                            t2.y,
                            hb1.width,
                            hb1.height,
                            hb2.width,
                            hb2.height,
                            hb1.offset_x,
                            hb1.offset_y,
                            hb2.offset_x,
                            hb2.offset_y,
                        ) {
                            let collision_velocity: Option<(i64, i64)> = if motions[i].is_some()
                                && motions[j].is_some() {
                                let mi: Motion2DComponent = motions[i].unwrap();
                                let mj: Motion2DComponent = motions[j].unwrap();
                                Some(
                                    (
                                        sat_sub_i64(mj.velocity_x, mi.velocity_x),
                                        sat_sub_i64(mj.velocity_y, mi.velocity_y),
                                    ),
                                )
                            } else {
                                None
                            };
                            let collider_immovable: bool = if motions[j].is_some() {
                                motions[j].unwrap().immovable
                            } else {
                                false
                            };

                            if players[i].is_some() && (enemies[j].is_some() || blasts[j].is_some()
                                || items[j].is_some() || consumables[j].is_some()
                                || barriers[j].is_some()) {
                                player_collision_channel.single_write(
                                    PlayerCollisionEvent {
                                        player_entity: i,
                                        colliding_entity: j,
                                        collision_velocity,
                                        collider_immovable,
                                    },
                                );
                            }
                            if enemies[i].is_some() && (players[j].is_some()
                                || enemies[j].is_some() || blasts[j].is_some()
                                || barriers[j].is_some()) {
                                enemy_collision_channel.single_write(
                                    EnemyCollisionEvent {
                                        enemy_entity: i,
                                        colliding_entity: j,
                                        collision_velocity,
                                        collider_immovable,
                                    },
                                );
                            }
                        }
                    }
                }
                j = j + 1;

                proof {
                    assert((player_collision_channel@, enemy_collision_channel@) == detect_pair(
                        pl,
                        en,
                        bl,
                        it,
                        co,
                        ba,
                        hb,
                        tr,
                        mo,
                        pprev,
                        eprev,
                        i,
                        jprev as usize,
                    ));
                    assert(detect_from(pl, en, bl, it, co, ba, hb, tr, mo, pprev, eprev, i as int, jprev)
                        == detect_from(
                        pl,
                        en,
                        bl,
                        it,
                        co,
                        ba,
                        hb,
                        tr,
                        mo,
                        player_collision_channel@,
                        enemy_collision_channel@,
                        i as int,
                        j as int,
                    ));
                }
            }
            i = i + 1;

            proof {
                assert(detect_from(
                    pl,
                    en,
                    bl,
                    it,
                    co,
                    ba,
                    hb,
                    tr,
                    mo,
                    player_collision_channel@,
                    enemy_collision_channel@,
                    i as int - 1,
                    n as int,
                ) == detect_from(
                    pl,
                    en,
                    bl,
                    it,
                    co,
                    ba,
                    hb,
                    tr,
                    mo,
                    player_collision_channel@,
                    enemy_collision_channel@,
                    i as int,
                    0,
                ));
            }
        }
    }
}

} // verus!
