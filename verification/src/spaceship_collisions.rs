//! Resolvers for collision events whose subject is the player ship:
//! against enemies, enemy blasts, items, consumables, and arena barriers.
//! The two barrel-roll immunities are deliberately asymmetric: a
//! non-neutral roll alone suppresses enemy-blast hits entirely, while
//! direct enemy-collision damage is only blocked when the steel flag is
//! set as well.

use vstd::prelude::*;

use crate::collision::barrier_collision;
use crate::collision::barrier_knocked;
use crate::collision::immovable_collision;
use crate::collision::immovable_knocked;
use crate::collision::standard_collision;
use crate::collision::standard_knocked;
use crate::commands::CommandBuffer;
use crate::commands::EffectSpawnCommand;
use crate::components::AbilityDirection;
use crate::components::BarrelRollAbilityComponent;
use crate::components::BarrierComponent;
use crate::components::BlastComponent;
use crate::components::BlastType;
use crate::components::EffectType;
use crate::components::EnemyComponent;
use crate::components::HealthComponent;
use crate::components::Motion2DComponent;
use crate::components::PlayerComponent;
use crate::components::Position;
use crate::components::SoundKey;
use crate::components::ConsumableComponent;
use crate::components::ItemComponent;
use crate::events::item_get_views;
use crate::events::lemma_item_get_views_push;
use crate::events::EventChannel;
use crate::events::ItemGetEvent;
use crate::events::ItemGetView;
use crate::events::PlayAudioEvent;
use crate::events::PlayerCollisionEvent;
use crate::math::sat_add;
use crate::math::sat_add_i64;
use crate::math::sat_sub;
use crate::math::sat_sub_i64;
use crate::resources::GameParametersResource;

verus! {

/// A barrel roll blocks direct enemy-collision damage only when it is
/// active in a non-neutral direction and the steel flag is set too.
pub open spec fn collision_damage_immune(roll: Option<BarrelRollAbilityComponent>) -> bool {
    match roll {
        Some(r) => r.action_direction != AbilityDirection::Neutral && r.steel_barrel,
        None => false,
    }
}

/// A barrel roll active in any non-neutral direction suppresses enemy
/// blast hits entirely, independent of the steel flag.
pub open spec fn blast_hit_immune(roll: Option<BarrelRollAbilityComponent>) -> bool {
    match roll {
        Some(r) => r.action_direction != AbilityDirection::Neutral,
        None => false,
    }
}

/// Well-formedness of an event for the player×enemy resolver.
pub open spec fn player_enemy_event_ok(
    e: PlayerCollisionEvent,
    enemies: Seq<Option<EnemyComponent>>,
    healths: Seq<Option<HealthComponent>>,
    motions: Seq<Option<Motion2DComponent>>,
) -> bool {
    &&& (e.player_entity as int) < enemies.len()
    &&& (e.colliding_entity as int) < enemies.len()
    &&& enemies[e.colliding_entity as int] is Some ==> {
        &&& healths[e.player_entity as int] is Some
        &&& motions[e.player_entity as int] is Some
    }
}

/// Effect of one event on the player×enemy resolver's stores. When the
/// colliding entity is an enemy: the player takes the enemy's collision
/// damage unless the steel-barrel roll immunity holds, and a movable
/// player with a recorded relative velocity is knocked back — one-sidedly
/// when the enemy is immovable.
pub open spec fn player_enemy_step(
    enemies: Seq<Option<EnemyComponent>>,
    rolls: Seq<Option<BarrelRollAbilityComponent>>,
    params: GameParametersResource,
    healths: Seq<Option<HealthComponent>>,
    motions: Seq<Option<Motion2DComponent>>,
    e: PlayerCollisionEvent,
) -> (Seq<Option<HealthComponent>>, Seq<Option<Motion2DComponent>>) {
    let pi = e.player_entity as int;
    let ci = e.colliding_entity as int;
    if enemies[ci] is Some {
        let enemy = enemies[ci]->0;
        let h0 = healths[pi]->0;
        let h2 = if !collision_damage_immune(rolls[pi]) {
            healths.update(
                pi,
                Some(
                    HealthComponent {
                        value: sat_sub(h0.value as int, enemy.collision_damage as int) as i64,
                        ..h0
                    },
                ),
            )
        } else {
            healths
        };
        let m0 = motions[pi]->0;
        let m2 = if !m0.immovable && e.collision_velocity is Some {
            let knocked = if e.collider_immovable {
                immovable_knocked(m0, e.collision_velocity->0, params.min_collision_knockback)
            } else {
                standard_knocked(m0, e.collision_velocity->0, params.min_collision_knockback)
            };
            motions.update(pi, Some(knocked))
        } else {
            motions
        };
        (h2, m2)
    } else {
        (healths, motions)
    }
}

/// The player×enemy resolver's stores after draining the events from
/// index `i` on.
pub open spec fn player_enemy_run(
    enemies: Seq<Option<EnemyComponent>>,
    rolls: Seq<Option<BarrelRollAbilityComponent>>,
    params: GameParametersResource,
    healths: Seq<Option<HealthComponent>>,
    motions: Seq<Option<Motion2DComponent>>,
    events: Seq<PlayerCollisionEvent>,
    i: int,
) -> (Seq<Option<HealthComponent>>, Seq<Option<Motion2DComponent>>)
    decreases events.len() - i,
{
    if i < 0 || i >= events.len() {
        (healths, motions)
    } else {
        let stepped = player_enemy_step(enemies, rolls, params, healths, motions, events[i]);
        player_enemy_run(enemies, rolls, params, stepped.0, stepped.1, events, i + 1)
    }
}

/// Resolver for the player ship colliding with enemies.
pub struct SpaceshipEnemyCollisionSystem {
    /// Read cursor over the player collision channel.
    pub event_reader: usize,
}

impl SpaceshipEnemyCollisionSystem {
    pub fn new() -> (r: Self)
        ensures
            r.event_reader == 0,
    {
        SpaceshipEnemyCollisionSystem { event_reader: 0 }
    }

    /// Drain the pending player collision events and apply the
    /// player×enemy rule to each.
    pub fn run(
        &mut self,
        channel: &EventChannel<PlayerCollisionEvent>,
        game_parameters: &GameParametersResource,
        enemies: &Vec<Option<EnemyComponent>>,
        motions: &mut Vec<Option<Motion2DComponent>>,
        healths: &mut Vec<Option<HealthComponent>>,
        barrel_roll_abilities: &Vec<Option<BarrelRollAbilityComponent>>,
    )
        requires
            old(self).event_reader <= channel@.len(),
            old(motions)@.len() == enemies@.len(),
            old(healths)@.len() == enemies@.len(),
            barrel_roll_abilities@.len() == enemies@.len(),
            game_parameters.min_collision_knockback >= 0,
            forall|i: int|
                old(self).event_reader <= i < channel@.len() ==> player_enemy_event_ok(
                    #[trigger] channel@[i],
                    enemies@,
                    old(healths)@,
                    old(motions)@,
                ),
        ensures
            final(self).event_reader == channel@.len(),
            (final(healths)@, final(motions)@) == player_enemy_run(
                enemies@,
                barrel_roll_abilities@,
                *game_parameters,
                old(healths)@,
                old(motions)@,
                channel@,
                old(self).event_reader as int,
            ),
    {
        let ghost en = enemies@;
        let ghost ro = barrel_roll_abilities@;
        let ghost params = *game_parameters;
        let ghost h0 = old(healths)@;
        let ghost m0 = old(motions)@;
        let ghost c0 = old(self).event_reader as int;
        let n: usize = healths.len();

        while self.event_reader < channel.len()
            invariant
                enemies@ == en,
                barrel_roll_abilities@ == ro,
                *game_parameters == params,
                c0 <= self.event_reader as int <= channel@.len(),
                en.len() == n && ro.len() == n && h0.len() == n && m0.len() == n,
                healths@.len() == n,
                motions@.len() == n,
                params.min_collision_knockback >= 0,
                forall|j: int|
                    0 <= j < n ==> ((#[trigger] healths@[j]) is Some <==> h0[j] is Some),
                forall|j: int|
                    0 <= j < n ==> ((#[trigger] motions@[j]) is Some <==> m0[j] is Some),
                forall|i: int|
                    c0 <= i < channel@.len() ==> player_enemy_event_ok(
                        #[trigger] channel@[i],
                        en,
                        h0,
                        m0,
                    ),
                player_enemy_run(en, ro, params, h0, m0, channel@, c0) == player_enemy_run(
                    en,
                    ro,
                    params,
                    healths@,
                    motions@,
                    channel@,
                    self.event_reader as int,
                ),
            decreases channel@.len() - self.event_reader,
        {
            let e: PlayerCollisionEvent = *channel.get(self.event_reader);
            let ghost iprev = self.event_reader as int;
            let ghost hprev = healths@;
            let ghost mprev = motions@;
            proof {
                assert(player_enemy_event_ok(channel@[iprev], en, h0, m0));
            }

            if let Some(enemy) = enemies[e.colliding_entity] {
                let immune: bool =
                    if let Some(barrel_roll_ability) = barrel_roll_abilities[e.player_entity] {
                        if let AbilityDirection::Neutral = barrel_roll_ability.action_direction {
                            false
                        } else {
                            barrel_roll_ability.steel_barrel
                        }
                    } else {
                        false
                    };

                if !immune {
                    let mut spaceship_health: HealthComponent = healths[e.player_entity].unwrap();
                    spaceship_health.take_damage(enemy.collision_damage);
                    healths[e.player_entity] = Some(spaceship_health);
                }

                let mut spaceship_motion: Motion2DComponent = motions[e.player_entity].unwrap();
                if !spaceship_motion.immovable {
                    if let Some(collision_velocity) = e.collision_velocity {
                        if e.collider_immovable {
                            immovable_collision(
                                &mut spaceship_motion,
                                collision_velocity,
                                game_parameters.min_collision_knockback,
                            );
                        } else {
                            standard_collision(
                                &mut spaceship_motion,
                                collision_velocity,
                                game_parameters.min_collision_knockback,
                            );
                        }
                        motions[e.player_entity] = Some(spaceship_motion);
                    }
                }
            }
            self.event_reader = self.event_reader + 1;

            proof {
                assert((healths@, motions@) == player_enemy_step(
                    en,
                    ro,
                    params,
                    hprev,
                    mprev,
                    channel@[iprev],
                ));
                assert(player_enemy_run(en, ro, params, hprev, mprev, channel@, iprev)
                    == player_enemy_run(
                    en,
                    ro,
                    params,
                    healths@,
                    motions@,
                    channel@,
                    self.event_reader as int,
                ));
                assert forall|j: int| 0 <= j < n implies ((#[trigger] healths@[j]) is Some
                    <==> h0[j] is Some) by {
                    assert(hprev[j] is Some <==> h0[j] is Some);
                }
                assert forall|j: int| 0 <= j < n implies ((#[trigger] motions@[j]) is Some
                    <==> m0[j] is Some) by {
                    assert(mprev[j] is Some <==> m0[j] is Some);
                }
            }
        }
    }
}

/// Well-formedness of an event for the player×blast resolver.
pub open spec fn player_blast_event_ok(
    e: PlayerCollisionEvent,
    blasts: Seq<Option<BlastComponent>>,
    healths: Seq<Option<HealthComponent>>,
    transforms: Seq<Option<Position>>,
) -> bool {
    &&& (e.player_entity as int) < blasts.len()
    &&& (e.colliding_entity as int) < blasts.len()
    &&& blasts[e.colliding_entity as int] is Some ==> {
        &&& healths[e.player_entity as int] is Some
        &&& transforms[e.colliding_entity as int] is Some
    }
}

/// Effect of one event on the player×blast resolver's stores. When the
/// colliding entity is an enemy-aligned blast and no non-neutral barrel
/// roll is active: the blast's deletion is requested, an explosion effect
/// at the blast's position is emitted, and the player takes the blast
/// damage. A rolling player is not hit at all.
pub open spec fn player_blast_step(
    blasts: Seq<Option<BlastComponent>>,
    rolls: Seq<Option<BarrelRollAbilityComponent>>,
    transforms: Seq<Option<Position>>,
    healths: Seq<Option<HealthComponent>>,
    deletions: Seq<usize>,
    effects: Seq<EffectSpawnCommand>,
    e: PlayerCollisionEvent,
) -> (Seq<Option<HealthComponent>>, Seq<usize>, Seq<EffectSpawnCommand>) {
    let pi = e.player_entity as int;
    let ci = e.colliding_entity as int;
    if blasts[ci] is Some && !blast_hit_immune(rolls[pi]) && (blasts[ci]->0).blast_type
        == BlastType::Enemy {
        let blast = blasts[ci]->0;
        let h0 = healths[pi]->0;
        let h2 = healths.update(
            pi,
            Some(
                HealthComponent {
                    value: sat_sub(h0.value as int, blast.damage as int) as i64,
                    ..h0
                },
            ),
        );
        let d2 = deletions.push(e.colliding_entity);
        let f2 = effects.push(
            EffectSpawnCommand {
                effect_type: EffectType::EnemyBlastExplosion,
                position: transforms[ci]->0,
            },
        );
        (h2, d2, f2)
    } else {
        (healths, deletions, effects)
    }
}

/// The player×blast resolver's stores after draining the events from
/// index `i` on.
pub open spec fn player_blast_run(
    blasts: Seq<Option<BlastComponent>>,
    rolls: Seq<Option<BarrelRollAbilityComponent>>,
    transforms: Seq<Option<Position>>,
    healths: Seq<Option<HealthComponent>>,
    deletions: Seq<usize>,
    effects: Seq<EffectSpawnCommand>,
    events: Seq<PlayerCollisionEvent>,
    i: int,
) -> (Seq<Option<HealthComponent>>, Seq<usize>, Seq<EffectSpawnCommand>)
    decreases events.len() - i,
{
    if i < 0 || i >= events.len() {
        (healths, deletions, effects)
    } else {
        let stepped = player_blast_step(
            blasts,
            rolls,
            transforms,
            healths,
            deletions,
            effects,
            events[i],
        );
        player_blast_run(blasts, rolls, transforms, stepped.0, stepped.1, stepped.2, events, i + 1)
    }
}

/// Resolver for the player ship hit by enemy blasts.
pub struct SpaceshipBlastCollisionSystem {
    /// Read cursor over the player collision channel.
    pub event_reader: usize,
}

impl SpaceshipBlastCollisionSystem {
    pub fn new() -> (r: Self)
        ensures
            r.event_reader == 0,
    {
        SpaceshipBlastCollisionSystem { event_reader: 0 }
    }

    /// Drain the pending player collision events and apply the
    /// player×blast rule to each.
    pub fn run(
        &mut self,
        channel: &EventChannel<PlayerCollisionEvent>,
        blasts: &Vec<Option<BlastComponent>>,
        barrel_roll_abilities: &Vec<Option<BarrelRollAbilityComponent>>,
        transforms: &Vec<Option<Position>>,
        healths: &mut Vec<Option<HealthComponent>>,
        commands: &mut CommandBuffer,
    )
        requires
            old(self).event_reader <= channel@.len(),
            barrel_roll_abilities@.len() == blasts@.len(),
            transforms@.len() == blasts@.len(),
            old(healths)@.len() == blasts@.len(),
            forall|i: int|
                old(self).event_reader <= i < channel@.len() ==> player_blast_event_ok(
                    #[trigger] channel@[i],
                    blasts@,
                    old(healths)@,
                    transforms@,
                ),
        ensures
            final(self).event_reader == channel@.len(),
            (final(healths)@, final(commands).deletions_view(), final(commands).effects_view())
                == player_blast_run(
                blasts@,
                barrel_roll_abilities@,
                transforms@,
                old(healths)@,
                old(commands).deletions_view(),
                old(commands).effects_view(),
                channel@,
                old(self).event_reader as int,
            ),
    {
        let ghost bl = blasts@;
        let ghost ro = barrel_roll_abilities@;
        let ghost tr = transforms@;
        let ghost h0 = old(healths)@;
        let ghost d0 = old(commands).deletions_view();
        let ghost f0 = old(commands).effects_view();
        let ghost c0 = old(self).event_reader as int;
        let n: usize = healths.len();

        while self.event_reader < channel.len()
            invariant
                blasts@ == bl,
                barrel_roll_abilities@ == ro,
                transforms@ == tr,
                c0 <= self.event_reader as int <= channel@.len(),
                bl.len() == n && ro.len() == n && tr.len() == n && h0.len() == n,
                healths@.len() == n,
                forall|j: int|
                    0 <= j < n ==> ((#[trigger] healths@[j]) is Some <==> h0[j] is Some),
                forall|i: int|
                    c0 <= i < channel@.len() ==> player_blast_event_ok(
                        #[trigger] channel@[i],
                        bl,
                        h0,
                        tr,
                    ),
                player_blast_run(bl, ro, tr, h0, d0, f0, channel@, c0) == player_blast_run(
                    bl,
                    ro,
                    tr,
                    healths@,
                    commands.deletions_view(),
                    commands.effects_view(),
                    channel@,
                    self.event_reader as int,
                ),
            decreases channel@.len() - self.event_reader,
        {
            let e: PlayerCollisionEvent = *channel.get(self.event_reader);
            let ghost iprev = self.event_reader as int;
            let ghost hprev = healths@;
            let ghost dprev = commands.deletions_view();
            let ghost fprev = commands.effects_view();
            proof {
                assert(player_blast_event_ok(channel@[iprev], bl, h0, tr));
            }

            if let Some(blast) = blasts[e.colliding_entity] {
                let blast_transform: Position = transforms[e.colliding_entity].unwrap();

                let player_hittable: bool =
                    if let Some(barrel_roll_ability) = barrel_roll_abilities[e.player_entity] {
                        if let AbilityDirection::Neutral = barrel_roll_ability.action_direction {
                            true
                        } else {
                            false
                        }
                    } else {
                        true
                    };

                if player_hittable {
                    match blast.blast_type {
                        BlastType::Enemy => {
                            commands.request_delete(e.colliding_entity);
                            commands.request_effect(
                                EffectSpawnCommand {
                                    effect_type: EffectType::EnemyBlastExplosion,
                                    position: blast_transform,
                                },
                            );
                            let mut spaceship_health: HealthComponent =
                                healths[e.player_entity].unwrap();
                            spaceship_health.take_damage(blast.damage);
                            healths[e.player_entity] = Some(spaceship_health);
                        },
                        _ => {},
                    }
                }
            }
            self.event_reader = self.event_reader + 1;

            proof {
                assert((healths@, commands.deletions_view(), commands.effects_view())
                    == player_blast_step(bl, ro, tr, hprev, dprev, fprev, channel@[iprev]));
                assert(player_blast_run(bl, ro, tr, hprev, dprev, fprev, channel@, iprev)
                    == player_blast_run(
                    bl,
                    ro,
                    tr,
                    healths@,
                    commands.deletions_view(),
                    commands.effects_view(),
                    channel@,
                    self.event_reader as int,
                ));
                assert forall|j: int| 0 <= j < n implies ((#[trigger] healths@[j]) is Some
                    <==> h0[j] is Some) by {
                    assert(hprev[j] is Some <==> h0[j] is Some);
                }
            }
        }
    }
}

/// An exact copy of a vector of plain values.
fn copy_vec<T: Copy>(v: &Vec<T>) -> (r: Vec<T>)
    ensures
        r@ == v@,
{
    let mut out: Vec<T> = Vec::new();
    let mut i: usize = 0;
    while i < v.len()
        invariant
            0 <= i <= v@.len(),
            out@ == v@.take(i as int),
        decreases v@.len() - i,
    {
        out.push(v[i]);
        proof {
            assert(v@.take(i + 1) =~= v@.take(i as int).push(v@[i as int]));
        }
        i = i + 1;
    }
    proof {
        assert(v@.take(v@.len() as int) =~= v@);
    }
    out
}

/// Well-formedness of an event for the player×item resolver.
pub open spec fn player_item_event_ok(e: PlayerCollisionEvent, items: Seq<Option<ItemComponent>>) -> bool {
    &&& (e.player_entity as int) < items.len()
    &&& (e.colliding_entity as int) < items.len()
}

/// Effect of one event on the player×item resolver's stores. When the
/// colliding entity is an item: an item-acquired event carrying the item's
/// payload is emitted for the external stat collaborator, a pickup sound
/// is requested, and the item's deletion is requested.
pub open spec fn player_item_step(
    items: Seq<Option<ItemComponent>>,
    item_gets: Seq<ItemGetView>,
    audio: Seq<PlayAudioEvent>,
    deletions: Seq<usize>,
    e: PlayerCollisionEvent,
) -> (Seq<ItemGetView>, Seq<PlayAudioEvent>, Seq<usize>) {
    let ci = e.colliding_entity as int;
    if items[ci] is Some {
        let item = items[ci]->0;
        let ig2 = item_gets.push(
            ItemGetView {
                player_entity: e.player_entity,
                stat_effects: item.stat_effects@,
                bool_effects: item.bool_effects@,
            },
        );
        let a2 = audio.push(PlayAudioEvent { sound_key: SoundKey::ShotgunCock });
        let d2 = deletions.push(e.colliding_entity);
        (ig2, a2, d2)
    } else {
        (item_gets, audio, deletions)
    }
}

/// The player×item resolver's stores after draining the events from
/// index `i` on.
pub open spec fn player_item_run(
    items: Seq<Option<ItemComponent>>,
    item_gets: Seq<ItemGetView>,
    audio: Seq<PlayAudioEvent>,
    deletions: Seq<usize>,
    events: Seq<PlayerCollisionEvent>,
    i: int,
) -> (Seq<ItemGetView>, Seq<PlayAudioEvent>, Seq<usize>)
    decreases events.len() - i,
{
    if i < 0 || i >= events.len() {
        (item_gets, audio, deletions)
    } else {
        let stepped = player_item_step(items, item_gets, audio, deletions, events[i]);
        player_item_run(items, stepped.0, stepped.1, stepped.2, events, i + 1)
    }
}

/// Resolver for the player ship picking up items.
pub struct SpaceshipItemCollisionSystem {
    /// Read cursor over the player collision channel.
    pub event_reader: usize,
}

impl SpaceshipItemCollisionSystem {
    pub fn new() -> (r: Self)
        ensures
            r.event_reader == 0,
    {
        SpaceshipItemCollisionSystem { event_reader: 0 }
    }

    /// Drain the pending player collision events and apply the
    /// player×item rule to each.
    pub fn run(
        &mut self,
        channel: &EventChannel<PlayerCollisionEvent>,
        items: &Vec<Option<ItemComponent>>,
        item_get_event_channel: &mut EventChannel<ItemGetEvent>,
        play_audio_channel: &mut EventChannel<PlayAudioEvent>,
        commands: &mut CommandBuffer,
    )
        requires
            old(self).event_reader <= channel@.len(),
            forall|i: int|
                old(self).event_reader <= i < channel@.len() ==> player_item_event_ok(
                    #[trigger] channel@[i],
                    items@,
                ),
        ensures
            final(self).event_reader == channel@.len(),
            (
                item_get_views(final(item_get_event_channel)@),
                final(play_audio_channel)@,
                final(commands).deletions_view(),
            ) == player_item_run(
                items@,
                item_get_views(old(item_get_event_channel)@),
                old(play_audio_channel)@,
                old(commands).deletions_view(),
                channel@,
                old(self).event_reader as int,
            ),
            final(commands).effects_view() == old(commands).effects_view(),
    {
        let ghost it = items@;
        let ghost g0 = item_get_views(old(item_get_event_channel)@);
        let ghost a0 = old(play_audio_channel)@;
        let ghost d0 = old(commands).deletions_view();
        let ghost f0 = old(commands).effects_view();
        let ghost c0 = old(self).event_reader as int;

        while self.event_reader < channel.len()
            invariant
                items@ == it,
                c0 <= self.event_reader as int <= channel@.len(),
                commands.effects_view() == f0,
                forall|i: int|
                    c0 <= i < channel@.len() ==> player_item_event_ok(#[trigger] channel@[i], it),
                player_item_run(it, g0, a0, d0, channel@, c0) == player_item_run(
                    it,
                    item_get_views(item_get_event_channel@),
                    play_audio_channel@,
                    commands.deletions_view(),
                    channel@,
                    self.event_reader as int,
                ),
            decreases channel@.len() - self.event_reader,
        {
            let e: PlayerCollisionEvent = *channel.get(self.event_reader);
            let ghost iprev = self.event_reader as int;
            let ghost gprev = item_get_views(item_get_event_channel@);
            let ghost aprev = play_audio_channel@;
            let ghost dprev = commands.deletions_view();
            proof {
                assert(player_item_event_ok(channel@[iprev], it));
            }

            if let Some(item) = items[e.colliding_entity].as_ref() {
                let ghost chprev = item_get_event_channel@;
                let pickup = ItemGetEvent::new(
                    e.player_entity,
                    copy_vec(&item.stat_effects),
                    copy_vec(&item.bool_effects),
                );
                proof {
                    lemma_item_get_views_push(chprev, pickup);
                }
                item_get_event_channel.single_write(pickup);

                play_audio_channel.single_write(
                    PlayAudioEvent { sound_key: SoundKey::ShotgunCock },
                );

                commands.request_delete(e.colliding_entity);
            }
            self.event_reader = self.event_reader + 1;

            proof {
                assert((
                    item_get_views(item_get_event_channel@),
                    play_audio_channel@,
                    commands.deletions_view(),
                ) == player_item_step(it, gprev, aprev, dprev, channel@[iprev]));
                assert(player_item_run(it, gprev, aprev, dprev, channel@, iprev)
                    == player_item_run(
                    it,
                    item_get_views(item_get_event_channel@),
                    play_audio_channel@,
                    commands.deletions_view(),
                    channel@,
                    self.event_reader as int,
                ));
            }
        }
    }
}

/// Health with an amount added to the current hit points, saturating.
pub open spec fn bumped_health(h: HealthComponent, amount: i64) -> HealthComponent {
    HealthComponent { value: sat_add(h.value as int, amount as int) as i64, ..h }
}

/// Every entity tagged as part of the defense pool has its health raised
/// by `amount`; everything else is untouched.
pub open spec fn defense_bumped(
    healths: Seq<Option<HealthComponent>>,
    tags: Seq<bool>,
    amount: i64,
) -> Seq<Option<HealthComponent>> {
    Seq::new(
        healths.len(),
        |j: int|
            if tags[j] && healths[j] is Some {
                Some(bumped_health(healths[j]->0, amount))
            } else {
                healths[j]
            },
    )
}

/// Well-formedness of an event for the player×consumable resolver.
pub open spec fn player_consumable_event_ok(
    e: PlayerCollisionEvent,
    consumables: Seq<Option<ConsumableComponent>>,
    players: Seq<Option<PlayerComponent>>,
    healths: Seq<Option<HealthComponent>>,
) -> bool {
    &&& (e.player_entity as int) < consumables.len()
    &&& (e.colliding_entity as int) < consumables.len()
    &&& consumables[e.colliding_entity as int] is Some ==> {
        &&& players[e.player_entity as int] is Some
        &&& healths[e.player_entity as int] is Some
    }
}

/// Effect of one event on the player×consumable resolver's stores. When
/// the colliding entity is a consumable: the player's health, armor and
/// money are raised at once, every entity in the shared defense pool gains
/// the defense value, the consumable's sound is requested and its deletion
/// is requested. This is the one resolver that mutates the cross-cutting
/// defense pool directly instead of emitting a follow-up event.
pub open spec fn player_consumable_step(
    consumables: Seq<Option<ConsumableComponent>>,
    tags: Seq<bool>,
    healths: Seq<Option<HealthComponent>>,
    players: Seq<Option<PlayerComponent>>,
    audio: Seq<PlayAudioEvent>,
    deletions: Seq<usize>,
    e: PlayerCollisionEvent,
) -> (Seq<Option<HealthComponent>>, Seq<Option<PlayerComponent>>, Seq<PlayAudioEvent>, Seq<usize>) {
    let pi = e.player_entity as int;
    let ci = e.colliding_entity as int;
    if consumables[ci] is Some {
        let c = consumables[ci]->0;
        let h0 = healths[pi]->0;
        let h1 = healths.update(
            pi,
            Some(
                HealthComponent {
                    value: sat_add(h0.value as int, c.health_value as int) as i64,
                    max: h0.max,
                    armor: sat_add(h0.armor as int, c.armor_value as int) as i64,
                },
            ),
        );
        let h2 = defense_bumped(h1, tags, c.defense_value);
        let p0 = players[pi]->0;
        let p2 = players.update(
            pi,
            Some(PlayerComponent { money: sat_add(p0.money as int, c.money_value as int) as i64, ..p0 }),
        );
        let a2 = audio.push(PlayAudioEvent { sound_key: c.sound_effect });
        let d2 = deletions.push(e.colliding_entity);
        (h2, p2, a2, d2)
    } else {
        (healths, players, audio, deletions)
    }
}

/// The player×consumable resolver's stores after draining the events from
/// index `i` on.
pub open spec fn player_consumable_run(
    consumables: Seq<Option<ConsumableComponent>>,
    tags: Seq<bool>,
    healths: Seq<Option<HealthComponent>>,
    players: Seq<Option<PlayerComponent>>,
    audio: Seq<PlayAudioEvent>,
    deletions: Seq<usize>,
    events: Seq<PlayerCollisionEvent>,
    i: int,
) -> (Seq<Option<HealthComponent>>, Seq<Option<PlayerComponent>>, Seq<PlayAudioEvent>, Seq<usize>)
    decreases events.len() - i,
{
    if i < 0 || i >= events.len() {
        (healths, players, audio, deletions)
    } else {
        let stepped = player_consumable_step(
            consumables,
            tags,
            healths,
            players,
            audio,
            deletions,
            events[i],
        );
        player_consumable_run(
            consumables,
            tags,
            stepped.0,
            stepped.1,
            stepped.2,
            stepped.3,
            events,
            i + 1,
        )
    }
}

/// Resolver for the player ship picking up consumables.
pub struct SpaceshipConsumableCollisionSystem {
    /// Read cursor over the player collision channel.
    pub event_reader: usize,
}

impl SpaceshipConsumableCollisionSystem {
    pub fn new() -> (r: Self)
        ensures
            r.event_reader == 0,
    {
        SpaceshipConsumableCollisionSystem { event_reader: 0 }
    }

    /// Drain the pending player collision events and apply the
    /// player×consumable rule to each.
    pub fn run(
        &mut self,
        channel: &EventChannel<PlayerCollisionEvent>,
        consumables: &Vec<Option<ConsumableComponent>>,
        defense_tags: &Vec<bool>,
        players: &mut Vec<Option<PlayerComponent>>,
        healths: &mut Vec<Option<HealthComponent>>,
        play_audio_channel: &mut EventChannel<PlayAudioEvent>,
        commands: &mut CommandBuffer,
    )
        requires
            old(self).event_reader <= channel@.len(),
            defense_tags@.len() == consumables@.len(),
            old(players)@.len() == consumables@.len(),
            old(healths)@.len() == consumables@.len(),
            forall|i: int|
                old(self).event_reader <= i < channel@.len() ==> player_consumable_event_ok(
                    #[trigger] channel@[i],
                    consumables@,
                    old(players)@,
                    old(healths)@,
                ),
        ensures
            final(self).event_reader == channel@.len(),
            (
                final(healths)@,
                final(players)@,
                final(play_audio_channel)@,
                final(commands).deletions_view(),
            ) == player_consumable_run(
                consumables@,
                defense_tags@,
                old(healths)@,
                old(players)@,
                old(play_audio_channel)@,
                old(commands).deletions_view(),
                channel@,
                old(self).event_reader as int,
            ),
            final(commands).effects_view() == old(commands).effects_view(),
    {
        let ghost co = consumables@;
        let ghost dt = defense_tags@;
        let ghost h0 = old(healths)@;
        let ghost p0 = old(players)@;
        let ghost a0 = old(play_audio_channel)@;
        let ghost d0 = old(commands).deletions_view();
        let ghost f0 = old(commands).effects_view();
        let ghost c0 = old(self).event_reader as int;
        let n: usize = healths.len();

        while self.event_reader < channel.len()
            invariant
                consumables@ == co,
                defense_tags@ == dt,
                c0 <= self.event_reader as int <= channel@.len(),
                co.len() == n && dt.len() == n && h0.len() == n && p0.len() == n,
                healths@.len() == n,
                players@.len() == n,
                commands.effects_view() == f0,
                forall|j: int|
                    0 <= j < n ==> ((#[trigger] healths@[j]) is Some <==> h0[j] is Some),
                forall|j: int|
                    0 <= j < n ==> ((#[trigger] players@[j]) is Some <==> p0[j] is Some),
                forall|i: int|
                    c0 <= i < channel@.len() ==> player_consumable_event_ok(
                        #[trigger] channel@[i],
                        co,
                        p0,
                        h0,
                    ),
                player_consumable_run(co, dt, h0, p0, a0, d0, channel@, c0)
                    == player_consumable_run(
                    co,
                    dt,
                    healths@,
                    players@,
                    play_audio_channel@,
                    commands.deletions_view(),
                    channel@,
                    self.event_reader as int,
                ),
            decreases channel@.len() - self.event_reader,
        {
            let e: PlayerCollisionEvent = *channel.get(self.event_reader);
            let ghost iprev = self.event_reader as int;
            let ghost hprev = healths@;
            let ghost pprev = players@;
            let ghost aprev = play_audio_channel@;
            let ghost dprev = commands.deletions_view();
            proof {
                assert(player_consumable_event_ok(channel@[iprev], co, p0, h0));
            }

            if let Some(consumable) = consumables[e.colliding_entity] {
                let mut spaceship_health: HealthComponent = healths[e.player_entity].unwrap();
                spaceship_health.value = sat_add_i64(
                    spaceship_health.value,
                    consumable.health_value,
                );
                spaceship_health.armor = sat_add_i64(
                    spaceship_health.armor,
                    consumable.armor_value,
                );
                healths[e.player_entity] = Some(spaceship_health);

                let mut player: PlayerComponent = players[e.player_entity].unwrap();
                player.money = sat_add_i64(player.money, consumable.money_value);
                players[e.player_entity] = Some(player);

                let ghost h1 = healths@;
                let mut j: usize = 0;
                while j < n
                    invariant
                        defense_tags@ == dt,
                        0 <= j <= n,
                        dt.len() == n && h1.len() == n,
                        healths@.len() == n,
                        forall|k: int| #![trigger h1[k]]
                            0 <= k < n ==> healths@[k] == (if k < j as int && dt[k] && h1[k]
                                is Some {
                                Some(bumped_health(h1[k]->0, consumable.defense_value))
                            } else {
                                h1[k]
                            }),
                    decreases n - j,
                {
                    let ghost hinner = healths@;
                    let ghost jprev = j as int;
                    if defense_tags[j] {
                        if let Some(defense_health) = healths[j] {
                            let mut bumped: HealthComponent = defense_health;
                            bumped.value = sat_add_i64(bumped.value, consumable.defense_value);
                            healths[j] = Some(bumped);
                        }
                    }
                    j = j + 1;
                    proof {
                        assert forall|k: int| #![trigger h1[k]] 0 <= k < n implies healths@[k] == (
                        if k < j as int && dt[k] && h1[k] is Some {
                            Some(bumped_health(h1[k]->0, consumable.defense_value))
                        } else {
                            h1[k]
                        }) by {
                            assert(hinner[k] == (if k < jprev && dt[k] && h1[k] is Some {
                                Some(bumped_health(h1[k]->0, consumable.defense_value))
                            } else {
                                h1[k]
                            }));
                        }
                    }
                }
                proof {
                    assert(healths@ =~= defense_bumped(h1, dt, consumable.defense_value));
                }

                play_audio_channel.single_write(
                    PlayAudioEvent { sound_key: consumable.sound_effect },
                );

                commands.request_delete(e.colliding_entity);
            }
            self.event_reader = self.event_reader + 1;

            proof {
                assert((
                    healths@,
                    players@,
                    play_audio_channel@,
                    commands.deletions_view(),
                ) == player_consumable_step(co, dt, hprev, pprev, aprev, dprev, channel@[iprev]));
                assert(player_consumable_run(co, dt, hprev, pprev, aprev, dprev, channel@, iprev)
                    == player_consumable_run(
                    co,
                    dt,
                    healths@,
                    players@,
                    play_audio_channel@,
                    commands.deletions_view(),
                    channel@,
                    self.event_reader as int,
                ));
                assert forall|j: int| 0 <= j < n implies ((#[trigger] healths@[j]) is Some
                    <==> h0[j] is Some) by {
                    assert(hprev[j] is Some <==> h0[j] is Some);
                }
                assert forall|j: int| 0 <= j < n implies ((#[trigger] players@[j]) is Some
                    <==> p0[j] is Some) by {
                    assert(pprev[j] is Some <==> p0[j] is Some);
                }
            }
        }
    }
}

/// Well-formedness of an event for the player×barrier resolver; a
/// barrier's configured knockback speed is nonnegative.
pub open spec fn player_barrier_event_ok(
    e: PlayerCollisionEvent,
    barriers: Seq<Option<BarrierComponent>>,
    healths: Seq<Option<HealthComponent>>,
    motions: Seq<Option<Motion2DComponent>>,
) -> bool {
    &&& (e.player_entity as int) < barriers.len()
    &&& (e.colliding_entity as int) < barriers.len()
    &&& barriers[e.colliding_entity as int] is Some ==> {
        &&& (barriers[e.colliding_entity as int]->0).knockback >= 0
        &&& healths[e.player_entity as int] is Some
        &&& motions[e.player_entity as int] is Some
    }
}

/// Effect of one event on the player×barrier resolver's stores. When the
/// colliding entity is a barrier: the player is knocked by the barrier's
/// fixed response, takes the barrier damage unconditionally — no immunity
/// applies — and a force-field sound is requested.
pub open spec fn player_barrier_step(
    barriers: Seq<Option<BarrierComponent>>,
    healths: Seq<Option<HealthComponent>>,
    motions: Seq<Option<Motion2DComponent>>,
    audio: Seq<PlayAudioEvent>,
    e: PlayerCollisionEvent,
) -> (Seq<Option<HealthComponent>>, Seq<Option<Motion2DComponent>>, Seq<PlayAudioEvent>) {
    let pi = e.player_entity as int;
    let ci = e.colliding_entity as int;
    if barriers[ci] is Some {
        let barrier = barriers[ci]->0;
        let h0 = healths[pi]->0;
        let h2 = healths.update(
            pi,
            Some(
                HealthComponent {
                    value: sat_sub(h0.value as int, barrier.damage as int) as i64,
                    ..h0
                },
            ),
        );
        let m2 = motions.update(pi, Some(barrier_knocked(motions[pi]->0, barrier)));
        (h2, m2, audio.push(PlayAudioEvent { sound_key: SoundKey::ForceField }))
    } else {
        (healths, motions, audio)
    }
}

/// The player×barrier resolver's stores after draining the events from
/// index `i` on.
pub open spec fn player_barrier_run(
    barriers: Seq<Option<BarrierComponent>>,
    healths: Seq<Option<HealthComponent>>,
    motions: Seq<Option<Motion2DComponent>>,
    audio: Seq<PlayAudioEvent>,
    events: Seq<PlayerCollisionEvent>,
    i: int,
) -> (Seq<Option<HealthComponent>>, Seq<Option<Motion2DComponent>>, Seq<PlayAudioEvent>)
    decreases events.len() - i,
{
    if i < 0 || i >= events.len() {
        (healths, motions, audio)
    } else {
        let stepped = player_barrier_step(barriers, healths, motions, audio, events[i]);
        player_barrier_run(barriers, stepped.0, stepped.1, stepped.2, events, i + 1)
    }
}

/// Resolver for the player ship running into arena barriers.
pub struct SpaceshipArenaBorderCollisionSystem {
    /// Read cursor over the player collision channel.
    pub event_reader: usize,
}

impl SpaceshipArenaBorderCollisionSystem {
    pub fn new() -> (r: Self)
        ensures
            r.event_reader == 0,
    {
        SpaceshipArenaBorderCollisionSystem { event_reader: 0 }
    }

    /// Drain the pending player collision events and apply the
    /// player×barrier rule to each.
    pub fn run(
        &mut self,
        channel: &EventChannel<PlayerCollisionEvent>,
        barriers: &Vec<Option<BarrierComponent>>,
        motions: &mut Vec<Option<Motion2DComponent>>,
        healths: &mut Vec<Option<HealthComponent>>,
        play_audio_channel: &mut EventChannel<PlayAudioEvent>,
    )
        requires
            old(self).event_reader <= channel@.len(),
            old(motions)@.len() == barriers@.len(),
            old(healths)@.len() == barriers@.len(),
            forall|i: int|
                old(self).event_reader <= i < channel@.len() ==> player_barrier_event_ok(
                    #[trigger] channel@[i],
                    barriers@,
                    old(healths)@,
                    old(motions)@,
                ),
        ensures
            final(self).event_reader == channel@.len(),
            (final(healths)@, final(motions)@, final(play_audio_channel)@) == player_barrier_run(
                barriers@,
                old(healths)@,
                old(motions)@,
                old(play_audio_channel)@,
                channel@,
                old(self).event_reader as int,
            ),
    {
        let ghost ba = barriers@;
        let ghost h0 = old(healths)@;
        let ghost m0 = old(motions)@;
        let ghost a0 = old(play_audio_channel)@;
        let ghost c0 = old(self).event_reader as int;
        let n: usize = healths.len();

        while self.event_reader < channel.len()
            invariant
                barriers@ == ba,
                c0 <= self.event_reader as int <= channel@.len(),
                ba.len() == n && h0.len() == n && m0.len() == n,
                healths@.len() == n,
                motions@.len() == n,
                forall|j: int|
                    0 <= j < n ==> ((#[trigger] healths@[j]) is Some <==> h0[j] is Some),
                forall|j: int|
                    0 <= j < n ==> ((#[trigger] motions@[j]) is Some <==> m0[j] is Some),
                forall|i: int|
                    c0 <= i < channel@.len() ==> player_barrier_event_ok(
                        #[trigger] channel@[i],
                        ba,
                        h0,
                        m0,
                    ),
                player_barrier_run(ba, h0, m0, a0, channel@, c0) == player_barrier_run(
                    ba,
                    healths@,
                    motions@,
                    play_audio_channel@,
                    channel@,
                    self.event_reader as int,
                ),
            decreases channel@.len() - self.event_reader,
        {
            let e: PlayerCollisionEvent = *channel.get(self.event_reader);
            let ghost iprev = self.event_reader as int;
            let ghost hprev = healths@;
            let ghost mprev = motions@;
            let ghost aprev = play_audio_channel@;
            proof {
                assert(player_barrier_event_ok(channel@[iprev], ba, h0, m0));
            }

            if let Some(barrier) = barriers[e.colliding_entity] {
                let mut player_motion: Motion2DComponent = motions[e.player_entity].unwrap();
                let mut player_health: HealthComponent = healths[e.player_entity].unwrap();

                barrier_collision(&mut player_motion, &barrier);
                motions[e.player_entity] = Some(player_motion);

                player_health.value = sat_sub_i64(player_health.value, barrier.damage);
                healths[e.player_entity] = Some(player_health);

                play_audio_channel.single_write(
                    PlayAudioEvent { sound_key: SoundKey::ForceField },
                );
            }
            self.event_reader = self.event_reader + 1;

            proof {
                assert((healths@, motions@, play_audio_channel@) == player_barrier_step(
                    ba,
                    hprev,
                    mprev,
                    aprev,
                    channel@[iprev],
                ));
                assert(player_barrier_run(ba, hprev, mprev, aprev, channel@, iprev)
                    == player_barrier_run(
                    ba,
                    healths@,
                    motions@,
                    play_audio_channel@,
                    channel@,
                    self.event_reader as int,
                ));
                assert forall|j: int| 0 <= j < n implies ((#[trigger] healths@[j]) is Some
                    <==> h0[j] is Some) by {
                    assert(hprev[j] is Some <==> h0[j] is Some);
                }
                assert forall|j: int| 0 <= j < n implies ((#[trigger] motions@[j]) is Some
                    <==> m0[j] is Some) by {
                    assert(mprev[j] is Some <==> m0[j] is Some);
                }
            }
        }
    }
}

/// The two barrel-roll immunities, stated together because their asymmetry
/// is deliberate: colliding with an enemy costs the player nothing only
/// when a non-neutral roll and the steel flag hold together, and costs the
/// full collision damage otherwise; an enemy blast never hits while the
/// roll direction is non-neutral, with the steel flag playing no part.
pub proof fn lemma_barrel_roll_immunity(
    enemies: Seq<Option<EnemyComponent>>,
    blasts: Seq<Option<BlastComponent>>,
    rolls: Seq<Option<BarrelRollAbilityComponent>>,
    transforms: Seq<Option<Position>>,
    params: GameParametersResource,
    healths: Seq<Option<HealthComponent>>,
    motions: Seq<Option<Motion2DComponent>>,
    deletions: Seq<usize>,
    effects: Seq<EffectSpawnCommand>,
    e: PlayerCollisionEvent,
)
    requires
        (e.player_entity as int) < healths.len(),
        healths[e.player_entity as int] is Some,
    ensures
        (enemies[e.colliding_entity as int] is Some && collision_damage_immune(
            rolls[e.player_entity as int],
        )) ==> player_enemy_step(enemies, rolls, params, healths, motions, e).0 == healths,
        (enemies[e.colliding_entity as int] is Some && !collision_damage_immune(
            rolls[e.player_entity as int],
        )) ==> ({
            let h2 = player_enemy_step(enemies, rolls, params, healths, motions, e).0;
            let pi = e.player_entity as int;
            h2[pi] is Some && (h2[pi]->0).value as int == sat_sub(
                (healths[pi]->0).value as int,
                (enemies[e.colliding_entity as int]->0).collision_damage as int,
            )
        }),
        (blasts[e.colliding_entity as int] is Some && blast_hit_immune(
            rolls[e.player_entity as int],
        )) ==> player_blast_step(blasts, rolls, transforms, healths, deletions, effects, e) == (
            healths,
            deletions,
            effects,
        ),
{
}

} // verus!
