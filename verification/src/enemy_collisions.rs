//! Resolvers for collision events whose subject is an enemy: against the
//! player, another enemy, an allied blast, and an arena barrier. Each
//! resolver drains its own cursor over the shared channel, so every
//! resolver sees every event exactly once.

use vstd::prelude::*;

use crate::collision::barrier_collision;
use crate::collision::barrier_knocked;
use crate::collision::immovable_collision;
use crate::collision::immovable_knocked;
use crate::collision::standard_collision;
use crate::collision::standard_knocked;
use crate::commands::CommandBuffer;
use crate::commands::EffectSpawnCommand;
use crate::components::BarrierComponent;
use crate::components::BlastComponent;
use crate::components::BlastType;
use crate::components::EffectType;
use crate::components::EnemyComponent;
use crate::components::EnemyType;
use crate::components::HealthComponent;
use crate::components::Motion2DComponent;
use crate::components::PlayerComponent;
use crate::components::Position;
use crate::components::SoundKey;
use crate::components::SpawnableType;
use crate::events::EnemyCollisionEvent;
use crate::events::EventChannel;
use crate::events::PlayAudioEvent;
use crate::math::sat_sub;
use crate::math::sat_sub_i64;
use crate::resources::GameParametersResource;

verus! {

/// The enemy subkind that dies to any contact.
pub open spec fn spec_is_missile(enemy: EnemyComponent) -> bool {
    enemy.spawnable_type == SpawnableType::Enemy(EnemyType::Missile)
}

/// Health of an enemy after being rammed for `damage`: a missile's health
/// is forced to exactly zero, anything else loses the damage.
pub open spec fn rammed_health(
    h: HealthComponent,
    enemy: EnemyComponent,
    damage: i64,
) -> HealthComponent {
    if spec_is_missile(enemy) {
        HealthComponent { value: 0, ..h }
    } else {
        HealthComponent { value: sat_sub(h.value as int, damage as int) as i64, ..h }
    }
}

/// An enemy-subject event is well formed for the enemy×player resolver
/// when its entities are in bounds and, if the colliding entity really is
/// the player, the enemy side carries the components the rule reads.
pub open spec fn enemy_player_event_ok(
    e: EnemyCollisionEvent,
    players: Seq<Option<PlayerComponent>>,
    enemies: Seq<Option<EnemyComponent>>,
    healths: Seq<Option<HealthComponent>>,
    motions: Seq<Option<Motion2DComponent>>,
) -> bool {
    &&& (e.enemy_entity as int) < players.len()
    &&& (e.colliding_entity as int) < players.len()
    &&& players[e.colliding_entity as int] is Some ==> {
        &&& enemies[e.enemy_entity as int] is Some
        &&& healths[e.enemy_entity as int] is Some
        &&& motions[e.enemy_entity as int] is Some
    }
}

/// Effect of one event on the enemy×player resolver's stores. When the
/// colliding entity is the player: a crash sound is requested, the enemy's
/// health takes the player's collision damage (a missile dies outright),
/// and a movable enemy with a recorded relative velocity is knocked back.
pub open spec fn enemy_player_step(
    players: Seq<Option<PlayerComponent>>,
    enemies: Seq<Option<EnemyComponent>>,
    params: GameParametersResource,
    healths: Seq<Option<HealthComponent>>,
    motions: Seq<Option<Motion2DComponent>>,
    audio: Seq<PlayAudioEvent>,
    e: EnemyCollisionEvent,
) -> (Seq<Option<HealthComponent>>, Seq<Option<Motion2DComponent>>, Seq<PlayAudioEvent>) {
    let ei = e.enemy_entity as int;
    let ci = e.colliding_entity as int;
    if players[ci] is Some {
        let player = players[ci]->0;
        let enemy = enemies[ei]->0;
        let h2 = healths.update(
            ei,
            Some(rammed_health(healths[ei]->0, enemy, player.collision_damage)),
        );
        let m0 = motions[ei]->0;
        let m2 = if !m0.immovable && e.collision_velocity is Some {
            motions.update(
                ei,
                Some(standard_knocked(m0, e.collision_velocity->0, params.min_collision_knockback)),
            )
        } else {
            motions
        };
        (h2, m2, audio.push(PlayAudioEvent { sound_key: SoundKey::MetalCrash }))
    } else {
        (healths, motions, audio)
    }
}

/// The enemy×player resolver's stores after draining the events from
/// index `i` on.
pub open spec fn enemy_player_run(
    players: Seq<Option<PlayerComponent>>,
    enemies: Seq<Option<EnemyComponent>>,
    params: GameParametersResource,
    healths: Seq<Option<HealthComponent>>,
    motions: Seq<Option<Motion2DComponent>>,
    audio: Seq<PlayAudioEvent>,
    events: Seq<EnemyCollisionEvent>,
    i: int,
) -> (Seq<Option<HealthComponent>>, Seq<Option<Motion2DComponent>>, Seq<PlayAudioEvent>)
    decreases events.len() - i,
{
    if i < 0 || i >= events.len() {
        (healths, motions, audio)
    } else {
        let stepped = enemy_player_step(players, enemies, params, healths, motions, audio, events[i]);
        enemy_player_run(players, enemies, params, stepped.0, stepped.1, stepped.2, events, i + 1)
    }
}

/// Resolver for enemies colliding with the player ship.
pub struct EnemyPlayerCollisionSystem {
    /// Read cursor over the enemy collision channel.
    pub event_reader: usize,
}

impl EnemyPlayerCollisionSystem {
    pub fn new() -> (r: Self)
        ensures
            r.event_reader == 0,
    {
        EnemyPlayerCollisionSystem { event_reader: 0 }
    }

    /// Drain the pending enemy collision events and apply the enemy×player
    /// rule to each.
    pub fn run(
        &mut self,
        channel: &EventChannel<EnemyCollisionEvent>,
        game_parameters: &GameParametersResource,
        players: &Vec<Option<PlayerComponent>>,
        enemies: &Vec<Option<EnemyComponent>>,
        motions: &mut Vec<Option<Motion2DComponent>>,
        healths: &mut Vec<Option<HealthComponent>>,
        play_audio_channel: &mut EventChannel<PlayAudioEvent>,
    )
        requires
            old(self).event_reader <= channel@.len(),
            enemies@.len() == players@.len(),
            old(motions)@.len() == players@.len(),
            old(healths)@.len() == players@.len(),
            game_parameters.min_collision_knockback >= 0,
            forall|i: int|
                old(self).event_reader <= i < channel@.len() ==> enemy_player_event_ok(
                    #[trigger] channel@[i],
                    players@,
                    enemies@,
                    old(healths)@,
                    old(motions)@,
                ),
        ensures
            final(self).event_reader == channel@.len(),
            (final(healths)@, final(motions)@, final(play_audio_channel)@) == enemy_player_run(
                players@,
                enemies@,
                *game_parameters,
                old(healths)@,
                old(motions)@,
                old(play_audio_channel)@,
                channel@,
                old(self).event_reader as int,
            ),
    {
        let ghost pl = players@;
        let ghost en = enemies@;
        let ghost params = *game_parameters;
        let ghost h0 = old(healths)@;
        let ghost m0 = old(motions)@;
        let ghost a0 = old(play_audio_channel)@;
        let ghost c0 = old(self).event_reader as int;
        let n: usize = healths.len();

        while self.event_reader < channel.len()
            invariant
                players@ == pl,
                enemies@ == en,
                *game_parameters == params,
                c0 <= self.event_reader as int <= channel@.len(),
                pl.len() == n && en.len() == n && h0.len() == n && m0.len() == n,
                healths@.len() == n,
                motions@.len() == n,
                params.min_collision_knockback >= 0,
                forall|j: int|
                    0 <= j < n ==> ((#[trigger] healths@[j]) is Some <==> h0[j] is Some),
                forall|j: int|
                    0 <= j < n ==> ((#[trigger] motions@[j]) is Some <==> m0[j] is Some),
                forall|i: int|
                    c0 <= i < channel@.len() ==> enemy_player_event_ok(
                        #[trigger] channel@[i],
                        pl,
                        en,
                        h0,
                        m0,
                    ),
                enemy_player_run(pl, en, params, h0, m0, a0, channel@, c0) == enemy_player_run(
                    pl,
                    en,
                    params,
                    healths@,
                    motions@,
                    play_audio_channel@,
                    channel@,
                    self.event_reader as int,
                ),
            decreases channel@.len() - self.event_reader,
        {
            let e: EnemyCollisionEvent = *channel.get(self.event_reader);
            let ghost iprev = self.event_reader as int;
            let ghost hprev = healths@;
            let ghost mprev = motions@;
            let ghost aprev = play_audio_channel@;
            proof {
                assert(enemy_player_event_ok(channel@[iprev], pl, en, h0, m0));
            }

            if let Some(player) = players[e.colliding_entity] {
                play_audio_channel.single_write(
                    PlayAudioEvent { sound_key: SoundKey::MetalCrash },
                );

                let enemy: EnemyComponent = enemies[e.enemy_entity].unwrap();
                let mut enemy_health: HealthComponent = healths[e.enemy_entity].unwrap();

                match enemy.spawnable_type {
                    SpawnableType::Enemy(EnemyType::Missile) => {
                        enemy_health.value = 0;
                    },
                    _ => {
                        enemy_health.value = sat_sub_i64(
                            enemy_health.value,
                            player.collision_damage,
                        );
                    },
                }
                healths[e.enemy_entity] = Some(enemy_health);

                let mut enemy_motion: Motion2DComponent = motions[e.enemy_entity].unwrap();
                if !enemy_motion.immovable {
                    if let Some(collision_velocity) = e.collision_velocity {
                        standard_collision(
                            &mut enemy_motion,
                            collision_velocity,
                            game_parameters.min_collision_knockback,
                        );
                        motions[e.enemy_entity] = Some(enemy_motion);
                    }
                }
            }
            self.event_reader = self.event_reader + 1;

            proof {
                assert((healths@, motions@, play_audio_channel@) == enemy_player_step(
                    pl,
                    en,
                    params,
                    hprev,
                    mprev,
                    aprev,
                    channel@[iprev],
                ));
                assert(enemy_player_run(pl, en, params, hprev, mprev, aprev, channel@, iprev)
                    == enemy_player_run(
                    pl,
                    en,
                    params,
                    healths@,
                    motions@,
                    play_audio_channel@,
                    channel@,
                    self.event_reader as int,
                ));
                assert forall|j: int| 0 <= j < n implies ((#[trigger] healths@[j]) is Some
                    <==> h0[j] is Some) by {
                    assert(hprev[j] is Some <==> h0[j] is Some);
                }
                assert forall|j: int| 0 <= j < n implies ((#[trigger] motions@[j]) is Some
                    <==> m0[j] is Some) by {
                    assert(mprev[j] is Some <==> m0[j] is Some);
                }
            }
        }
    }
}

/// Well-formedness of an event for the enemy×enemy resolver.
pub open spec fn enemy_enemy_event_ok(
    e: EnemyCollisionEvent,
    enemies: Seq<Option<EnemyComponent>>,
    healths: Seq<Option<HealthComponent>>,
    motions: Seq<Option<Motion2DComponent>>,
) -> bool {
    &&& (e.enemy_entity as int) < enemies.len()
    &&& (e.colliding_entity as int) < enemies.len()
    &&& enemies[e.colliding_entity as int] is Some ==> {
        &&& enemies[e.enemy_entity as int] is Some
        &&& healths[e.enemy_entity as int] is Some
        &&& motions[e.enemy_entity as int] is Some
    }
}

/// Effect of one event on the enemy×enemy resolver's stores. When the
/// colliding entity is another enemy: a crash sound is requested, the
/// subject enemy's health takes the collider's collision damage (a missile
/// dies outright), and a movable subject with a recorded relative velocity
/// is knocked back — one-sidedly when the collider is immovable.
pub open spec fn enemy_enemy_step(
    enemies: Seq<Option<EnemyComponent>>,
    params: GameParametersResource,
    healths: Seq<Option<HealthComponent>>,
    motions: Seq<Option<Motion2DComponent>>,
    audio: Seq<PlayAudioEvent>,
    e: EnemyCollisionEvent,
) -> (Seq<Option<HealthComponent>>, Seq<Option<Motion2DComponent>>, Seq<PlayAudioEvent>) {
    let ei = e.enemy_entity as int;
    let ci = e.colliding_entity as int;
    if enemies[ci] is Some {
        let colliding_enemy = enemies[ci]->0;
        let enemy = enemies[ei]->0;
        let h2 = healths.update(
            ei,
            Some(rammed_health(healths[ei]->0, enemy, colliding_enemy.collision_damage)),
        );
        let m0 = motions[ei]->0;
        let m2 = if !m0.immovable && e.collision_velocity is Some {
            let knocked = if e.collider_immovable {
                immovable_knocked(m0, e.collision_velocity->0, params.min_collision_knockback)
            } else {
                standard_knocked(m0, e.collision_velocity->0, params.min_collision_knockback)
            };
            motions.update(ei, Some(knocked))
        } else {
            motions
        };
        (h2, m2, audio.push(PlayAudioEvent { sound_key: SoundKey::MetalCrash }))
    } else {
        (healths, motions, audio)
    }
}

/// The enemy×enemy resolver's stores after draining the events from index
/// `i` on.
pub open spec fn enemy_enemy_run(
    enemies: Seq<Option<EnemyComponent>>,
    params: GameParametersResource,
    healths: Seq<Option<HealthComponent>>,
    motions: Seq<Option<Motion2DComponent>>,
    audio: Seq<PlayAudioEvent>,
    events: Seq<EnemyCollisionEvent>,
    i: int,
) -> (Seq<Option<HealthComponent>>, Seq<Option<Motion2DComponent>>, Seq<PlayAudioEvent>)
    decreases events.len() - i,
{
    if i < 0 || i >= events.len() {
        (healths, motions, audio)
    } else {
        let stepped = enemy_enemy_step(enemies, params, healths, motions, audio, events[i]);
        enemy_enemy_run(enemies, params, stepped.0, stepped.1, stepped.2, events, i + 1)
    }
}

/// Resolver for enemies colliding with other enemies.
pub struct EnemyEnemyCollisionSystem {
    /// Read cursor over the enemy collision channel.
    pub event_reader: usize,
}

impl EnemyEnemyCollisionSystem {
    pub fn new() -> (r: Self)
        ensures
            r.event_reader == 0,
    {
        EnemyEnemyCollisionSystem { event_reader: 0 }
    }

    /// Drain the pending enemy collision events and apply the enemy×enemy
    /// rule to each.
    pub fn run(
        &mut self,
        channel: &EventChannel<EnemyCollisionEvent>,
        game_parameters: &GameParametersResource,
        enemies: &Vec<Option<EnemyComponent>>,
        motions: &mut Vec<Option<Motion2DComponent>>,
        healths: &mut Vec<Option<HealthComponent>>,
        play_audio_channel: &mut EventChannel<PlayAudioEvent>,
    )
        requires
            old(self).event_reader <= channel@.len(),
            old(motions)@.len() == enemies@.len(),
            old(healths)@.len() == enemies@.len(),
            game_parameters.min_collision_knockback >= 0,
            forall|i: int|
                old(self).event_reader <= i < channel@.len() ==> enemy_enemy_event_ok(
                    #[trigger] channel@[i],
                    enemies@,
                    old(healths)@,
                    old(motions)@,
                ),
        ensures
            final(self).event_reader == channel@.len(),
            (final(healths)@, final(motions)@, final(play_audio_channel)@) == enemy_enemy_run(
                enemies@,
                *game_parameters,
                old(healths)@,
                old(motions)@,
                old(play_audio_channel)@,
                channel@,
                old(self).event_reader as int,
            ),
    {
        let ghost en = enemies@;
        let ghost params = *game_parameters;
        let ghost h0 = old(healths)@;
        let ghost m0 = old(motions)@;
        let ghost a0 = old(play_audio_channel)@;
        let ghost c0 = old(self).event_reader as int;
        let n: usize = healths.len();

        while self.event_reader < channel.len()
            invariant
                enemies@ == en,
                *game_parameters == params,
                c0 <= self.event_reader as int <= channel@.len(),
                en.len() == n && h0.len() == n && m0.len() == n,
                healths@.len() == n,
                motions@.len() == n,
                params.min_collision_knockback >= 0,
                forall|j: int|
                    0 <= j < n ==> ((#[trigger] healths@[j]) is Some <==> h0[j] is Some),
                forall|j: int|
                    0 <= j < n ==> ((#[trigger] motions@[j]) is Some <==> m0[j] is Some),
                forall|i: int|
                    c0 <= i < channel@.len() ==> enemy_enemy_event_ok(
                        #[trigger] channel@[i],
                        en,
                        h0,
                        m0,
                    ),
                enemy_enemy_run(en, params, h0, m0, a0, channel@, c0) == enemy_enemy_run(
                    en,
                    params,
                    healths@,
                    motions@,
                    play_audio_channel@,
                    channel@,
                    self.event_reader as int,
                ),
            decreases channel@.len() - self.event_reader,
        {
            let e: EnemyCollisionEvent = *channel.get(self.event_reader);
            let ghost iprev = self.event_reader as int;
            let ghost hprev = healths@;
            let ghost mprev = motions@;
            let ghost aprev = play_audio_channel@;
            proof {
                assert(enemy_enemy_event_ok(channel@[iprev], en, h0, m0));
            }

            if let Some(colliding_enemy) = enemies[e.colliding_entity] {
                play_audio_channel.single_write(
                    PlayAudioEvent { sound_key: SoundKey::MetalCrash },
                );

                let enemy: EnemyComponent = enemies[e.enemy_entity].unwrap();
                let mut enemy_health: HealthComponent = healths[e.enemy_entity].unwrap();

                match enemy.spawnable_type {
                    SpawnableType::Enemy(EnemyType::Missile) => {
                        enemy_health.value = 0;
                    },
                    _ => {
                        enemy_health.value = sat_sub_i64(
                            enemy_health.value,
                            colliding_enemy.collision_damage,
                        );
                    },
                }
                healths[e.enemy_entity] = Some(enemy_health);

                let mut enemy_motion: Motion2DComponent = motions[e.enemy_entity].unwrap();
                if !enemy_motion.immovable {
                    if let Some(collision_velocity) = e.collision_velocity {
                        if e.collider_immovable {
                            immovable_collision(
                                &mut enemy_motion,
                                collision_velocity,
                                game_parameters.min_collision_knockback,
                            );
                        } else {
                            standard_collision(
                                &mut enemy_motion,
                                collision_velocity,
                                game_parameters.min_collision_knockback,
                            );
                        }
                        motions[e.enemy_entity] = Some(enemy_motion);
                    }
                }
            }
            self.event_reader = self.event_reader + 1;

            proof {
                assert((healths@, motions@, play_audio_channel@) == enemy_enemy_step(
                    en,
                    params,
                    hprev,
                    mprev,
                    aprev,
                    channel@[iprev],
                ));
                assert(enemy_enemy_run(en, params, hprev, mprev, aprev, channel@, iprev)
                    == enemy_enemy_run(
                    en,
                    params,
                    healths@,
                    motions@,
                    play_audio_channel@,
                    channel@,
                    self.event_reader as int,
                ));
                assert forall|j: int| 0 <= j < n implies ((#[trigger] healths@[j]) is Some
                    <==> h0[j] is Some) by {
                    assert(hprev[j] is Some <==> h0[j] is Some);
                }
                assert forall|j: int| 0 <= j < n implies ((#[trigger] motions@[j]) is Some
                    <==> m0[j] is Some) by {
                    assert(mprev[j] is Some <==> m0[j] is Some);
                }
            }
        }
    }
}

/// The explosion effect an allied blast leaves behind.
pub open spec fn ally_blast_effect(blast_type: BlastType) -> EffectType {
    match blast_type {
        BlastType::Ally => EffectType::AllyBlastExplosion,
        BlastType::AllyCritical => EffectType::CriticalBlastExplosion,
        BlastType::AllyPoison => EffectType::PoisonBlastExplosion,
        BlastType::Enemy => EffectType::EnemyBlastExplosion,
    }
}

/// A blast is allied with the player.
pub open spec fn is_ally_blast(blast: BlastComponent) -> bool {
    blast.blast_type == BlastType::Ally || blast.blast_type == BlastType::AllyCritical
        || blast.blast_type == BlastType::AllyPoison
}

/// Well-formedness of an event for the enemy×blast resolver.
pub open spec fn enemy_blast_event_ok(
    e: EnemyCollisionEvent,
    enemies: Seq<Option<EnemyComponent>>,
    blasts: Seq<Option<BlastComponent>>,
    healths: Seq<Option<HealthComponent>>,
    transforms: Seq<Option<Position>>,
) -> bool {
    &&& (e.enemy_entity as int) < blasts.len()
    &&& (e.colliding_entity as int) < blasts.len()
    &&& blasts[e.colliding_entity as int] is Some ==> {
        &&& enemies[e.enemy_entity as int] is Some
        &&& healths[e.enemy_entity as int] is Some
        &&& transforms[e.colliding_entity as int] is Some
    }
}

/// Effect of one event on the enemy×blast resolver's stores. When the
/// colliding entity is an allied blast: the blast's deletion is requested,
/// a ping sound and an explosion effect at the blast's position are
/// emitted, and the enemy's health takes the blast damage (a missile dies
/// outright). An enemy-aligned blast leaves its own side untouched.
pub open spec fn enemy_blast_step(
    enemies: Seq<Option<EnemyComponent>>,
    blasts: Seq<Option<BlastComponent>>,
    transforms: Seq<Option<Position>>,
    healths: Seq<Option<HealthComponent>>,
    deletions: Seq<usize>,
    effects: Seq<EffectSpawnCommand>,
    audio: Seq<PlayAudioEvent>,
    e: EnemyCollisionEvent,
) -> (Seq<Option<HealthComponent>>, Seq<usize>, Seq<EffectSpawnCommand>, Seq<PlayAudioEvent>) {
    let ei = e.enemy_entity as int;
    let ci = e.colliding_entity as int;
    if blasts[ci] is Some && is_ally_blast(blasts[ci]->0) {
        let blast = blasts[ci]->0;
        let enemy = enemies[ei]->0;
        let h2 = healths.update(ei, Some(rammed_health(healths[ei]->0, enemy, blast.damage)));
        let d2 = deletions.push(e.colliding_entity);
        let f2 = effects.push(
            EffectSpawnCommand {
                effect_type: ally_blast_effect(blast.blast_type),
                position: transforms[ci]->0,
            },
        );
        let a2 = audio.push(PlayAudioEvent { sound_key: SoundKey::MetalPing });
        (h2, d2, f2, a2)
    } else {
        (healths, deletions, effects, audio)
    }
}

/// The enemy×blast resolver's stores after draining the events from index
/// `i` on.
pub open spec fn enemy_blast_run(
    enemies: Seq<Option<EnemyComponent>>,
    blasts: Seq<Option<BlastComponent>>,
    transforms: Seq<Option<Position>>,
    healths: Seq<Option<HealthComponent>>,
    deletions: Seq<usize>,
    effects: Seq<EffectSpawnCommand>,
    audio: Seq<PlayAudioEvent>,
    events: Seq<EnemyCollisionEvent>,
    i: int,
) -> (Seq<Option<HealthComponent>>, Seq<usize>, Seq<EffectSpawnCommand>, Seq<PlayAudioEvent>)
    decreases events.len() - i,
{
    if i < 0 || i >= events.len() {
        (healths, deletions, effects, audio)
    } else {
        let stepped = enemy_blast_step(
            enemies,
            blasts,
            transforms,
            healths,
            deletions,
            effects,
            audio,
            events[i],
        );
        enemy_blast_run(
            enemies,
            blasts,
            transforms,
            stepped.0,
            stepped.1,
            stepped.2,
            stepped.3,
            events,
            i + 1,
        )
    }
}

/// Resolver for enemies hit by allied blasts.
pub struct EnemyBlastCollisionSystem {
    /// Read cursor over the enemy collision channel.
    pub event_reader: usize,
}

impl EnemyBlastCollisionSystem {
    pub fn new() -> (r: Self)
        ensures
            r.event_reader == 0,
    {
        EnemyBlastCollisionSystem { event_reader: 0 }
    }

    /// Drain the pending enemy collision events and apply the enemy×blast
    /// rule to each.
    pub fn run(
        &mut self,
        channel: &EventChannel<EnemyCollisionEvent>,
        enemies: &Vec<Option<EnemyComponent>>,
        blasts: &Vec<Option<BlastComponent>>,
        transforms: &Vec<Option<Position>>,
        healths: &mut Vec<Option<HealthComponent>>,
        commands: &mut CommandBuffer,
        play_audio_channel: &mut EventChannel<PlayAudioEvent>,
    )
        requires
            old(self).event_reader <= channel@.len(),
            enemies@.len() == blasts@.len(),
            transforms@.len() == blasts@.len(),
            old(healths)@.len() == blasts@.len(),
            forall|i: int|
                old(self).event_reader <= i < channel@.len() ==> enemy_blast_event_ok(
                    #[trigger] channel@[i],
                    enemies@,
                    blasts@,
                    old(healths)@,
                    transforms@,
                ),
        ensures
            final(self).event_reader == channel@.len(),
            (
                final(healths)@,
                final(commands).deletions_view(),
                final(commands).effects_view(),
                final(play_audio_channel)@,
            ) == enemy_blast_run(
                enemies@,
                blasts@,
                transforms@,
                old(healths)@,
                old(commands).deletions_view(),
                old(commands).effects_view(),
                old(play_audio_channel)@,
                channel@,
                old(self).event_reader as int,
            ),
    {
        let ghost en = enemies@;
        let ghost bl = blasts@;
        let ghost tr = transforms@;
        let ghost h0 = old(healths)@;
        let ghost d0 = old(commands).deletions_view();
        let ghost f0 = old(commands).effects_view();
        let ghost a0 = old(play_audio_channel)@;
        let ghost c0 = old(self).event_reader as int;
        let n: usize = healths.len();

        while self.event_reader < channel.len()
            invariant
                enemies@ == en,
                blasts@ == bl,
                transforms@ == tr,
                c0 <= self.event_reader as int <= channel@.len(),
                en.len() == n && bl.len() == n && tr.len() == n && h0.len() == n,
                healths@.len() == n,
                forall|j: int|
                    0 <= j < n ==> ((#[trigger] healths@[j]) is Some <==> h0[j] is Some),
                forall|i: int|
                    c0 <= i < channel@.len() ==> enemy_blast_event_ok(
                        #[trigger] channel@[i],
                        en,
                        bl,
                        h0,
                        tr,
                    ),
                enemy_blast_run(en, bl, tr, h0, d0, f0, a0, channel@, c0) == enemy_blast_run(
                    en,
                    bl,
                    tr,
                    healths@,
                    commands.deletions_view(),
                    commands.effects_view(),
                    play_audio_channel@,
                    channel@,
                    self.event_reader as int,
                ),
            decreases channel@.len() - self.event_reader,
        {
            let e: EnemyCollisionEvent = *channel.get(self.event_reader);
            let ghost iprev = self.event_reader as int;
            let ghost hprev = healths@;
            let ghost dprev = commands.deletions_view();
            let ghost fprev = commands.effects_view();
            let ghost aprev = play_audio_channel@;
            proof {
                assert(enemy_blast_event_ok(channel@[iprev], en, bl, h0, tr));
            }

            if let Some(blast) = blasts[e.colliding_entity] {
                match blast.blast_type {
                    BlastType::Ally | BlastType::AllyCritical | BlastType::AllyPoison => {
                        let blast_transform: Position = transforms[e.colliding_entity].unwrap();
                        commands.request_delete(e.colliding_entity);

                        play_audio_channel.single_write(
                            PlayAudioEvent { sound_key: SoundKey::MetalPing },
                        );

                        let effect_type: EffectType = match blast.blast_type {
                            BlastType::Ally => EffectType::AllyBlastExplosion,
                            BlastType::AllyCritical => EffectType::CriticalBlastExplosion,
                            BlastType::AllyPoison => EffectType::PoisonBlastExplosion,
                            BlastType::Enemy => EffectType::EnemyBlastExplosion,
                        };
                        commands.request_effect(
                            EffectSpawnCommand { effect_type, position: blast_transform },
                        );

                        let enemy: EnemyComponent = enemies[e.enemy_entity].unwrap();
                        let mut enemy_health: HealthComponent = healths[e.enemy_entity].unwrap();
                        match enemy.spawnable_type {
                            SpawnableType::Enemy(EnemyType::Missile) => {
                                enemy_health.value = 0;
                            },
                            _ => {
                                enemy_health.value = sat_sub_i64(enemy_health.value, blast.damage);
                            },
                        }
                        healths[e.enemy_entity] = Some(enemy_health);
                    },
                    _ => {},
                }
            }
            self.event_reader = self.event_reader + 1;

            proof {
                assert((
                    healths@,
                    commands.deletions_view(),
                    commands.effects_view(),
                    play_audio_channel@,
                ) == enemy_blast_step(en, bl, tr, hprev, dprev, fprev, aprev, channel@[iprev]));
                assert(enemy_blast_run(en, bl, tr, hprev, dprev, fprev, aprev, channel@, iprev)
                    == enemy_blast_run(
                    en,
                    bl,
                    tr,
                    healths@,
                    commands.deletions_view(),
                    commands.effects_view(),
                    play_audio_channel@,
                    channel@,
                    self.event_reader as int,
                ));
                assert forall|j: int| 0 <= j < n implies ((#[trigger] healths@[j]) is Some
                    <==> h0[j] is Some) by {
                    assert(hprev[j] is Some <==> h0[j] is Some);
                }
            }
        }
    }
}

/// Well-formedness of an event for the enemy×barrier resolver; a barrier's
/// configured knockback speed is nonnegative.
pub open spec fn enemy_barrier_event_ok(
    e: EnemyCollisionEvent,
    barriers: Seq<Option<BarrierComponent>>,
    enemies: Seq<Option<EnemyComponent>>,
    healths: Seq<Option<HealthComponent>>,
    motions: Seq<Option<Motion2DComponent>>,
) -> bool {
    &&& (e.enemy_entity as int) < barriers.len()
    &&& (e.colliding_entity as int) < barriers.len()
    &&& barriers[e.colliding_entity as int] is Some ==> {
        &&& (barriers[e.colliding_entity as int]->0).knockback >= 0
        &&& enemies[e.enemy_entity as int] is Some
        &&& healths[e.enemy_entity as int] is Some
        &&& motions[e.enemy_entity as int] is Some
    }
}

/// Effect of one event on the enemy×barrier resolver's stores. When the
/// colliding entity is a barrier that blocks enemies: a non-missile enemy
/// is knocked by the barrier's fixed response, takes the barrier damage,
/// and a force-field sound is requested; missiles pass unharmed.
pub open spec fn enemy_barrier_step(
    barriers: Seq<Option<BarrierComponent>>,
    enemies: Seq<Option<EnemyComponent>>,
    healths: Seq<Option<HealthComponent>>,
    motions: Seq<Option<Motion2DComponent>>,
    audio: Seq<PlayAudioEvent>,
    e: EnemyCollisionEvent,
) -> (Seq<Option<HealthComponent>>, Seq<Option<Motion2DComponent>>, Seq<PlayAudioEvent>) {
    let ei = e.enemy_entity as int;
    let ci = e.colliding_entity as int;
    if barriers[ci] is Some && !(barriers[ci]->0).enemies_pass && !spec_is_missile(enemies[ei]->0) {
        let barrier = barriers[ci]->0;
        let h0 = healths[ei]->0;
        let h2 = healths.update(
            ei,
            Some(
                HealthComponent {
                    value: sat_sub(h0.value as int, barrier.damage as int) as i64,
                    ..h0
                },
            ),
        );
        let m2 = motions.update(ei, Some(barrier_knocked(motions[ei]->0, barrier)));
        (h2, m2, audio.push(PlayAudioEvent { sound_key: SoundKey::ForceField }))
    } else {
        (healths, motions, audio)
    }
}

/// The enemy×barrier resolver's stores after draining the events from
/// index `i` on.
pub open spec fn enemy_barrier_run(
    barriers: Seq<Option<BarrierComponent>>,
    enemies: Seq<Option<EnemyComponent>>,
    healths: Seq<Option<HealthComponent>>,
    motions: Seq<Option<Motion2DComponent>>,
    audio: Seq<PlayAudioEvent>,
    events: Seq<EnemyCollisionEvent>,
    i: int,
) -> (Seq<Option<HealthComponent>>, Seq<Option<Motion2DComponent>>, Seq<PlayAudioEvent>)
    decreases events.len() - i,
{
    if i < 0 || i >= events.len() {
        (healths, motions, audio)
    } else {
        let stepped = enemy_barrier_step(barriers, enemies, healths, motions, audio, events[i]);
        enemy_barrier_run(barriers, enemies, stepped.0, stepped.1, stepped.2, events, i + 1)
    }
}

/// Resolver for enemies running into arena barriers.
pub struct EnemyArenaBorderCollisionSystem {
    /// Read cursor over the enemy collision channel.
    pub event_reader: usize,
}

impl EnemyArenaBorderCollisionSystem {
    pub fn new() -> (r: Self)
        ensures
            r.event_reader == 0,
    {
        EnemyArenaBorderCollisionSystem { event_reader: 0 }
    }

    /// Drain the pending enemy collision events and apply the
    /// enemy×barrier rule to each.
    pub fn run(
        &mut self,
        channel: &EventChannel<EnemyCollisionEvent>,
        barriers: &Vec<Option<BarrierComponent>>,
        enemies: &Vec<Option<EnemyComponent>>,
        motions: &mut Vec<Option<Motion2DComponent>>,
        healths: &mut Vec<Option<HealthComponent>>,
        play_audio_channel: &mut EventChannel<PlayAudioEvent>,
    )
        requires
            old(self).event_reader <= channel@.len(),
            enemies@.len() == barriers@.len(),
            old(motions)@.len() == barriers@.len(),
            old(healths)@.len() == barriers@.len(),
            forall|i: int|
                old(self).event_reader <= i < channel@.len() ==> enemy_barrier_event_ok(
                    #[trigger] channel@[i],
                    barriers@,
                    enemies@,
                    old(healths)@,
                    old(motions)@,
                ),
        ensures
            final(self).event_reader == channel@.len(),
            (final(healths)@, final(motions)@, final(play_audio_channel)@) == enemy_barrier_run(
                barriers@,
                enemies@,
                old(healths)@,
                old(motions)@,
                old(play_audio_channel)@,
                channel@,
                old(self).event_reader as int,
            ),
    {
        let ghost ba = barriers@;
        let ghost en = enemies@;
        let ghost h0 = old(healths)@;
        let ghost m0 = old(motions)@;
        let ghost a0 = old(play_audio_channel)@;
        let ghost c0 = old(self).event_reader as int;
        let n: usize = healths.len();

        while self.event_reader < channel.len()
            invariant
                barriers@ == ba,
                enemies@ == en,
                c0 <= self.event_reader as int <= channel@.len(),
                ba.len() == n && en.len() == n && h0.len() == n && m0.len() == n,
                healths@.len() == n,
                motions@.len() == n,
                forall|j: int|
                    0 <= j < n ==> ((#[trigger] healths@[j]) is Some <==> h0[j] is Some),
                forall|j: int|
                    0 <= j < n ==> ((#[trigger] motions@[j]) is Some <==> m0[j] is Some),
                forall|i: int|
                    c0 <= i < channel@.len() ==> enemy_barrier_event_ok(
                        #[trigger] channel@[i],
                        ba,
                        en,
                        h0,
                        m0,
                    ),
                enemy_barrier_run(ba, en, h0, m0, a0, channel@, c0) == enemy_barrier_run(
                    ba,
                    en,
                    healths@,
                    motions@,
                    play_audio_channel@,
                    channel@,
                    self.event_reader as int,
                ),
            decreases channel@.len() - self.event_reader,
        {
            let e: EnemyCollisionEvent = *channel.get(self.event_reader);
            let ghost iprev = self.event_reader as int;
            let ghost hprev = healths@;
            let ghost mprev = motions@;
            let ghost aprev = play_audio_channel@;
            proof {
                assert(enemy_barrier_event_ok(channel@[iprev], ba, en, h0, m0));
            }

            if let Some(barrier) = barriers[e.colliding_entity] {
                let enemy: EnemyComponent = enemies[e.enemy_entity].unwrap();

                if !barrier.enemies_pass {
                    match enemy.spawnable_type {
                        SpawnableType::Enemy(EnemyType::Missile) => {},
                        _ => {
                            let mut enemy_motion: Motion2DComponent =
                                motions[e.enemy_entity].unwrap();
                            let mut enemy_health: HealthComponent =
                                healths[e.enemy_entity].unwrap();

                            barrier_collision(&mut enemy_motion, &barrier);
                            motions[e.enemy_entity] = Some(enemy_motion);

                            enemy_health.value = sat_sub_i64(enemy_health.value, barrier.damage);
                            healths[e.enemy_entity] = Some(enemy_health);

                            play_audio_channel.single_write(
                                PlayAudioEvent { sound_key: SoundKey::ForceField },
                            );
                        },
                    }
                }
            }
            self.event_reader = self.event_reader + 1;

            proof {
                assert((healths@, motions@, play_audio_channel@) == enemy_barrier_step(
                    ba,
                    en,
                    hprev,
                    mprev,
                    aprev,
                    channel@[iprev],
                ));
                assert(enemy_barrier_run(ba, en, hprev, mprev, aprev, channel@, iprev)
                    == enemy_barrier_run(
                    ba,
                    en,
                    healths@,
                    motions@,
                    play_audio_channel@,
                    channel@,
                    self.event_reader as int,
                ));
                assert forall|j: int| 0 <= j < n implies ((#[trigger] healths@[j]) is Some
                    <==> h0[j] is Some) by {
                    assert(hprev[j] is Some <==> h0[j] is Some);
                }
                assert forall|j: int| 0 <= j < n implies ((#[trigger] motions@[j]) is Some
                    <==> m0[j] is Some) by {
                    assert(mprev[j] is Some <==> m0[j] is Some);
                }
            }
        }
    }
}

/// A missile enemy dies to any contact: across the player, enemy and
/// allied-blast resolvers, a collision event leaves its health at exactly
/// zero, whatever damage the collider carries.
pub proof fn lemma_missile_contact_zeroes_health(
    players: Seq<Option<PlayerComponent>>,
    enemies: Seq<Option<EnemyComponent>>,
    blasts: Seq<Option<BlastComponent>>,
    transforms: Seq<Option<Position>>,
    params: GameParametersResource,
    healths: Seq<Option<HealthComponent>>,
    motions: Seq<Option<Motion2DComponent>>,
    audio: Seq<PlayAudioEvent>,
    deletions: Seq<usize>,
    effects: Seq<EffectSpawnCommand>,
    e: EnemyCollisionEvent,
)
    requires
        (e.enemy_entity as int) < healths.len(),
        enemies[e.enemy_entity as int] is Some,
        spec_is_missile(enemies[e.enemy_entity as int]->0),
    ensures
        players[e.colliding_entity as int] is Some ==> ({
            let h2 = enemy_player_step(players, enemies, params, healths, motions, audio, e).0;
            h2[e.enemy_entity as int] is Some && (h2[e.enemy_entity as int]->0).value == 0
        }),
        enemies[e.colliding_entity as int] is Some ==> ({
            let h2 = enemy_enemy_step(enemies, params, healths, motions, audio, e).0;
            h2[e.enemy_entity as int] is Some && (h2[e.enemy_entity as int]->0).value == 0
        }),
        (blasts[e.colliding_entity as int] is Some && is_ally_blast(
            blasts[e.colliding_entity as int]->0,
        )) ==> ({
            let h2 = enemy_blast_step(
                enemies,
                blasts,
                transforms,
                healths,
                deletions,
                effects,
                audio,
                e,
            ).0;
            h2[e.enemy_entity as int] is Some && (h2[e.enemy_entity as int]->0).value == 0
        }),
{
}

} // verus!
