use space_shooter::commands::CommandBuffer;
use space_shooter::components::{
    AbilityDirection, BarrelRollAbilityComponent, BarrierComponent, BarrierFacing, BlastComponent,
    BlastType, ConsumableComponent, EffectType, EnemyComponent, EnemyType, HealthComponent,
    ItemComponent, Motion2DComponent, PlayerComponent, Position, SoundKey, SpawnableType,
};
use space_shooter::enemy_collisions::{
    EnemyArenaBorderCollisionSystem, EnemyBlastCollisionSystem, EnemyEnemyCollisionSystem,
    EnemyPlayerCollisionSystem,
};
use space_shooter::events::{
    EnemyCollisionEvent, EventChannel, ItemGetEvent, PlayAudioEvent, PlayerCollisionEvent,
};
use space_shooter::resources::GameParametersResource;
use space_shooter::spaceship_collisions::{
    SpaceshipArenaBorderCollisionSystem, SpaceshipBlastCollisionSystem,
    SpaceshipConsumableCollisionSystem, SpaceshipEnemyCollisionSystem,
    SpaceshipItemCollisionSystem,
};

const PARAMS: GameParametersResource = GameParametersResource { min_collision_knockback: 5 };

fn enemy(kind: EnemyType, collision_damage: i64) -> EnemyComponent {
    EnemyComponent {
        spawnable_type: SpawnableType::Enemy(kind),
        collision_damage,
        defense_damage: 0,
    }
}

fn health(value: i64) -> HealthComponent {
    HealthComponent { value, max: value, armor: 0 }
}

fn movable() -> Motion2DComponent {
    Motion2DComponent { velocity_x: 0, velocity_y: 0, immovable: false }
}

fn enemy_event(enemy_entity: usize, colliding_entity: usize) -> EnemyCollisionEvent {
    EnemyCollisionEvent {
        enemy_entity,
        colliding_entity,
        collision_velocity: Some((10, -10)),
        collider_immovable: false,
    }
}

fn player_event(player_entity: usize, colliding_entity: usize) -> PlayerCollisionEvent {
    PlayerCollisionEvent {
        player_entity,
        colliding_entity,
        collision_velocity: Some((10, -10)),
        collider_immovable: false,
    }
}

/// Health of a missile enemy after the enemy×player resolver, for one
/// configured player collision damage.
fn missile_health_after_player_hit(damage: i64) -> i64 {
    let mut channel: EventChannel<EnemyCollisionEvent> = EventChannel::new();
    channel.single_write(enemy_event(0, 1));
    let players: Vec<Option<PlayerComponent>> =
        vec![None, Some(PlayerComponent { collision_damage: damage, money: 0 })];
    let enemies: Vec<Option<EnemyComponent>> = vec![Some(enemy(EnemyType::Missile, 3)), None];
    let mut motions: Vec<Option<Motion2DComponent>> = vec![Some(movable()), Some(movable())];
    let mut healths: Vec<Option<HealthComponent>> = vec![Some(health(50)), Some(health(100))];
    let mut audio: EventChannel<PlayAudioEvent> = EventChannel::new();

    let mut system = EnemyPlayerCollisionSystem::new();
    system.run(&channel, &PARAMS, &players, &enemies, &mut motions, &mut healths, &mut audio);
    healths[0].unwrap().value
}

#[test]
fn missile_hit_by_player_dies_for_any_damage() {
    assert_eq!(missile_health_after_player_hit(1), 0);
    assert_eq!(missile_health_after_player_hit(100), 0);
    assert_eq!(missile_health_after_player_hit(0), 0);
}

#[test]
fn ordinary_enemy_takes_player_collision_damage_and_knockback() {
    let mut channel: EventChannel<EnemyCollisionEvent> = EventChannel::new();
    channel.single_write(enemy_event(0, 1));
    let players: Vec<Option<PlayerComponent>> =
        vec![None, Some(PlayerComponent { collision_damage: 13, money: 0 })];
    let enemies: Vec<Option<EnemyComponent>> = vec![Some(enemy(EnemyType::Pawn, 3)), None];
    let mut motions: Vec<Option<Motion2DComponent>> = vec![Some(movable()), Some(movable())];
    let mut healths: Vec<Option<HealthComponent>> = vec![Some(health(50)), Some(health(100))];
    let mut audio: EventChannel<PlayAudioEvent> = EventChannel::new();

    let mut system = EnemyPlayerCollisionSystem::new();
    system.run(&channel, &PARAMS, &players, &enemies, &mut motions, &mut healths, &mut audio);

    assert_eq!(healths[0].unwrap().value, 37);
    // Knockback takes on the incoming velocity, floored at 5.
    assert_eq!(motions[0].unwrap().velocity_x, 10);
    assert_eq!(motions[0].unwrap().velocity_y, -10);
    // Player side untouched by this resolver.
    assert_eq!(healths[1].unwrap().value, 100);
    assert_eq!(audio.len(), 1);
    assert_eq!(audio.get(0).sound_key, SoundKey::MetalCrash);
}

#[test]
fn each_resolver_sees_each_event_exactly_once() {
    let mut channel: EventChannel<EnemyCollisionEvent> = EventChannel::new();
    channel.single_write(enemy_event(0, 1));
    let players: Vec<Option<PlayerComponent>> =
        vec![None, Some(PlayerComponent { collision_damage: 10, money: 0 })];
    let enemies: Vec<Option<EnemyComponent>> = vec![Some(enemy(EnemyType::Pawn, 3)), None];
    let mut motions: Vec<Option<Motion2DComponent>> = vec![Some(movable()), Some(movable())];
    let mut healths: Vec<Option<HealthComponent>> = vec![Some(health(50)), Some(health(100))];
    let mut audio: EventChannel<PlayAudioEvent> = EventChannel::new();

    let mut system = EnemyPlayerCollisionSystem::new();
    system.run(&channel, &PARAMS, &players, &enemies, &mut motions, &mut healths, &mut audio);
    assert_eq!(healths[0].unwrap().value, 40);
    // A second run finds no unread events and changes nothing.
    system.run(&channel, &PARAMS, &players, &enemies, &mut motions, &mut healths, &mut audio);
    assert_eq!(healths[0].unwrap().value, 40);
    assert_eq!(audio.len(), 1);
}

#[test]
fn events_written_after_a_run_are_seen_on_the_next_run() {
    let mut channel: EventChannel<EnemyCollisionEvent> = EventChannel::new();
    channel.single_write(enemy_event(0, 1));
    let players: Vec<Option<PlayerComponent>> =
        vec![None, Some(PlayerComponent { collision_damage: 10, money: 0 })];
    let enemies: Vec<Option<EnemyComponent>> = vec![Some(enemy(EnemyType::Pawn, 3)), None];
    let mut motions: Vec<Option<Motion2DComponent>> = vec![Some(movable()), Some(movable())];
    let mut healths: Vec<Option<HealthComponent>> = vec![Some(health(50)), Some(health(100))];
    let mut audio: EventChannel<PlayAudioEvent> = EventChannel::new();

    let mut system = EnemyPlayerCollisionSystem::new();
    system.run(&channel, &PARAMS, &players, &enemies, &mut motions, &mut healths, &mut audio);
    assert_eq!(healths[0].unwrap().value, 40);

    channel.single_write(enemy_event(0, 1));
    system.run(&channel, &PARAMS, &players, &enemies, &mut motions, &mut healths, &mut audio);
    // Only the one unread event was applied.
    assert_eq!(healths[0].unwrap().value, 30);
    assert_eq!(audio.len(), 2);
}

#[test]
fn missile_rammed_by_enemy_dies_for_any_damage() {
    for damage in [1i64, 100, 0] {
        let mut channel: EventChannel<EnemyCollisionEvent> = EventChannel::new();
        channel.single_write(enemy_event(0, 1));
        let enemies: Vec<Option<EnemyComponent>> =
            vec![Some(enemy(EnemyType::Missile, 3)), Some(enemy(EnemyType::Pawn, damage))];
        let mut motions: Vec<Option<Motion2DComponent>> = vec![Some(movable()), Some(movable())];
        let mut healths: Vec<Option<HealthComponent>> = vec![Some(health(50)), Some(health(60))];
        let mut audio: EventChannel<PlayAudioEvent> = EventChannel::new();

        let mut system = EnemyEnemyCollisionSystem::new();
        system.run(&channel, &PARAMS, &enemies, &mut motions, &mut healths, &mut audio);
        assert_eq!(healths[0].unwrap().value, 0);
    }
}

#[test]
fn immovable_collider_reflects_the_knockback() {
    let mut channel: EventChannel<EnemyCollisionEvent> = EventChannel::new();
    channel.single_write(EnemyCollisionEvent {
        enemy_entity: 0,
        colliding_entity: 1,
        collision_velocity: Some((10, -10)),
        collider_immovable: true,
    });
    let enemies: Vec<Option<EnemyComponent>> =
        vec![Some(enemy(EnemyType::Pawn, 3)), Some(enemy(EnemyType::Pawn, 4))];
    let mut motions: Vec<Option<Motion2DComponent>> = vec![Some(movable()), Some(movable())];
    let mut healths: Vec<Option<HealthComponent>> = vec![Some(health(50)), Some(health(60))];
    let mut audio: EventChannel<PlayAudioEvent> = EventChannel::new();

    let mut system = EnemyEnemyCollisionSystem::new();
    system.run(&channel, &PARAMS, &enemies, &mut motions, &mut healths, &mut audio);
    assert_eq!(healths[0].unwrap().value, 46);
    assert_eq!(motions[0].unwrap().velocity_x, -10);
    assert_eq!(motions[0].unwrap().velocity_y, 10);
}

#[test]
fn ally_blast_kills_missile_and_leaves_explosion() {
    for damage in [1i64, 100, 0] {
        let mut channel: EventChannel<EnemyCollisionEvent> = EventChannel::new();
        channel.single_write(enemy_event(0, 1));
        let enemies: Vec<Option<EnemyComponent>> = vec![Some(enemy(EnemyType::Missile, 3)), None];
        let blasts: Vec<Option<BlastComponent>> =
            vec![None, Some(BlastComponent { blast_type: BlastType::Ally, damage })];
        let transforms: Vec<Option<Position>> = vec![None, Some(Position { x: 7, y: 8 })];
        let mut healths: Vec<Option<HealthComponent>> = vec![Some(health(50)), None];
        let mut commands = CommandBuffer::new();
        let mut audio: EventChannel<PlayAudioEvent> = EventChannel::new();

        let mut system = EnemyBlastCollisionSystem::new();
        system.run(
            &channel,
            &enemies,
            &blasts,
            &transforms,
            &mut healths,
            &mut commands,
            &mut audio,
        );

        assert_eq!(healths[0].unwrap().value, 0);
        assert_eq!(commands.deletions().as_slice(), &[1usize]);
        let effects = commands.effects();
        assert_eq!(effects.len(), 1);
        assert_eq!(effects[0].effect_type, EffectType::AllyBlastExplosion);
        assert_eq!(effects[0].position, Position { x: 7, y: 8 });
        assert_eq!(audio.len(), 1);
        assert_eq!(audio.get(0).sound_key, SoundKey::MetalPing);
    }
}

#[test]
fn ally_blast_damages_ordinary_enemy() {
    let mut channel: EventChannel<EnemyCollisionEvent> = EventChannel::new();
    channel.single_write(enemy_event(0, 1));
    let enemies: Vec<Option<EnemyComponent>> = vec![Some(enemy(EnemyType::Pawn, 3)), None];
    let blasts: Vec<Option<BlastComponent>> =
        vec![None, Some(BlastComponent { blast_type: BlastType::AllyCritical, damage: 7 })];
    let transforms: Vec<Option<Position>> = vec![None, Some(Position { x: 0, y: 0 })];
    let mut healths: Vec<Option<HealthComponent>> = vec![Some(health(50)), None];
    let mut commands = CommandBuffer::new();
    let mut audio: EventChannel<PlayAudioEvent> = EventChannel::new();

    let mut system = EnemyBlastCollisionSystem::new();
    system.run(&channel, &enemies, &blasts, &transforms, &mut healths, &mut commands, &mut audio);

    assert_eq!(healths[0].unwrap().value, 43);
    assert_eq!(commands.effects()[0].effect_type, EffectType::CriticalBlastExplosion);
}

#[test]
fn enemy_aligned_blast_does_not_hit_enemies() {
    let mut channel: EventChannel<EnemyCollisionEvent> = EventChannel::new();
    channel.single_write(enemy_event(0, 1));
    let enemies: Vec<Option<EnemyComponent>> = vec![Some(enemy(EnemyType::Pawn, 3)), None];
    let blasts: Vec<Option<BlastComponent>> =
        vec![None, Some(BlastComponent { blast_type: BlastType::Enemy, damage: 7 })];
    let transforms: Vec<Option<Position>> = vec![None, Some(Position { x: 0, y: 0 })];
    let mut healths: Vec<Option<HealthComponent>> = vec![Some(health(50)), None];
    let mut commands = CommandBuffer::new();
    let mut audio: EventChannel<PlayAudioEvent> = EventChannel::new();

    let mut system = EnemyBlastCollisionSystem::new();
    system.run(&channel, &enemies, &blasts, &transforms, &mut healths, &mut commands, &mut audio);

    assert_eq!(healths[0].unwrap().value, 50);
    assert!(commands.deletions().is_empty());
    assert_eq!(audio.len(), 0);
}

#[test]
fn barrier_blocks_ordinary_enemy_but_not_missile() {
    let barrier = BarrierComponent {
        damage: 10,
        enemies_pass: false,
        knockback: 99,
        facing: BarrierFacing::Down,
    };
    for (kind, expected_health, expected_vy) in
        [(EnemyType::Pawn, 40i64, -99i64), (EnemyType::Missile, 50i64, 0i64)]
    {
        let mut channel: EventChannel<EnemyCollisionEvent> = EventChannel::new();
        channel.single_write(enemy_event(0, 1));
        let barriers: Vec<Option<BarrierComponent>> = vec![None, Some(barrier)];
        let enemies: Vec<Option<EnemyComponent>> = vec![Some(enemy(kind, 3)), None];
        let mut motions: Vec<Option<Motion2DComponent>> = vec![Some(movable()), None];
        let mut healths: Vec<Option<HealthComponent>> = vec![Some(health(50)), None];
        let mut audio: EventChannel<PlayAudioEvent> = EventChannel::new();

        let mut system = EnemyArenaBorderCollisionSystem::new();
        system.run(&channel, &barriers, &enemies, &mut motions, &mut healths, &mut audio);
        assert_eq!(healths[0].unwrap().value, expected_health);
        assert_eq!(motions[0].unwrap().velocity_y, expected_vy);
    }
}

#[test]
fn passable_barrier_lets_enemies_through() {
    let barrier = BarrierComponent {
        damage: 10,
        enemies_pass: true,
        knockback: 99,
        facing: BarrierFacing::Down,
    };
    let mut channel: EventChannel<EnemyCollisionEvent> = EventChannel::new();
    channel.single_write(enemy_event(0, 1));
    let barriers: Vec<Option<BarrierComponent>> = vec![None, Some(barrier)];
    let enemies: Vec<Option<EnemyComponent>> = vec![Some(enemy(EnemyType::Pawn, 3)), None];
    let mut motions: Vec<Option<Motion2DComponent>> = vec![Some(movable()), None];
    let mut healths: Vec<Option<HealthComponent>> = vec![Some(health(50)), None];
    let mut audio: EventChannel<PlayAudioEvent> = EventChannel::new();

    let mut system = EnemyArenaBorderCollisionSystem::new();
    system.run(&channel, &barriers, &enemies, &mut motions, &mut healths, &mut audio);
    assert_eq!(healths[0].unwrap().value, 50);
    assert_eq!(audio.len(), 0);
}

/// Player health after one enemy collision, for a given barrel-roll state.
fn player_health_after_enemy_hit(roll: Option<BarrelRollAbilityComponent>) -> i64 {
    let mut channel: EventChannel<PlayerCollisionEvent> = EventChannel::new();
    channel.single_write(player_event(0, 1));
    let enemies: Vec<Option<EnemyComponent>> = vec![None, Some(enemy(EnemyType::Pawn, 30))];
    let mut motions: Vec<Option<Motion2DComponent>> = vec![Some(movable()), Some(movable())];
    let mut healths: Vec<Option<HealthComponent>> = vec![Some(health(100)), Some(health(50))];
    let rolls: Vec<Option<BarrelRollAbilityComponent>> = vec![roll, None];

    let mut system = SpaceshipEnemyCollisionSystem::new();
    system.run(&channel, &PARAMS, &enemies, &mut motions, &mut healths, &rolls);
    healths[0].unwrap().value
}

#[test]
fn steel_barrel_roll_blocks_enemy_collision_damage() {
    let roll = BarrelRollAbilityComponent {
        action_direction: AbilityDirection::Left,
        steel_barrel: true,
    };
    assert_eq!(player_health_after_enemy_hit(Some(roll)), 100);
}

#[test]
fn roll_without_steel_barrel_takes_full_enemy_damage() {
    let roll = BarrelRollAbilityComponent {
        action_direction: AbilityDirection::Left,
        steel_barrel: false,
    };
    assert_eq!(player_health_after_enemy_hit(Some(roll)), 70);
    assert_eq!(player_health_after_enemy_hit(None), 70);
}

#[test]
fn neutral_roll_gives_no_collision_immunity() {
    let roll = BarrelRollAbilityComponent {
        action_direction: AbilityDirection::Neutral,
        steel_barrel: true,
    };
    assert_eq!(player_health_after_enemy_hit(Some(roll)), 70);
}

/// Player health and blast deletion count after one enemy-blast hit, for a
/// given barrel-roll state.
fn blast_outcome(roll: Option<BarrelRollAbilityComponent>) -> (i64, usize) {
    let mut channel: EventChannel<PlayerCollisionEvent> = EventChannel::new();
    channel.single_write(player_event(0, 1));
    let blasts: Vec<Option<BlastComponent>> =
        vec![None, Some(BlastComponent { blast_type: BlastType::Enemy, damage: 25 })];
    let rolls: Vec<Option<BarrelRollAbilityComponent>> = vec![roll, None];
    let transforms: Vec<Option<Position>> = vec![None, Some(Position { x: 1, y: 2 })];
    let mut healths: Vec<Option<HealthComponent>> = vec![Some(health(100)), None];
    let mut commands = CommandBuffer::new();

    let mut system = SpaceshipBlastCollisionSystem::new();
    system.run(&channel, &blasts, &rolls, &transforms, &mut healths, &mut commands);
    (healths[0].unwrap().value, commands.deletions().len())
}

#[test]
fn any_non_neutral_roll_suppresses_blast_hits_regardless_of_steel() {
    for steel_barrel in [true, false] {
        let roll = BarrelRollAbilityComponent {
            action_direction: AbilityDirection::Right,
            steel_barrel,
        };
        assert_eq!(blast_outcome(Some(roll)), (100, 0));
    }
}

#[test]
fn blast_hits_player_without_an_active_roll() {
    assert_eq!(blast_outcome(None), (75, 1));
    let neutral = BarrelRollAbilityComponent {
        action_direction: AbilityDirection::Neutral,
        steel_barrel: true,
    };
    assert_eq!(blast_outcome(Some(neutral)), (75, 1));
}

#[test]
fn item_pickup_emits_payload_and_deletes_item() {
    let mut channel: EventChannel<PlayerCollisionEvent> = EventChannel::new();
    channel.single_write(player_event(0, 1));
    let items: Vec<Option<ItemComponent>> = vec![
        None,
        Some(ItemComponent {
            stat_effects: vec![(1, 250), (2, -40)],
            bool_effects: vec![(7, true)],
        }),
    ];
    let mut item_gets: EventChannel<ItemGetEvent> = EventChannel::new();
    let mut audio: EventChannel<PlayAudioEvent> = EventChannel::new();
    let mut commands = CommandBuffer::new();

    let mut system = SpaceshipItemCollisionSystem::new();
    system.run(&channel, &items, &mut item_gets, &mut audio, &mut commands);

    assert_eq!(item_gets.len(), 1);
    let pickup = item_gets.get(0);
    assert_eq!(pickup.player_entity, 0);
    assert_eq!(pickup.stat_effects, vec![(1, 250), (2, -40)]);
    assert_eq!(pickup.bool_effects, vec![(7, true)]);
    assert_eq!(audio.get(0).sound_key, SoundKey::ShotgunCock);
    assert_eq!(commands.deletions().as_slice(), &[1usize]);
}

#[test]
fn consumable_updates_player_and_shared_defense_pool() {
    let mut channel: EventChannel<PlayerCollisionEvent> = EventChannel::new();
    channel.single_write(player_event(0, 1));
    let consumables: Vec<Option<ConsumableComponent>> = vec![
        None,
        Some(ConsumableComponent {
            health_value: 3,
            armor_value: 2,
            money_value: 4,
            defense_value: 6,
            sound_effect: SoundKey::HealthUp,
        }),
        None,
    ];
    // Entity 2 is part of the shared defense pool.
    let defense_tags: Vec<bool> = vec![false, false, true];
    let mut players: Vec<Option<PlayerComponent>> =
        vec![Some(PlayerComponent { collision_damage: 0, money: 5 }), None, None];
    let mut healths: Vec<Option<HealthComponent>> =
        vec![Some(health(10)), None, Some(health(20))];
    let mut audio: EventChannel<PlayAudioEvent> = EventChannel::new();
    let mut commands = CommandBuffer::new();

    let mut system = SpaceshipConsumableCollisionSystem::new();
    system.run(
        &channel,
        &consumables,
        &defense_tags,
        &mut players,
        &mut healths,
        &mut audio,
        &mut commands,
    );

    assert_eq!(healths[0].unwrap().value, 13);
    assert_eq!(healths[0].unwrap().armor, 2);
    assert_eq!(players[0].unwrap().money, 9);
    assert_eq!(healths[2].unwrap().value, 26);
    assert_eq!(audio.get(0).sound_key, SoundKey::HealthUp);
    assert_eq!(commands.deletions().as_slice(), &[1usize]);
}

#[test]
fn player_hits_barrier_unconditionally() {
    // Even a steel barrel roll gives no immunity against barriers.
    let mut channel: EventChannel<PlayerCollisionEvent> = EventChannel::new();
    channel.single_write(player_event(0, 1));
    let barriers: Vec<Option<BarrierComponent>> = vec![
        None,
        Some(BarrierComponent {
            damage: 8,
            enemies_pass: false,
            knockback: 33,
            facing: BarrierFacing::Left,
        }),
    ];
    let mut motions: Vec<Option<Motion2DComponent>> = vec![Some(movable()), None];
    let mut healths: Vec<Option<HealthComponent>> = vec![Some(health(100)), None];
    let mut audio: EventChannel<PlayAudioEvent> = EventChannel::new();

    let mut system = SpaceshipArenaBorderCollisionSystem::new();
    system.run(&channel, &barriers, &mut motions, &mut healths, &mut audio);

    assert_eq!(healths[0].unwrap().value, 92);
    assert_eq!(motions[0].unwrap().velocity_x, -33);
    assert_eq!(audio.get(0).sound_key, SoundKey::ForceField);
}
