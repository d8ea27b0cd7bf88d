use space_shooter::components::{
    BarrierComponent, BlastComponent, ConsumableComponent, EnemyComponent, EnemyType,
    Hitbox2DComponent, ItemComponent, Motion2DComponent, PlayerComponent, Position, SpawnableType,
};
use space_shooter::detection::CollisionDetectionSystem;
use space_shooter::events::{EnemyCollisionEvent, EventChannel, PlayerCollisionEvent};

#[derive(Default)]
struct World {
    players: Vec<Option<PlayerComponent>>,
    enemies: Vec<Option<EnemyComponent>>,
    blasts: Vec<Option<BlastComponent>>,
    items: Vec<Option<ItemComponent>>,
    consumables: Vec<Option<ConsumableComponent>>,
    barriers: Vec<Option<BarrierComponent>>,
    hitboxes: Vec<Option<Hitbox2DComponent>>,
    transforms: Vec<Option<Position>>,
    motions: Vec<Option<Motion2DComponent>>,
}

impl World {
    fn blank(&mut self) -> usize {
        self.players.push(None);
        self.enemies.push(None);
        self.blasts.push(None);
        self.items.push(None);
        self.consumables.push(None);
        self.barriers.push(None);
        self.hitboxes.push(None);
        self.transforms.push(None);
        self.motions.push(None);
        self.players.len() - 1
    }

    fn place(&mut self, id: usize, x: i64, y: i64, vx: i64, vy: i64) {
        self.hitboxes[id] =
            Some(Hitbox2DComponent { width: 10, height: 10, offset_x: 0, offset_y: 0 });
        self.transforms[id] = Some(Position { x, y });
        self.motions[id] =
            Some(Motion2DComponent { velocity_x: vx, velocity_y: vy, immovable: false });
    }

    fn detect(&self) -> (Vec<PlayerCollisionEvent>, Vec<EnemyCollisionEvent>) {
        let mut player_channel: EventChannel<PlayerCollisionEvent> = EventChannel::new();
        let mut enemy_channel: EventChannel<EnemyCollisionEvent> = EventChannel::new();
        CollisionDetectionSystem.run(
            &self.players,
            &self.enemies,
            &self.blasts,
            &self.items,
            &self.consumables,
            &self.barriers,
            &self.hitboxes,
            &self.transforms,
            &self.motions,
            &mut player_channel,
            &mut enemy_channel,
        );
        let mut pevents = Vec::new();
        let mut i = 0usize;
        while i < player_channel.len() {
            pevents.push(*player_channel.get(i));
            i += 1;
        }
        let mut eevents = Vec::new();
        let mut j = 0usize;
        while j < enemy_channel.len() {
            eevents.push(*enemy_channel.get(j));
            j += 1;
        }
        (pevents, eevents)
    }
}

fn pawn() -> EnemyComponent {
    EnemyComponent {
        spawnable_type: SpawnableType::Enemy(EnemyType::Pawn),
        collision_damage: 1,
        defense_damage: 1,
    }
}

#[test]
fn overlapping_player_and_enemy_produce_one_event_per_subject() {
    let mut world = World::default();
    let player = world.blank();
    let enemy = world.blank();
    world.players[player] = Some(PlayerComponent { collision_damage: 1, money: 0 });
    world.enemies[enemy] = Some(pawn());
    world.place(player, 0, 0, 2, 3);
    world.place(enemy, 5, 0, -4, 1);

    let (pevents, eevents) = world.detect();

    assert_eq!(pevents.len(), 1);
    assert_eq!(pevents[0].player_entity, player);
    assert_eq!(pevents[0].colliding_entity, enemy);
    // Velocity of the enemy relative to the player.
    assert_eq!(pevents[0].collision_velocity, Some((-6, -2)));
    assert!(!pevents[0].collider_immovable);

    assert_eq!(eevents.len(), 1);
    assert_eq!(eevents[0].enemy_entity, enemy);
    assert_eq!(eevents[0].colliding_entity, player);
    assert_eq!(eevents[0].collision_velocity, Some((6, 2)));
}

#[test]
fn distant_entities_produce_no_events() {
    let mut world = World::default();
    let player = world.blank();
    let enemy = world.blank();
    world.players[player] = Some(PlayerComponent { collision_damage: 1, money: 0 });
    world.enemies[enemy] = Some(pawn());
    world.place(player, 0, 0, 0, 0);
    world.place(enemy, 100, 0, 0, 0);

    let (pevents, eevents) = world.detect();
    assert!(pevents.is_empty());
    assert!(eevents.is_empty());
}

#[test]
fn entities_without_hitboxes_are_ignored() {
    let mut world = World::default();
    let player = world.blank();
    let enemy = world.blank();
    world.players[player] = Some(PlayerComponent { collision_damage: 1, money: 0 });
    world.enemies[enemy] = Some(pawn());
    world.place(player, 0, 0, 0, 0);
    world.transforms[enemy] = Some(Position { x: 0, y: 0 });

    let (pevents, eevents) = world.detect();
    assert!(pevents.is_empty());
    assert!(eevents.is_empty());
}

#[test]
fn items_are_monitored_for_the_player_but_not_for_enemies() {
    let mut world = World::default();
    let enemy = world.blank();
    let item = world.blank();
    world.enemies[enemy] = Some(pawn());
    world.items[item] =
        Some(ItemComponent { stat_effects: Vec::new(), bool_effects: Vec::new() });
    world.place(enemy, 0, 0, 0, 0);
    world.place(item, 5, 0, 0, 0);

    let (pevents, eevents) = world.detect();
    assert!(pevents.is_empty());
    assert!(eevents.is_empty());

    // The same overlap with a player subject is monitored.
    let mut world2 = World::default();
    let player = world2.blank();
    let item2 = world2.blank();
    world2.players[player] = Some(PlayerComponent { collision_damage: 1, money: 0 });
    world2.items[item2] =
        Some(ItemComponent { stat_effects: Vec::new(), bool_effects: Vec::new() });
    world2.place(player, 0, 0, 0, 0);
    world2.place(item2, 5, 0, 0, 0);

    let (pevents2, eevents2) = world2.detect();
    assert_eq!(pevents2.len(), 1);
    assert_eq!(pevents2[0].colliding_entity, item2);
    assert!(eevents2.is_empty());
}

#[test]
fn enemy_pairs_are_reported_from_both_sides() {
    let mut world = World::default();
    let first = world.blank();
    let second = world.blank();
    world.enemies[first] = Some(pawn());
    world.enemies[second] = Some(pawn());
    world.place(first, 0, 0, 0, 0);
    world.place(second, 0, 5, 0, 0);

    let (pevents, eevents) = world.detect();
    assert!(pevents.is_empty());
    assert_eq!(eevents.len(), 2);
    assert_eq!(eevents[0].enemy_entity, first);
    assert_eq!(eevents[0].colliding_entity, second);
    assert_eq!(eevents[1].enemy_entity, second);
    assert_eq!(eevents[1].colliding_entity, first);
}

#[test]
fn immovable_collider_is_flagged() {
    let mut world = World::default();
    let enemy = world.blank();
    let barrier = world.blank();
    world.enemies[enemy] = Some(pawn());
    world.barriers[barrier] = Some(BarrierComponent {
        damage: 1,
        enemies_pass: false,
        knockback: 5,
        facing: space_shooter::components::BarrierFacing::Up,
    });
    world.place(enemy, 0, 0, 0, 0);
    world.place(barrier, 5, 0, 0, 0);
    world.motions[barrier] =
        Some(Motion2DComponent { velocity_x: 0, velocity_y: 0, immovable: true });

    let (_, eevents) = world.detect();
    assert_eq!(eevents.len(), 1);
    assert!(eevents[0].collider_immovable);
}
