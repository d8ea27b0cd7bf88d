//! The component and tag types an entity can carry, and the closed sets of
//! entity kinds.
//!
//! Components are plain data: collision resolution reads and rewrites them
//! but they hold no behaviour of their own beyond `HealthComponent::take_damage`.

use vstd::prelude::*;

use crate::math::sat_sub;
use crate::math::sat_sub_i64;

verus! {

/// The enemy subkinds. A `Missile` dies to any contact instead of taking
/// proportional damage.
#[derive(Clone, Copy, Debug, PartialEq, Eq, Structural)]
pub enum EnemyType {
    Pawn,
    Drone,
    Hauler,
    Missile,
}

/// The item subkinds a spawner may produce.
#[derive(Clone, Copy, Debug, PartialEq, Eq, Structural)]
pub enum ItemType {
    SteelBarrel,
    BlastRepeller,
}

/// The consumable subkinds a spawner may produce.
#[derive(Clone, Copy, Debug, PartialEq, Eq, Structural)]
pub enum ConsumableType {
    HealthWrench,
    DefenseWrench,
    Money,
}

/// Everything a spawn point can put into the arena.
#[derive(Clone, Copy, Debug, PartialEq, Eq, Structural)]
pub enum SpawnableType {
    Enemy(EnemyType),
    Item(ItemType),
    Consumable(ConsumableType),
}

/// Alignment and flavour of a blast projectile.
#[derive(Clone, Copy, Debug, PartialEq, Eq, Structural)]
pub enum BlastType {
    Ally,
    AllyCritical,
    AllyPoison,
    Enemy,
}

/// Explosion effects that resolvers ask the renderer to create.
#[derive(Clone, Copy, Debug, PartialEq, Eq, Structural)]
pub enum EffectType {
    AllyBlastExplosion,
    CriticalBlastExplosion,
    PoisonBlastExplosion,
    EnemyBlastExplosion,
}

/// Keys into the name-keyed audio-handle table of the audio collaborator.
#[derive(Clone, Copy, Debug, PartialEq, Eq, Structural)]
pub enum SoundKey {
    MetalCrash,
    MetalPing,
    ForceField,
    ShotgunCock,
    HealthUp,
    DefenseUp,
    CashRegister,
}

/// Direction of an active barrel-roll; `Neutral` means the ability is not
/// currently steering the ship.
#[derive(Clone, Copy, Debug, PartialEq, Eq, Structural)]
pub enum AbilityDirection {
    Neutral,
    Left,
    Right,
}

/// The side a barrier pushes entities toward.
#[derive(Clone, Copy, Debug, PartialEq, Eq, Structural)]
pub enum BarrierFacing {
    Left,
    Right,
    Up,
    Down,
}

/// An entity's position in the arena.
#[derive(Clone, Copy, Debug, PartialEq, Eq, Structural)]
pub struct Position {
    pub x: i64,
    pub y: i64,
}

/// Axis-aligned hitbox: full extents plus a center offset relative to the
/// entity's position. Declarative only; collision logic never mutates it.
#[derive(Clone, Copy, Debug, PartialEq, Eq, Structural)]
pub struct Hitbox2DComponent {
    pub width: i64,
    pub height: i64,
    pub offset_x: i64,
    pub offset_y: i64,
}

/// Velocity plus the `immovable` flag: an immovable entity deals knockback
/// but never receives it.
#[derive(Clone, Copy, Debug, PartialEq, Eq, Structural)]
pub struct Motion2DComponent {
    pub velocity_x: i64,
    pub velocity_y: i64,
    pub immovable: bool,
}

/// Hit points. `value` may go negative transiently: death is detected by
/// other systems, never clamped here.
#[derive(Clone, Copy, Debug, PartialEq, Eq, Structural)]
pub struct HealthComponent {
    pub value: i64,
    pub max: i64,
    pub armor: i64,
}

impl HealthComponent {
    /// Subtract `damage` from the current hit points, saturating at the
    /// fixed-point range; `max` and `armor` are untouched.
    pub fn take_damage(&mut self, damage: i64)
        ensures
            final(self).value as int == sat_sub(old(self).value as int, damage as int),
            final(self).max == old(self).max,
            final(self).armor == old(self).armor,
    {
        self.value = sat_sub_i64(self.value, damage);
    }
}

/// Marks an entity as an enemy and carries its damage figures.
#[derive(Clone, Copy, Debug, PartialEq, Eq, Structural)]
pub struct EnemyComponent {
    pub spawnable_type: SpawnableType,
    /// Damage dealt to whatever this enemy rams.
    pub collision_damage: i64,
    /// Damage dealt to the shared defense pool when this enemy escapes past
    /// the bottom border.
    pub defense_damage: i64,
}

/// Marks an entity as the player ship.
#[derive(Clone, Copy, Debug, PartialEq, Eq, Structural)]
pub struct PlayerComponent {
    pub collision_damage: i64,
    pub money: i64,
}

/// Marks an entity as a blast projectile.
#[derive(Clone, Copy, Debug, PartialEq, Eq, Structural)]
pub struct BlastComponent {
    pub blast_type: BlastType,
    pub damage: i64,
}

/// Marks an entity as a barrier at an arena edge.
#[derive(Clone, Copy, Debug, PartialEq, Eq, Structural)]
pub struct BarrierComponent {
    pub damage: i64,
    /// When set, enemies fly through the barrier unaffected.
    pub enemies_pass: bool,
    /// Speed imparted along the facing axis; the barrier's own fixed
    /// response, independent of the knockback floor.
    pub knockback: i64,
    pub facing: BarrierFacing,
}

/// Marks an entity as a collectable item. The stat and boolean payloads are
/// handed on, untouched, to an external stat-resolution collaborator; keys
/// are that collaborator's stat identifiers.
#[derive(Clone, Debug)]
pub struct ItemComponent {
    pub stat_effects: Vec<(u64, i64)>,
    pub bool_effects: Vec<(u64, bool)>,
}

/// Marks an entity as a consumable pickup, applied immediately on contact.
#[derive(Clone, Copy, Debug, PartialEq, Eq, Structural)]
pub struct ConsumableComponent {
    pub health_value: i64,
    pub armor_value: i64,
    pub money_value: i64,
    /// Added to the health of every entity tagged `DefenseTag`.
    pub defense_value: i64,
    pub sound_effect: SoundKey,
}

/// The player's timed barrel-roll ability state.
#[derive(Clone, Copy, Debug, PartialEq, Eq, Structural)]
pub struct BarrelRollAbilityComponent {
    pub action_direction: AbilityDirection,
    /// Secondary flag: with it, a non-neutral roll also blocks direct
    /// enemy-collision damage.
    pub steel_barrel: bool,
}

/// Per-side border offsets; a side without an offset is never checked.
#[derive(Clone, Copy, Debug)]
pub struct DespawnAtBorderComponent {
    pub top_offset: Option<i64>,
    pub bottom_offset: Option<i64>,
    pub left_offset: Option<i64>,
    pub right_offset: Option<i64>,
}

/// Tags an entity as part of the shared defense pool.
#[derive(Clone, Copy, Debug, PartialEq, Eq, Structural)]
pub struct DefenseTag;

/// The shared defense stat displayed by the defense bar.
#[derive(Clone, Copy, Debug, PartialEq, Eq, Structural)]
pub struct Defense {
    pub max_defense: i64,
    pub defense: i64,
}

} // verus!
