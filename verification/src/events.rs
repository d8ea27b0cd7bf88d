//! Collision and gameplay events, and the append-only per-tick event
//! channel the resolvers read through independent cursors.

use vstd::prelude::*;

use crate::components::SoundKey;

verus! {

/// An overlap whose subject is an enemy entity.
#[derive(Clone, Copy, Debug)]
pub struct EnemyCollisionEvent {
    pub enemy_entity: usize,
    pub colliding_entity: usize,
    /// Velocity of the colliding entity relative to the enemy, when both
    /// carry motion.
    pub collision_velocity: Option<(i64, i64)>,
    pub collider_immovable: bool,
}

/// An overlap whose subject is the player entity.
#[derive(Clone, Copy, Debug)]
pub struct PlayerCollisionEvent {
    pub player_entity: usize,
    pub colliding_entity: usize,
    /// Velocity of the colliding entity relative to the player, when both
    /// carry motion.
    pub collision_velocity: Option<(i64, i64)>,
    pub collider_immovable: bool,
}

/// An enemy escaped past the bottom border; the damage is owed to the
/// shared defense pool.
#[derive(Clone, Copy, Debug, PartialEq, Eq, Structural)]
pub struct EnemyReachedBottomEvent {
    pub damage: i64,
}

impl EnemyReachedBottomEvent {
    pub fn new(damage: i64) -> (r: Self)
        ensures
            r.damage == damage,
    {
        EnemyReachedBottomEvent { damage }
    }
}

/// The player picked up an item; the payload is handed to an external
/// stat-resolution collaborator.
#[derive(Clone, Debug)]
pub struct ItemGetEvent {
    pub player_entity: usize,
    pub stat_effects: Vec<(u64, i64)>,
    pub bool_effects: Vec<(u64, bool)>,
}

/// Mathematical content of an `ItemGetEvent`.
pub ghost struct ItemGetView {
    pub player_entity: usize,
    pub stat_effects: Seq<(u64, i64)>,
    pub bool_effects: Seq<(u64, bool)>,
}

impl View for ItemGetEvent {
    type V = ItemGetView;

    open spec fn view(&self) -> ItemGetView {
        ItemGetView {
            player_entity: self.player_entity,
            stat_effects: self.stat_effects@,
            bool_effects: self.bool_effects@,
        }
    }
}

impl ItemGetEvent {
    pub fn new(
        player_entity: usize,
        stat_effects: Vec<(u64, i64)>,
        bool_effects: Vec<(u64, bool)>,
    ) -> (r: Self)
        ensures
            r@.player_entity == player_entity,
            r@.stat_effects == stat_effects@,
            r@.bool_effects == bool_effects@,
    {
        ItemGetEvent { player_entity, stat_effects, bool_effects }
    }
}

/// The views of a sequence of item pickup events.
pub open spec fn item_get_views(events: Seq<ItemGetEvent>) -> Seq<ItemGetView> {
    events.map_values(|ev: ItemGetEvent| ev@)
}

pub proof fn lemma_item_get_views_push(events: Seq<ItemGetEvent>, ev: ItemGetEvent)
    ensures
        item_get_views(events.push(ev)) == item_get_views(events).push(ev@),
{
    assert(item_get_views(events.push(ev)) =~= item_get_views(events).push(ev@));
}

/// A request to the audio collaborator to play the keyed sound.
#[derive(Clone, Copy, Debug, PartialEq, Eq, Structural)]
pub struct PlayAudioEvent {
    pub sound_key: SoundKey,
}

/// An append-only event log. Writers push; each reader walks it with a
/// cursor of its own, so every reader sees every event exactly once and no
/// two readers interfere.
pub struct EventChannel<T> {
    events: Vec<T>,
}

impl<T> View for EventChannel<T> {
    type V = Seq<T>;

    closed spec fn view(&self) -> Seq<T> {
        self.events@
    }
}

impl<T> EventChannel<T> {
    /// An empty channel.
    pub fn new() -> (r: Self)
        ensures
            r@ == Seq::<T>::empty(),
    {
        EventChannel { events: Vec::new() }
    }

    /// Number of events written so far.
    pub fn len(&self) -> (r: usize)
        ensures
            r == self@.len(),
    {
        self.events.len()
    }

    /// Append one event.
    pub fn single_write(&mut self, event: T)
        ensures
            final(self)@ == old(self)@.push(event),
    {
        self.events.push(event);
    }

    /// The event at index `i`.
    pub fn get(&self, i: usize) -> (r: &T)
        requires
            i < self@.len(),
        ensures
            *r == self@[i as int],
    {
        &self.events[i]
    }
}

} // verus!
