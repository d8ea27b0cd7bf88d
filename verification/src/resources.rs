//! Shared configuration records handed to the simulation by the
//! integrator.

use vstd::prelude::*;

use crate::components::Hitbox2DComponent;
use crate::components::ItemComponent;

verus! {

/// Everything needed to stamp out one item entity: its pickup payload and
/// its hitbox.
#[derive(Clone, Debug)]
pub struct ItemEntityData {
    pub item_component: ItemComponent,
    pub hitbox_component: Hitbox2DComponent,
}

/// Tunables shared by the collision resolvers.
#[derive(Clone, Copy, Debug, PartialEq, Eq, Structural)]
pub struct GameParametersResource {
    /// Floor under the magnitude of any knockback a collision imparts.
    pub min_collision_knockback: i64,
}

} // verus!
