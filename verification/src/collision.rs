//! The axis-aligned overlap predicate and the knockback rules that
//! collision resolvers apply to an entity's motion.

use vstd::prelude::*;

use crate::components::BarrierComponent;
use crate::components::BarrierFacing;
use crate::components::Motion2DComponent;

verus! {

/// Twice the left edge of a box of full width `w` whose center sits at
/// `x + off`. Working with doubled coordinates keeps half-extents exact.
pub open spec fn box_low(x: int, off: int, w: int) -> int {
    2 * (x + off) - w
}

/// Twice the right edge of the same box.
pub open spec fn box_high(x: int, off: int, w: int) -> int {
    2 * (x + off) + w
}

/// Two axis-aligned boxes overlap iff their offset-adjusted intervals
/// intersect strictly on both axes.
pub open spec fn spec_hitbox_collide(
    x1: int,
    y1: int,
    x2: int,
    y2: int,
    w1: int,
    h1: int,
    w2: int,
    h2: int,
    ox1: int,
    oy1: int,
    ox2: int,
    oy2: int,
) -> bool {
    &&& box_low(x1, ox1, w1) < box_high(x2, ox2, w2)
    &&& box_high(x1, ox1, w1) > box_low(x2, ox2, w2)
    &&& box_low(y1, oy1, h1) < box_high(y2, oy2, h2)
    &&& box_high(y1, oy1, h1) > box_low(y2, oy2, h2)
}

/// Strict axis-aligned overlap test between two hitboxes, each given by its
/// entity position, full extents and center offset.
#[allow(clippy::too_many_arguments)]
pub fn hitbox_collide(
    x1: i64,
    y1: i64,
    x2: i64,
    y2: i64,
    hitbox_width_1: i64,
    hitbox_height_1: i64,
    hitbox_width_2: i64,
    hitbox_height_2: i64,
    hitbox_x_offset_1: i64,
    hitbox_y_offset_1: i64,
    hitbox_x_offset_2: i64,
    hitbox_y_offset_2: i64,
) -> (r: bool)
    ensures
        r == spec_hitbox_collide(
            x1 as int,
            y1 as int,
            x2 as int,
            y2 as int,
            hitbox_width_1 as int,
            hitbox_height_1 as int,
            hitbox_width_2 as int,
            hitbox_height_2 as int,
            hitbox_x_offset_1 as int,
            hitbox_y_offset_1 as int,
            hitbox_x_offset_2 as int,
            hitbox_y_offset_2 as int,
        ),
{
    let x1w: i128 = 2 * (x1 as i128 + hitbox_x_offset_1 as i128);
    let y1w: i128 = 2 * (y1 as i128 + hitbox_y_offset_1 as i128);
    let x2w: i128 = 2 * (x2 as i128 + hitbox_x_offset_2 as i128);
    let y2w: i128 = 2 * (y2 as i128 + hitbox_y_offset_2 as i128);
    let w1: i128 = hitbox_width_1 as i128;
    let h1: i128 = hitbox_height_1 as i128;
    let w2: i128 = hitbox_width_2 as i128;
    let h2: i128 = hitbox_height_2 as i128;

    (x1w - w1) < (x2w + w2) && (x1w + w1) > (x2w - w2) && (y1w - h1) < (y2w + h2) && (y1w + h1)
        > (y2w - h2)
}

/// The overlap predicate is commutative under swapping the two boxes.
pub proof fn lemma_hitbox_collide_symmetric(
    x1: int,
    y1: int,
    x2: int,
    y2: int,
    w1: int,
    h1: int,
    w2: int,
    h2: int,
    ox1: int,
    oy1: int,
    ox2: int,
    oy2: int,
)
    ensures
        spec_hitbox_collide(x1, y1, x2, y2, w1, h1, w2, h2, ox1, oy1, ox2, oy2)
            == spec_hitbox_collide(x2, y2, x1, y1, w2, h2, w1, h1, ox2, oy2, ox1, oy1),
{
}

/// `v` pushed away from zero until its magnitude reaches `min_floor`; the
/// sign of `v` is kept (zero counts as positive).
pub open spec fn knock_floor(v: i64, min_floor: i64) -> i64 {
    if v >= 0 {
        if v >= min_floor {
            v
        } else {
            min_floor
        }
    } else {
        if v <= -min_floor {
            v
        } else {
            (-min_floor) as i64
        }
    }
}

/// Negation on the fixed-point range; the one unrepresentable magnitude
/// wraps onto itself.
pub open spec fn neg64(v: i64) -> i64 {
    if v == i64::MIN {
        i64::MIN
    } else {
        (0 - v) as i64
    }
}

/// Magnitude of a fixed-point value.
pub open spec fn abs64(v: i64) -> int {
    if v >= 0 {
        v as int
    } else {
        -(v as int)
    }
}

/// The magnitude a knocked velocity component ends with is never below the
/// configured floor, for every incoming component including zero; the
/// component keeps the incoming direction. `standard_collision` and
/// `immovable_collision` both produce their components through
/// `knock_floor`, so the bound holds of both.
pub proof fn lemma_knockback_magnitude_floor(v: i64, min_floor: i64)
    requires
        min_floor >= 0,
    ensures
        abs64(knock_floor(v, min_floor)) >= min_floor,
        v >= 0 ==> knock_floor(v, min_floor) >= min_floor,
        v < 0 ==> knock_floor(v, min_floor) <= -min_floor,
{
}

fn knocked(v: i64, min_floor: i64) -> (r: i64)
    requires
        min_floor >= 0,
    ensures
        r == knock_floor(v, min_floor),
{
    if v >= 0 {
        if v >= min_floor {
            v
        } else {
            min_floor
        }
    } else {
        let neg: i64 = -min_floor;
        if v <= neg {
            v
        } else {
            neg
        }
    }
}

/// The motion after a symmetric exchange with a movable collider: the
/// velocity takes on the incoming velocity, floored at `min_floor`.
pub open spec fn standard_knocked(
    m: Motion2DComponent,
    collision_velocity: (i64, i64),
    min_floor: i64,
) -> Motion2DComponent {
    Motion2DComponent {
        velocity_x: knock_floor(collision_velocity.0, min_floor),
        velocity_y: knock_floor(collision_velocity.1, min_floor),
        immovable: m.immovable,
    }
}

/// The motion after bouncing off an immovable collider: the velocity is the
/// reflected incoming velocity, floored at `min_floor`.
pub open spec fn immovable_knocked(
    m: Motion2DComponent,
    collision_velocity: (i64, i64),
    min_floor: i64,
) -> Motion2DComponent {
    Motion2DComponent {
        velocity_x: knock_floor(neg64(collision_velocity.0), min_floor),
        velocity_y: knock_floor(neg64(collision_velocity.1), min_floor),
        immovable: m.immovable,
    }
}

/// The motion after a barrier hit: the component along the barrier's facing
/// axis is replaced by the barrier's own fixed response, the other axis is
/// untouched. No floor applies here.
pub open spec fn barrier_knocked(m: Motion2DComponent, b: BarrierComponent) -> Motion2DComponent {
    match b.facing {
        BarrierFacing::Right => Motion2DComponent { velocity_x: b.knockback, ..m },
        BarrierFacing::Left => Motion2DComponent { velocity_x: neg64(b.knockback), ..m },
        BarrierFacing::Up => Motion2DComponent { velocity_y: b.knockback, ..m },
        BarrierFacing::Down => Motion2DComponent { velocity_y: neg64(b.knockback), ..m },
    }
}

/// Symmetric exchange between two movable participants.
pub fn standard_collision(
    motion: &mut Motion2DComponent,
    collision_velocity: (i64, i64),
    min_knockback: i64,
)
    requires
        min_knockback >= 0,
    ensures
        *final(motion) == standard_knocked(*old(motion), collision_velocity, min_knockback),
{
    motion.velocity_x = knocked(collision_velocity.0, min_knockback);
    motion.velocity_y = knocked(collision_velocity.1, min_knockback);
}

/// One-sided reflection off an immovable collider.
pub fn immovable_collision(
    motion: &mut Motion2DComponent,
    collision_velocity: (i64, i64),
    min_knockback: i64,
)
    requires
        min_knockback >= 0,
    ensures
        *final(motion) == immovable_knocked(*old(motion), collision_velocity, min_knockback),
{
    motion.velocity_x = knocked_reflected(collision_velocity.0, min_knockback);
    motion.velocity_y = knocked_reflected(collision_velocity.1, min_knockback);
}

fn knocked_reflected(v: i64, min_floor: i64) -> (r: i64)
    requires
        min_floor >= 0,
    ensures
        r == knock_floor(neg64(v), min_floor),
{
    if v == i64::MIN {
        // Reflection wraps the one unrepresentable magnitude onto itself,
        // which already sits at or beyond any nonnegative floor.
        i64::MIN
    } else {
        knocked(-v, min_floor)
    }
}

/// Directional stop/bounce against a barrier.
pub fn barrier_collision(motion: &mut Motion2DComponent, barrier: &BarrierComponent)
    requires
        barrier.knockback >= 0,
    ensures
        *final(motion) == barrier_knocked(*old(motion), *barrier),
{
    match barrier.facing {
        BarrierFacing::Right => {
            motion.velocity_x = barrier.knockback;
        },
        BarrierFacing::Left => {
            motion.velocity_x = -barrier.knockback;
        },
        BarrierFacing::Up => {
            motion.velocity_y = barrier.knockback;
        },
        BarrierFacing::Down => {
            motion.velocity_y = -barrier.knockback;
        },
    }
}

} // verus!
