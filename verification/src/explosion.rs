//! Deferred creation commands for explosion effect entities. The commands
//! carry the full renderable shape — sprite index, animation timing,
//! starting position, finite lifetime — for the rendering collaborator to
//! realize at the tick barrier.

use vstd::prelude::*;

use crate::components::BlastType;
use crate::components::Position;

verus! {

/// How an animation walks its frames.
#[derive(Clone, Copy, Debug, PartialEq, Eq, Structural)]
pub enum AnimationType {
    Forward,
}

/// Frame-by-frame playback state of a spawned effect.
#[derive(Clone, Copy, Debug, PartialEq, Eq, Structural)]
pub struct Animation {
    pub start_idx: usize,
    pub frame_count: usize,
    pub current_frame: usize,
    /// Time per frame, fixed-point.
    pub frame_time: i64,
    pub elapsed_time: i64,
    pub forward: bool,
    pub animation_type: AnimationType,
}

/// A deferred entity-creation command for one visual effect.
#[derive(Clone, Copy, Debug, PartialEq, Eq, Structural)]
pub struct EffectSpawnData {
    pub sprite_number: usize,
    pub animation: Animation,
    pub position: Position,
    /// Lifetime after which the effect entity is despawned.
    pub duration: i64,
}

/// Frame time of a generic explosion, fixed-point.
pub const EXPLOSION_FRAME_TIME: i64 = 100;

/// Frame count of a generic explosion.
pub const EXPLOSION_FRAME_COUNT: usize = 10;

/// Frame time of a blast explosion, fixed-point.
pub const BLAST_EXPLOSION_FRAME_TIME: i64 = 80;

/// Frame count of a blast explosion.
pub const BLAST_EXPLOSION_FRAME_COUNT: usize = 7;

/// Row of the blast-explosion sprite sheet where the animation of this
/// blast flavour starts.
pub open spec fn spec_blast_starting_frame(blast_type: BlastType) -> usize {
    match blast_type {
        BlastType::Ally => 0usize,
        BlastType::Enemy => 7usize,
        BlastType::AllyCritical => 14usize,
        BlastType::AllyPoison => 21usize,
    }
}

/// The creation command for a generic explosion effect: a forward,
/// once-through animation over ten frames, alive for one run of its nine
/// frame steps.
pub fn spawn_explosion(sprite_number: usize, spawn_position: Position) -> (r: EffectSpawnData)
    ensures
        r.sprite_number == sprite_number,
        r.position == spawn_position,
        r.animation == (Animation {
            start_idx: 0usize,
            frame_count: EXPLOSION_FRAME_COUNT,
            current_frame: 0usize,
            frame_time: EXPLOSION_FRAME_TIME,
            elapsed_time: 0i64,
            forward: true,
            animation_type: AnimationType::Forward,
        }),
        r.duration == EXPLOSION_FRAME_TIME * ((EXPLOSION_FRAME_COUNT - 1) as i64),
{
    let frame_time: i64 = EXPLOSION_FRAME_TIME;
    let frame_count: usize = EXPLOSION_FRAME_COUNT;
    let duration: i64 = frame_time * ((frame_count - 1) as i64);

    let animation = Animation {
        start_idx: 0,
        frame_count,
        current_frame: 0,
        frame_time,
        elapsed_time: 0,
        forward: true,
        animation_type: AnimationType::Forward,
    };

    EffectSpawnData { sprite_number, animation, position: spawn_position, duration }
}

/// The creation command for a blast explosion effect: seven frames starting
/// at the row selected by the blast flavour.
pub fn spawn_blast_explosion(blast_type: BlastType, spawn_position: Position) -> (r:
    EffectSpawnData)
    ensures
        r.sprite_number == spec_blast_starting_frame(blast_type),
        r.position == spawn_position,
        r.animation == (Animation {
            start_idx: spec_blast_starting_frame(blast_type),
            frame_count: BLAST_EXPLOSION_FRAME_COUNT,
            current_frame: spec_blast_starting_frame(blast_type),
            frame_time: BLAST_EXPLOSION_FRAME_TIME,
            elapsed_time: 0i64,
            forward: true,
            animation_type: AnimationType::Forward,
        }),
        r.duration == BLAST_EXPLOSION_FRAME_TIME * ((BLAST_EXPLOSION_FRAME_COUNT - 1) as i64),
{
    let frame_time: i64 = BLAST_EXPLOSION_FRAME_TIME;
    let frame_count: usize = BLAST_EXPLOSION_FRAME_COUNT;
    let duration: i64 = frame_time * ((frame_count - 1) as i64);

    let starting_frame: usize = match blast_type {
        BlastType::Ally => 0,
        BlastType::Enemy => 7,
        BlastType::AllyCritical => 14,
        BlastType::AllyPoison => 21,
    };

    let animation = Animation {
        start_idx: starting_frame,
        frame_count,
        current_frame: starting_frame,
        frame_time,
        elapsed_time: 0,
        forward: true,
        animation_type: AnimationType::Forward,
    };

    EffectSpawnData {
        sprite_number: starting_frame,
        animation,
        position: spawn_position,
        duration,
    }
}

} // verus!
