//! Simulation core of a 2D arcade shooter: weighted probabilistic spawning
//! and event-driven collision resolution.
//!
//! Quantities that the surrounding game measures in seconds, pixels or hit
//! points are carried here as signed 64-bit fixed-point values; the caller
//! picks the scale (the tests use thousandths). Rendering, audio playback,
//! asset loading and input handling are external collaborators: this crate
//! only emits the events and deferred commands they consume.

pub mod collision;
pub mod commands;
pub mod components;
pub mod constants;
pub mod despawn;
pub mod detection;
pub mod enemy_collisions;
pub mod events;
pub mod explosion;
pub mod math;
pub mod resources;
pub mod rng;
pub mod spaceship_collisions;
pub mod spawner;
