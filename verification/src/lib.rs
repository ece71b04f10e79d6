//! Core rules of an arcade shoot-'em-up: the bounded quantity model
//! (coherence, fever, fervor) and the combat resolution pipeline
//! (bullet-versus-attackable hits, health and kill bookkeeping, death
//! side effects), together with the small decision machines around them
//! (guns, pickups, enemy behavior, game phase).
//!
//! Everything here works on plain values.  The surrounding game engine
//! supplies collision snapshots, timestep durations and precomputed decay
//! factors, and carries out the commands this crate produces (despawns,
//! spawn requests, sound cues).  Quantity values are fixed-point numbers
//! with [`fixed::SCALE`] representing 1.0.

pub mod combat;
pub mod enemy;
pub mod fixed;
pub mod gun;
pub mod phase;
pub mod pickup;
pub mod quantity;
