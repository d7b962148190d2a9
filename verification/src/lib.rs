//! Core logic of an audio-reactive generative sketch.
//!
//! A playlist of scenes plays audio tracks and draws patterns synchronized
//! to the music.  This crate holds the deterministic part of that loop:
//! the beat/scene tracker that counts measures and advances scenes when a
//! track's beat phase wraps around, and the modulation mapper that turns
//! the beat phase and a frequency-spectrum snapshot into the scalar
//! signals the drawing rules consume.  Windowing, audio playback and the
//! floating-point drawing itself live outside, and hand this crate plain
//! values: a beat phase as a fixed-point fraction, a spectrum as bytes,
//! click coordinates as integers.

pub mod model;
pub mod modulation;
pub mod scenes;
