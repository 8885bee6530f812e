//! Music-synchronised brightness animations for ArtNet fixtures.
//!
//! Brightness multipliers, times and levels are fixed-point numbers counted
//! in millionths (see [`fixed::ONE`]).
pub mod fixed;
pub mod waveform;
pub mod frame;
pub mod effect;
pub mod settings;
pub mod animation;
pub mod artnet;
pub mod transmitter;
pub mod playback_state;
pub mod recipes;
pub mod controller;
pub mod image;
pub mod application;
