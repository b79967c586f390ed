//! A deterministic, allocation-free color-pattern sequencing engine for
//! independently addressable RGB light sources.
//!
//! The engine is driven by repeated, non-blocking polling against a
//! monotonic tick counter supplied by the caller. A [`engine::Sequence`]
//! holds a bounded, ordered list of [`engine::Action`]s; each action pairs
//! one color behavior with a timing context and a repeat policy.

pub mod behaviors;
pub mod color;
pub mod engine;
pub mod laws;
pub mod timing;
pub mod wave;

pub use color::Rgb8;
