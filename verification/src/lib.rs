//! Deterministic gameplay core of a 2D platformer.
//!
//! Everything here works on whole numbers and is advanced tick by tick by
//! whoever owns the world: nothing reads a clock, a file or a device. Lengths
//! are counted in sub-units of a world unit, times in nanoseconds or
//! milliseconds. Every function states in its contract what it returns and
//! changes, and the contracts are machine-checked.
//!
//! A tick of the player runs through [`tick::begin_tick`], the physics
//! engine's casts, and [`tick::finish_tick`], which chains
//! [`locomotion`], [`combat`], [`trick_engine`] and [`checkpoint`].

pub mod animation;
pub mod checkpoint;
pub mod combat;
pub mod constants;
pub mod geometry;
pub mod hud;
pub mod input;
pub mod level;
pub mod locomotion;
pub mod probes;
pub mod scenes;
pub mod stats;
pub mod tick;
pub mod timer;
pub mod trick_engine;
pub mod tricks;
