//! The decision core of a physics-coupled character controller.
//!
//! A player-controlled capsule walks, runs, sprints, crouches, slides, runs
//! along walls and jumps, followed by a camera on a boom. This crate holds
//! what such a controller decides: how it classifies its contact with the
//! world, which state it moves to, which events it tells, and which velocity
//! change, jump impulse, collider and boom length it asks for. It does not
//! touch a physics engine: whoever drives it measures the world before a
//! tick, hands the measurements over as plain values, and carries out what the
//! tick returns.
//!
//! All scalars are whole numbers. Lengths, speeds, accelerations, ratios and
//! angles in degrees are counted in thousandths; durations are counted in
//! nanoseconds.

pub mod boom;
pub mod config;
pub mod controller;
pub mod descriptor;
pub mod events;
pub mod input;
pub mod jump_laws;
pub mod interactions;
pub mod level_events;
pub mod math;
pub mod movement;
pub mod orientation;
pub mod player;
pub mod settings;
pub mod state_machine;
pub mod tick;
pub mod tick_laws;
pub mod time;
pub mod traits;
pub mod transitions;
pub mod utils;
pub mod vectors;
