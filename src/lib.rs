//! Lighting schedules: change points anchored to the wall clock or to
//! sunset are resolved into instants for one day, and the light's action at
//! any instant is found by blending the two surrounding points.

pub mod blend;
pub mod error;
pub mod http;
pub mod resolve;
pub mod schedule;
pub mod sunset;
pub mod time;
pub mod types;
