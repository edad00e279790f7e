//! Turns span and event notifications into console lines and
//! performance-timeline marks and measurements.

pub mod config;
pub mod counter;
pub mod event;
pub mod layer;
pub mod level;
pub mod prelude;
pub mod recorder;
pub mod sink;
pub mod text;
pub mod thread;
