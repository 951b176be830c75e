//! Attractor points of an event stream on a wrap-around plane: toroidal
//! geometry, a fixed-capacity window of recent events, and an incrementally
//! maintained average of their flee points.

pub mod event_sums;
pub mod fixed_circular_buffer;
pub mod process_event;
pub mod rolling_average;
pub mod toroidal;
