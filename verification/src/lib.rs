//! State engine for a terminal progress indicator.
//!
//! The engine tracks completion, elapsed time and throughput, decides when a
//! redraw is warranted, and guarantees that a bar always reaches a visually
//! terminal state. All timestamps are nanosecond counts taken from a monotone
//! clock supplied by the caller; the engine itself never reads a clock.

pub mod bar;
pub mod draw_target;
pub mod estimator;
pub mod state;
pub mod style;
pub mod time;
