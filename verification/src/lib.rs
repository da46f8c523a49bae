//! A boolean signal whose changes can be scheduled on a caller-supplied tick axis.
//!
//! The signal never reads a clock. Its owner keeps a tick counter and asks the
//! signal, through [`TimedSignal::update`], what it should be at that tick.
//! Everything the signal does is stated against [`model::SignalView`], a small
//! abstract machine over unbounded ticks.

pub mod laws;
pub mod model;
pub mod signal;

pub use signal::TimedSignal;
