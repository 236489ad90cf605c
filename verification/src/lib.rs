//! Timing and CAD-model building blocks of the arena controller.
//!
//! The centre of the crate is a tick-rate-parameterised, non-blocking timer
//! ([`timer::Timer`]) meant to be polled from a control loop that must never
//! sleep. Its decisions are a pure state machine over nanosecond timestamps
//! ([`timer::TimerState`]); every transition carries a machine-checked
//! contract, and the timer's laws are proved in [`laws`]. Durations in ticks
//! and their conversion are in [`ticks`], the monotonic clock in [`clock`].
//!
//! [`cad`] holds the model of a CAD assembly and pairs the instances of
//! parts in it with their parts.
pub mod cad;
pub mod clock;
pub mod laws;
pub mod ticks;
pub mod timer;
