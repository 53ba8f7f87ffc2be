//! Deterministic host for line-following robot simulations.
//!
//! The host couples a metered guest program, a fuel-driven virtual clock, a
//! table of outstanding asynchronous device operations and a fixed-step
//! physics stepper, and keeps them in lock-step.

pub mod activity;
pub mod async_framework;
pub mod blocking_api;
pub mod bytes;
pub mod clock;
pub mod csv;
pub mod device_value;
pub mod devices;
pub mod futures;
pub mod host;
pub mod mock_stepper;
pub mod operation;
pub mod order;
pub mod ranking;
pub mod recorder;
pub mod robot;
pub mod runner;
pub mod sensors;
pub mod stepper;
pub mod text;
