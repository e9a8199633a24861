//! Timestep scheduling for frame-driven simulations.
//!
//! Once per rendered frame a host hands in the wall-clock time that has
//! elapsed, and gets back, for each active timestep mode, the sequence of
//! simulation steps to run. Entities driven by the fixed timestep are
//! smoothed between steps by a blend weight derived from the time left over.
//!
//! All durations are whole nanoseconds.

pub mod configuration;
pub mod interpolation;
pub mod lag;
pub mod moving_box;
pub mod timestep;
pub mod update_cadence;
