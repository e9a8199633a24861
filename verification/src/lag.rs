//! Artificial lag: a pause that is put into every so many frames, to stand
//! for a heavier load.

use vstd::prelude::*;

verus! {

/// How often a frame is made to lag, and for how long.
#[derive(Clone, Copy, Debug, PartialEq, Eq, Structural)]
pub struct LagConfig {
    /// How many frames pass between one lag frame and the next.
    pub frames_delay: u32,
    /// How long a lag frame pauses, in milliseconds.
    pub lag_duration_ms: u64,
}

impl Default for LagConfig {
    /// Every frame lags, for no time at all.
    fn default() -> (r: LagConfig)
        ensures
            r == (LagConfig { frames_delay: 0, lag_duration_ms: 0 }),
    {
        LagConfig { frames_delay: 0, lag_duration_ms: 0 }
    }
}

/// Decides, once per frame, whether this frame lags. `counter` holds the
/// frames that have passed since the last lag frame. Once it has reached the
/// configured delay the frame lags and the count starts over; the result is
/// then the pause in milliseconds. Otherwise the frame is counted and nothing
/// is returned.
pub fn lag_system(config: &LagConfig, counter: &mut u32) -> (pause: Option<u64>)
    ensures
        *old(counter) >= config.frames_delay ==> *final(counter) == 0 && pause == Some(
            config.lag_duration_ms,
        ),
        *old(counter) < config.frames_delay ==> *final(counter) == *old(counter) + 1 && pause
            is None,
{
    if *counter >= config.frames_delay {
        *counter = 0;
        Some(config.lag_duration_ms)
    } else {
        *counter = *counter + 1;
        None
    }
}

} // verus!
