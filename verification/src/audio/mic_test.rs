//! The limits of the microphone test.

use crate::time::{Duration, NANOS_PER_SEC};
use vstd::prelude::*;

verus! {

/// The longest recording of the microphone test, in seconds.
pub const MAX_RECORDING_SECS: u64 = 300;

/// How far the skip buttons move the player, in seconds.
pub const SKIP_SECS: u64 = 5;

/// The longest recording of the microphone test.
pub fn max_recording() -> (d: Duration)
    ensures
        d@ == MAX_RECORDING_SECS * NANOS_PER_SEC,
{
    Duration::from_secs(MAX_RECORDING_SECS)
}

/// How far the skip buttons move the player.
pub fn skip() -> (d: Duration)
    ensures
        d@ == SKIP_SECS * NANOS_PER_SEC,
{
    Duration::from_secs(SKIP_SECS)
}

} // verus!
