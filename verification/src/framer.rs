//! Framer start results and wakeup scheduling.

use vstd::prelude::*;

verus! {

/// Code telling the framework that a framer is ready.
pub const NW_FRAMER_START_READY: i32 = 1;
/// Code telling the framework that a framer will mark itself ready later.
pub const NW_FRAMER_START_WILL_MARK_READY: i32 = 2;

/// Result of starting a framer instance.
#[derive(Debug, Clone, Copy, PartialEq, Eq, Structural)]
pub enum FramerStart {
    Ready,
    WillMarkReady,
}

/// The code reported to the framework for a start result.
pub open spec fn spec_framer_start_raw(s: FramerStart) -> i32 {
    match s {
        FramerStart::Ready => NW_FRAMER_START_READY,
        FramerStart::WillMarkReady => NW_FRAMER_START_WILL_MARK_READY,
    }
}

impl FramerStart {
    /// Encode the start result for the framework.
    pub fn as_raw(self) -> (raw: i32)
        ensures
            raw == spec_framer_start_raw(self),
    {
        match self {
            Self::Ready => NW_FRAMER_START_READY,
            Self::WillMarkReady => NW_FRAMER_START_WILL_MARK_READY,
        }
    }
}

/// The wakeup delay handed to the framework for a delay of `millis`
/// milliseconds: the delay itself, or the largest `u64` when it does not fit.
pub fn wakeup_milliseconds(millis: u128) -> (ms: u64)
    ensures
        millis <= u64::MAX ==> ms == millis,
        millis > u64::MAX ==> ms == u64::MAX,
{
    if millis <= u64::MAX as u128 {
        millis as u64
    } else {
        u64::MAX
    }
}

/// The delay that unschedules a pending wakeup.
pub fn cleared_wakeup_milliseconds() -> (ms: u64)
    ensures
        ms == u64::MAX,
{
    u64::MAX
}

/// The codes `FramerStart` values are encoded to, as the framework defines them: `Ready` to 1,
/// `WillMarkReady` to 2.
pub proof fn lemma_framer_start_raw_codes()
    ensures
        spec_framer_start_raw(FramerStart::Ready) == 1,
        spec_framer_start_raw(FramerStart::WillMarkReady) == 2,
{
}

} // verus!
